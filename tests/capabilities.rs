use wms::{Capabilities, ServiceFields, WmsError};

fn text_field(v: &serde_json::Value, key: &str) -> Option<String> {
    v.get(key).and_then(|f| f.as_str()).map(String::from)
}

fn service_of(document: &str) -> Option<ServiceFields> {
    let v: serde_json::Value = serde_json::from_str(document).unwrap();
    v.get("service").map(|s| ServiceFields { name: text_field(s, "name"), title: text_field(s, "title") })
}

#[test]
fn document_with_name_and_title_decodes() {
    let c = Capabilities::from_fields(service_of(r#"{"service": {"name": "n", "title": "t"}}"#))
        .unwrap();
    assert_eq!(c.name(), "n");
    assert_eq!(c.title(), "t");
}

#[test]
fn document_without_service_is_refused() {
    assert_eq!(
        Capabilities::from_fields(service_of("{}")).err(),
        Some(WmsError::DeserializationFailure)
    );
}

#[test]
fn service_without_title_is_refused() {
    let fields = ServiceFields { name: Some("n".to_string()), title: None };
    assert_eq!(
        Capabilities::from_fields(Some(fields)).err(),
        Some(WmsError::DeserializationFailure)
    );
}

#[test]
fn service_without_name_is_refused() {
    let fields = ServiceFields { name: None, title: Some("t".to_string()) };
    assert_eq!(
        Capabilities::from_fields(Some(fields)).err(),
        Some(WmsError::DeserializationFailure)
    );
}

#[test]
fn extra_fields_are_ignored() {
    let doc = r#"{"service": {"name": "WMS", "title": "Roads", "abstract": "x"}, "layers": []}"#;
    let c = Capabilities::from_fields(service_of(doc)).unwrap();
    assert_eq!(c.name(), "WMS");
    assert_eq!(c.title(), "Roads");
}

#[test]
fn new_keeps_name_and_title() {
    let c = Capabilities::new("a".to_string(), "b".to_string());
    assert_eq!(c.name(), "a");
    assert_eq!(c.title(), "b");
}

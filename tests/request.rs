use wms::{build_url, validate_base_url, RequestKind, WmsError, VERSION};

#[test]
fn capabilities_url_has_the_three_pairs() {
    let u = build_url("http://sampleserver/wms", RequestKind::GetCapabilities).unwrap();
    assert_eq!(u.query(), "version=1.3.0&service=WMS&request=GetCapabilities");
    assert_eq!(
        u.as_str(),
        "http://sampleserver/wms?version=1.3.0&service=WMS&request=GetCapabilities"
    );
}

#[test]
fn map_url_names_no_service() {
    let u = build_url("http://sampleserver/wms", RequestKind::GetMap).unwrap();
    assert_eq!(u.query(), "version=1.3.0&request=GetMap");
    assert_eq!(u.as_str(), "http://sampleserver/wms?version=1.3.0&request=GetMap");
}

#[test]
fn uri_carries_path_and_query() {
    let u = build_url("http://sampleserver:8080/geo/wms", RequestKind::GetCapabilities).unwrap();
    assert_eq!(u.uri().path(), "/geo/wms");
    assert_eq!(
        u.uri().query(),
        Some("version=1.3.0&service=WMS&request=GetCapabilities")
    );
    assert_eq!(u.uri().port(), Some(8080));
}

#[test]
fn existing_query_is_kept_in_front() {
    let u = build_url("http://sampleserver/wms?map=roads", RequestKind::GetCapabilities).unwrap();
    assert_eq!(u.query(), "map=roads&version=1.3.0&service=WMS&request=GetCapabilities");
    let u = build_url("http://sampleserver/wms?map=roads", RequestKind::GetMap).unwrap();
    assert_eq!(u.query(), "map=roads&version=1.3.0&request=GetMap");
}

#[test]
fn existing_pair_of_same_name_is_not_replaced() {
    let u = build_url("http://sampleserver/wms?version=1.1.1", RequestKind::GetMap).unwrap();
    assert_eq!(u.query(), "version=1.1.1&version=1.3.0&request=GetMap");
}

#[test]
fn empty_existing_query_gets_no_leading_separator() {
    let u = build_url("http://sampleserver/wms?", RequestKind::GetMap).unwrap();
    assert_eq!(u.query(), "version=1.3.0&request=GetMap");
}

#[test]
fn fragment_stays_after_the_query() {
    let u = build_url("http://sampleserver/wms#top", RequestKind::GetMap).unwrap();
    assert_eq!(u.as_str(), "http://sampleserver/wms?version=1.3.0&request=GetMap#top");
    assert_eq!(u.query(), "version=1.3.0&request=GetMap");
}

#[test]
fn building_twice_gives_the_same_url() {
    let a = build_url("http://sampleserver/wms", RequestKind::GetCapabilities).unwrap();
    let b = build_url("http://sampleserver/wms", RequestKind::GetCapabilities).unwrap();
    assert_eq!(a.as_str(), b.as_str());
    assert_eq!(a.query(), b.query());
    assert_eq!(a.uri(), b.uri());
    let e1 = build_url("", RequestKind::GetMap).err();
    let e2 = build_url("", RequestKind::GetMap).err();
    assert_eq!(e1, e2);
}

#[test]
fn empty_base_is_malformed() {
    assert_eq!(
        build_url("", RequestKind::GetCapabilities).err(),
        Some(WmsError::MalformedUrl)
    );
    assert_eq!(build_url("", RequestKind::GetMap).err(), Some(WmsError::MalformedUrl));
    assert_eq!(validate_base_url(""), Err(WmsError::MalformedUrl));
}

#[test]
fn base_without_scheme_is_malformed() {
    assert_eq!(
        build_url("sampleserver/wms", RequestKind::GetCapabilities).err(),
        Some(WmsError::MalformedUrl)
    );
    assert_eq!(validate_base_url("sampleserver/wms"), Err(WmsError::MalformedUrl));
}

#[test]
fn valid_base_is_accepted() {
    assert_eq!(validate_base_url("http://sampleserver/wms"), Ok(()));
}

#[test]
fn url_that_is_no_http_target_is_malformed() {
    assert_eq!(validate_base_url("mailto:maps@example.com"), Ok(()));
    assert_eq!(
        build_url("mailto:maps@example.com", RequestKind::GetMap).err(),
        Some(WmsError::MalformedUrl)
    );
}

#[test]
fn params_of_each_kind() {
    assert_eq!(VERSION, "1.3.0");
    assert_eq!(
        RequestKind::GetCapabilities.params(),
        vec![("version", "1.3.0"), ("service", "WMS"), ("request", "GetCapabilities")]
    );
    assert_eq!(
        RequestKind::GetMap.params(),
        vec![("version", "1.3.0"), ("request", "GetMap")]
    );
}

#[test]
fn long_non_ascii_host_within_bound_returns() {
    let mut base = String::from("http://");
    base.push_str(&"a".repeat(2000));
    base.push('中');
    base.push('/');
    assert!(base.chars().count() <= wms::bindings::MAX_BASE_LEN);
    let checked = validate_base_url(&base);
    let built = build_url(&base, RequestKind::GetCapabilities);
    if built.is_ok() {
        assert_eq!(checked, Ok(()));
    }
    if checked.is_err() {
        assert_eq!(built.err(), Some(WmsError::MalformedUrl));
    }
}

//! The service record of a WMS capabilities document.

use vstd::prelude::*;

use crate::error::WmsError;

verus! {

/// The part of a capabilities document that this library reads: the
/// service's name and title.
#[derive(Debug)]
pub struct Capabilities {
    service: Service,
}

#[derive(Debug)]
struct Service {
    name: String,
    title: String,
}

/// The service record as a decoder found it: each field that was present.
pub struct ServiceFields {
    pub name: Option<String>,
    pub title: Option<String>,
}

impl View for Capabilities {
    /// The service's name and title.
    type V = (Seq<char>, Seq<char>);

    closed spec fn view(&self) -> (Seq<char>, Seq<char>) {
        (self.service.name@, self.service.title@)
    }
}

impl Capabilities {
    /// Capabilities of a service with the given name and title.
    pub fn new(name: String, title: String) -> (r: Capabilities)
        ensures
            r@ == (name@, title@),
    {
        Capabilities { service: Service { name, title } }
    }

    /// Turns what a decoder found into capabilities. A document without the
    /// `service` record, or whose record lacks `name` or `title`, is refused.
    pub fn from_fields(service: Option<ServiceFields>) -> (r: Result<Capabilities, WmsError>)
        ensures
            r is Ok <==> (service matches Some(f) && f.name is Some && f.title is Some),
            r matches Ok(c) ==> service matches Some(f) && c@ == (
                f.name->Some_0@,
                f.title->Some_0@,
            ),
            r matches Err(e) ==> e == WmsError::DeserializationFailure,
    {
        match service {
            Some(ServiceFields { name: Some(name), title: Some(title) }) => Ok(
                Capabilities::new(name, title),
            ),
            _ => Err(WmsError::DeserializationFailure),
        }
    }

    /// The service's name.
    pub fn name(&self) -> (r: &str)
        ensures
            r@ == self@.0,
    {
        self.service.name.as_str()
    }

    /// The service's title.
    pub fn title(&self) -> (r: &str)
        ensures
            r@ == self@.1,
    {
        self.service.title.as_str()
    }
}

} // verus!

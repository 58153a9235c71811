//! A small client library for the OGC Web Map Service protocol: it builds the
//! `GetCapabilities` and `GetMap` request URLs for a service endpoint and
//! describes the service record of a capabilities document.

pub mod bindings;
pub mod capabilities;
pub mod error;
pub mod request;

pub use capabilities::{Capabilities, ServiceFields};
pub use error::WmsError;
pub use request::{build_url, validate_base_url, RequestKind, RequestUrl, VERSION};

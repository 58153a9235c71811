use vstd::prelude::*;

verus! {

/// The ways in which a WMS call can fail.
#[derive(Clone, Copy, Debug, PartialEq, Eq, Structural)]
pub enum WmsError {
    /// The base URL, or the request URL built from it, does not parse.
    MalformedUrl,
    /// The HTTP request could not be completed.
    TransportFailure,
    /// A capabilities document lacks one of the fields it must hold.
    DeserializationFailure,
}

} // verus!

//! Building the request URLs of the two WMS operations that this library
//! speaks: `GetCapabilities` and `GetMap`.

use vstd::prelude::*;

use crate::bindings::{
    extend_query, is_plain_text, pair_text, pairs_are_plain, pairs_view, parse_uri, parse_url,
    parse_with_params, uri_accepts, url_accepts, url_query, url_with_pairs, MAX_BASE_LEN,
};
use crate::error::WmsError;

verus! {

/// The WMS protocol version that every request names.
pub const VERSION: &'static str = "1.3.0";

/// The operation that a request asks the service for.
#[derive(Clone, Copy, Debug, PartialEq, Eq, Structural)]
pub enum RequestKind {
    /// The service's metadata.
    GetCapabilities,
    /// A rendered map.
    GetMap,
}

impl RequestKind {
    /// The query pairs of the request, in the order they are appended. A map
    /// request names no `service`.
    pub open spec fn spec_params(self) -> Seq<(Seq<char>, Seq<char>)> {
        match self {
            RequestKind::GetCapabilities => seq![
                ("version"@, VERSION@),
                ("service"@, "WMS"@),
                ("request"@, "GetCapabilities"@),
            ],
            RequestKind::GetMap => seq![("version"@, VERSION@), ("request"@, "GetMap"@)],
        }
    }

    /// The query pairs of the request, in the order they are appended.
    pub fn params(self) -> (r: Vec<(&'static str, &'static str)>)
        ensures
            pairs_view(r@) == self.spec_params(),
    {
        let r = match self {
            RequestKind::GetCapabilities => vec![
                ("version", VERSION),
                ("service", "WMS"),
                ("request", "GetCapabilities"),
            ],
            RequestKind::GetMap => vec![("version", VERSION), ("request", "GetMap")],
        };
        assert(pairs_view(r@) =~= self.spec_params());
        r
    }

    /// Every name and value of the request's pairs is short and made of
    /// characters that form encoding keeps as they are.
    pub proof fn lemma_params_plain(self)
        ensures
            pairs_are_plain(self.spec_params()),
            self.spec_params().len() <= 3,
            forall|i: int|
                0 <= i < self.spec_params().len() ==> (#[trigger] self.spec_params()[i]).0.len()
                    <= 64 && self.spec_params()[i].1.len() <= 64,
    {
        reveal_strlit("version");
        reveal_strlit("1.3.0");
        reveal_strlit("service");
        reveal_strlit("WMS");
        reveal_strlit("request");
        reveal_strlit("GetCapabilities");
        reveal_strlit("GetMap");
        let p = self.spec_params();
        assert forall|i: int| 0 <= i < p.len() implies is_plain_text(#[trigger] p[i].0)
            && is_plain_text(p[i].1) by {
            assert(is_plain_text("version"@));
            assert(is_plain_text("1.3.0"@));
            assert(is_plain_text("service"@));
            assert(is_plain_text("WMS"@));
            assert(is_plain_text("request"@));
            assert(is_plain_text("GetCapabilities"@));
            assert(is_plain_text("GetMap"@));
        }
    }
}

/// A request URL: its text, its query, and the parsed target that the HTTP
/// client takes.
pub struct RequestUrl {
    text: String,
    query: String,
    uri: hyper::Uri,
}

impl View for RequestUrl {
    type V = (Seq<char>, Seq<char>);

    closed spec fn view(&self) -> (Seq<char>, Seq<char>) {
        (self.text@, self.query@)
    }
}

impl RequestUrl {
    /// The whole URL.
    pub fn as_str(&self) -> (r: &str)
        ensures
            r@ == self@.0,
    {
        self.text.as_str()
    }

    /// The query component of the URL.
    pub fn query(&self) -> (r: &str)
        ensures
            r@ == self@.1,
    {
        self.query.as_str()
    }

    /// The target to hand to the HTTP client.
    pub fn uri(&self) -> &hyper::Uri {
        &self.uri
    }
}

/// The query of the request of the given kind against a base URL: the base's
/// own query, if any, followed by the request's pairs.
pub open spec fn request_query(base: Seq<char>, kind: RequestKind) -> Seq<char> {
    extend_query(url_query(base), kind.spec_params())
}

/// The text and query of the request URL of the given kind against a base
/// URL, or the error that building it gives.
pub open spec fn request_outcome(base: Seq<char>, kind: RequestKind) -> Result<
    (Seq<char>, Seq<char>),
    WmsError,
> {
    let text = url_with_pairs(base, kind.spec_params());
    if url_accepts(base) && uri_accepts(text) {
        Ok((text, request_query(base, kind)))
    } else {
        Err(WmsError::MalformedUrl)
    }
}

/// What a call of `build_url` returned, with the request URL seen through its
/// view.
pub open spec fn outcome_view(r: Result<RequestUrl, WmsError>) -> Result<
    (Seq<char>, Seq<char>),
    WmsError,
> {
    match r {
        Ok(u) => Ok(u@),
        Err(e) => Err(e),
    }
}

/// Checks that a base URL parses as an absolute URL.
pub fn validate_base_url(base: &str) -> (r: Result<(), WmsError>)
    requires
        base@.len() <= MAX_BASE_LEN,
    ensures
        r is Ok <==> url_accepts(base@),
        r is Err ==> r == Err::<(), WmsError>(WmsError::MalformedUrl),
        base@.len() == 0 ==> r is Err,
        !base@.contains(':') ==> r is Err,
{
    match parse_url(base) {
        Ok(()) => Ok(()),
        Err(_) => Err(WmsError::MalformedUrl),
    }
}

/// Builds the request URL of the given kind: the base URL with `version`,
/// `service` (for `GetCapabilities` only) and `request` appended to its query.
/// Fails with `MalformedUrl` where the base does not parse, or the result is
/// not accepted as an HTTP request target.
pub fn build_url(base: &str, kind: RequestKind) -> (r: Result<RequestUrl, WmsError>)
    requires
        base@.len() <= MAX_BASE_LEN,
    ensures
        outcome_view(r) == request_outcome(base@, kind),
        r is Ok <==> url_accepts(base@) && uri_accepts(url_with_pairs(base@, kind.spec_params())),
        r matches Err(e) ==> e == WmsError::MalformedUrl,
        base@.len() == 0 ==> r is Err,
        !base@.contains(':') ==> r is Err,
        r is Ok && !base@.contains('?') ==> url_query(base@) == Seq::<char>::empty(),
{
    let params = kind.params();
    proof {
        kind.lemma_params_plain();
    }
    match parse_with_params(base, params.as_slice()) {
        Err(_) => Err(WmsError::MalformedUrl),
        Ok((text, query)) => {
            match query {
                None => Err(WmsError::MalformedUrl),
                Some(query) => {
                    match parse_uri(text.as_str()) {
                        Err(_) => Err(WmsError::MalformedUrl),
                        Ok(uri) => Ok(RequestUrl { text, query, uri }),
                    }
                },
            }
        },
    }
}

/// For a base URL that parses and holds no query parameters, the query of the
/// `GetCapabilities` request is exactly
/// `version=1.3.0&service=WMS&request=GetCapabilities`.
pub proof fn lemma_capabilities_query(base: Seq<char>)
    requires
        url_accepts(base),
        url_query(base) == Seq::<char>::empty(),
    ensures
        request_query(base, RequestKind::GetCapabilities)
            == "version=1.3.0&service=WMS&request=GetCapabilities"@,
{
    reveal_strlit("version");
    reveal_strlit("1.3.0");
    reveal_strlit("service");
    reveal_strlit("WMS");
    reveal_strlit("request");
    reveal_strlit("GetCapabilities");
    reveal_strlit("version=1.3.0&service=WMS&request=GetCapabilities");
    let p = RequestKind::GetCapabilities.spec_params();
    let q1 = pair_text(p[0]);
    let q2 = q1 + seq!['&'] + pair_text(p[1]);
    let q3 = q2 + seq!['&'] + pair_text(p[2]);
    assert(p.drop_first().drop_first().drop_first() =~= Seq::empty());
    assert(extend_query(q3, p.drop_first().drop_first().drop_first()) == q3);
    assert(q2.len() > 0);
    assert(p.drop_first().drop_first()[0] == p[2]);
    assert(extend_query(q2, p.drop_first().drop_first()) == q3);
    assert(q1.len() > 0);
    assert(p.drop_first()[0] == p[1]);
    assert(extend_query(q1, p.drop_first()) == q3);
    assert(Seq::<char>::empty() + pair_text(p[0]) =~= q1);
    assert(extend_query(Seq::empty(), p) == q3);
    assert(q3 =~= "version=1.3.0&service=WMS&request=GetCapabilities"@);
}

/// For a base URL that parses and holds no query parameters, the query of the
/// `GetMap` request is exactly `version=1.3.0&request=GetMap`: it names no
/// `service`.
pub proof fn lemma_map_query(base: Seq<char>)
    requires
        url_accepts(base),
        url_query(base) == Seq::<char>::empty(),
    ensures
        request_query(base, RequestKind::GetMap) == "version=1.3.0&request=GetMap"@,
{
    reveal_strlit("version");
    reveal_strlit("1.3.0");
    reveal_strlit("request");
    reveal_strlit("GetMap");
    reveal_strlit("version=1.3.0&request=GetMap");
    let p = RequestKind::GetMap.spec_params();
    let q1 = pair_text(p[0]);
    let q2 = q1 + seq!['&'] + pair_text(p[1]);
    assert(p.drop_first().drop_first() =~= Seq::empty());
    assert(extend_query(q2, p.drop_first().drop_first()) == q2);
    assert(q1.len() > 0);
    assert(p.drop_first()[0] == p[1]);
    assert(extend_query(q1, p.drop_first()) == q2);
    assert(Seq::<char>::empty() + pair_text(p[0]) =~= q1);
    assert(extend_query(Seq::empty(), p) == q2);
    assert(q2 =~= "version=1.3.0&request=GetMap"@);
}

/// Building a request URL depends on the base and the kind alone: two calls
/// with the same arguments give the same URL, or the same error.
pub proof fn lemma_build_url_pure(
    base: Seq<char>,
    kind: RequestKind,
    first: Result<RequestUrl, WmsError>,
    second: Result<RequestUrl, WmsError>,
)
    requires
        outcome_view(first) == request_outcome(base, kind),
        outcome_view(second) == request_outcome(base, kind),
    ensures
        outcome_view(first) == outcome_view(second),
{
}

/// A base URL that does not parse gives `MalformedUrl`, whatever the kind of
/// request.
pub proof fn lemma_malformed_base_refused(base: Seq<char>, kind: RequestKind)
    requires
        !url_accepts(base),
    ensures
        request_outcome(base, kind) == Err::<(Seq<char>, Seq<char>), WmsError>(
            WmsError::MalformedUrl,
        ),
{
}

} // verus!

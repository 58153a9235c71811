//! The calls this library makes into the `url` and `hyper` crates, with the
//! contracts that the rest of the library relies on.

use vstd::prelude::*;

verus! {

/// `url::ParseError`, carried through unopened.
#[verifier::external_type_specification]
#[verifier::external_body]
pub struct ExParseError(url::ParseError);

/// `hyper::Uri`, the request target handed to the HTTP client.
#[verifier::external_type_specification]
#[verifier::external_body]
pub struct ExUri(hyper::Uri);

/// `hyper::error::UriError`, carried through unopened.
#[verifier::external_type_specification]
#[verifier::external_body]
pub struct ExUriError(hyper::error::UriError);

/// The longest base URL, in characters, that the library hands to the `url`
/// crate. Two of that crate's limits panic in builds with overflow checks:
/// the punycode encoder of a host keeps its `delta` in a `u32`, which stays
/// below about 1,114,112 times the label's length plus two, and the crate
/// keeps positions in a URL's text as `u32`. At this length both stay well
/// inside their range.
pub const MAX_BASE_LEN: usize = 2048;

/// Whether `url::Url::parse` accepts the text as an absolute URL.
pub uninterp spec fn url_accepts(text: Seq<char>) -> bool;

/// The query component of the URL that `url::Url::parse` reads from the
/// text, empty where it has none.
pub uninterp spec fn url_query(text: Seq<char>) -> Seq<char>;

/// The text of the URL that `url::Url::parse_with_params` builds from a base
/// and a list of pairs.
pub uninterp spec fn url_with_pairs(base: Seq<char>, pairs: Seq<(Seq<char>, Seq<char>)>) -> Seq<
    char,
>;

/// Whether `hyper::Uri`'s `FromStr` accepts the text.
pub uninterp spec fn uri_accepts(text: Seq<char>) -> bool;

/// A character that `application/x-www-form-urlencoded` serialization keeps
/// as it is.
pub open spec fn is_plain_char(c: char) -> bool {
    c == '*' || c == '-' || c == '.' || c == '_' || ('0' <= c && c <= '9') || ('A' <= c && c
        <= 'Z') || ('a' <= c && c <= 'z')
}

pub open spec fn is_plain_text(s: Seq<char>) -> bool {
    forall|i: int| 0 <= i < s.len() ==> is_plain_char(#[trigger] s[i])
}

pub open spec fn pairs_are_plain(pairs: Seq<(Seq<char>, Seq<char>)>) -> bool {
    forall|i: int| 0 <= i < pairs.len() ==> is_plain_text(#[trigger] pairs[i].0) && is_plain_text(
        pairs[i].1,
    )
}

pub open spec fn pairs_view(pairs: Seq<(&str, &str)>) -> Seq<(Seq<char>, Seq<char>)> {
    pairs.map_values(|p: (&str, &str)| (p.0@, p.1@))
}

/// One pair written as `name=value`.
pub open spec fn pair_text(pair: (Seq<char>, Seq<char>)) -> Seq<char> {
    pair.0 + seq!['='] + pair.1
}

/// A query after appending pairs to it one by one, each preceded by `&`
/// unless the query is still empty at that point.
pub open spec fn extend_query(query: Seq<char>, pairs: Seq<(Seq<char>, Seq<char>)>) -> Seq<char>
    decreases pairs.len(),
{
    if pairs.len() == 0 {
        query
    } else {
        let lead = if query.len() > 0 {
            query + seq!['&']
        } else {
            query
        };
        extend_query(lead + pair_text(pairs[0]), pairs.drop_first())
    }
}

/// Relies on `url::Url::parse`: it accepts or refuses the text, depending on
/// the text alone, and refuses empty text and text without `:`, which has no
/// scheme.
#[verifier::external_body]
pub(crate) fn parse_url(text: &str) -> (r: Result<(), url::ParseError>)
    requires
        text@.len() <= MAX_BASE_LEN,
    ensures
        r is Ok <==> url_accepts(text@),
        text@.len() == 0 ==> r is Err,
        !text@.contains(':') ==> r is Err,
{
    match url::Url::parse(text) {
        Ok(_) => Ok(()),
        Err(e) => Err(e),
    }
}

/// Relies on `url::Url::parse_with_params`: it parses the base as
/// `url::Url::parse` does and fails exactly when that fails; otherwise
/// `query_pairs_mut().extend_pairs` appends each pair as `name=value` to the
/// query, after an `&` where the query is not empty. Names and values made of
/// plain characters are written unchanged. The result is the URL's text and
/// its query. Empty text is refused, as is text without `:`, which has no
/// scheme; text without `?` has no query: the
/// parser starts one only at that character.
#[verifier::external_body]
pub(crate) fn parse_with_params(base: &str, pairs: &[(&str, &str)]) -> (r: Result<
    (String, Option<String>),
    url::ParseError,
>)
    requires
        base@.len() <= MAX_BASE_LEN,
        pairs@.len() <= 8,
        forall|i: int|
            0 <= i < pairs@.len() ==> pairs@[i].0@.len() <= 64 && pairs@[i].1@.len() <= 64,
        pairs_are_plain(pairs_view(pairs@)),
    ensures
        r is Ok <==> url_accepts(base@),
        base@.len() == 0 ==> r is Err,
        !base@.contains(':') ==> r is Err,
        r matches Ok(u) ==> u.0@ == url_with_pairs(base@, pairs_view(pairs@)),
        r matches Ok(u) ==> u.1 matches Some(q) && q@ == extend_query(
            url_query(base@),
            pairs_view(pairs@),
        ),
        r is Ok && !base@.contains('?') ==> url_query(base@) == Seq::<char>::empty(),
{
    match url::Url::parse_with_params(base, pairs) {
        Ok(u) => {
            let query = u.query().map(String::from);
            Ok((u.into_string(), query))
        },
        Err(e) => Err(e),
    }
}

/// Relies on `hyper::Uri`'s `FromStr`: it accepts or refuses the text,
/// depending on the text alone.
#[verifier::external_body]
pub(crate) fn parse_uri(text: &str) -> (r: Result<hyper::Uri, hyper::error::UriError>)
    ensures
        r is Ok <==> uri_accepts(text@),
{
    text.parse::<hyper::Uri>()
}

} // verus!

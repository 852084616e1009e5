use vstd::prelude::*;

verus! {

#[verifier::external_type_specification]
#[verifier::external_body]
pub struct ExInvalidUri(http::uri::InvalidUri);

/// The path and the query of an endpoint that parsed as a URI.
pub struct Endpoint {
    pub path: String,
    pub query: Option<String>,
}

impl Endpoint {
    pub open spec fn parts(&self) -> (Seq<char>, Option<Seq<char>>) {
        (
            self.path@,
            match self.query {
                Some(q) => Some(q@),
                None => None,
            },
        )
    }
}

/// What `http::Uri` parsing makes of a text: `None` where the text is no URI,
/// else the URI's path and its query (without the `?`), if it has one.
pub uninterp spec fn uri_parts(s: Seq<char>) -> Option<(Seq<char>, Option<Seq<char>>)>;

/// Relies on `<http::Uri as FromStr>::from_str` to accept or refuse `s`, and on
/// `Uri::path` and `Uri::query` for the parts of an accepted one. The outcome
/// depends on the text alone; the empty text is refused.
#[verifier::external_body]
pub(crate) fn parse_endpoint(s: &str) -> (r: Result<Endpoint, http::uri::InvalidUri>)
    ensures
        match r {
            Ok(e) => uri_parts(s@) == Some(e.parts()),
            Err(_) => uri_parts(s@) is None,
        },
        s@.len() == 0 ==> r is Err,
{
    match s.parse::<http::Uri>() {
        Ok(uri) => Ok(Endpoint {
            path: uri.path().to_string(),
            query: uri.query().map(|q| q.to_string()),
        }),
        Err(e) => Err(e),
    }
}

} // verus!

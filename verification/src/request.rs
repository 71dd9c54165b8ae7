//! The event-to-request converter: builds the target URI from host and path,
//! applies the body-encoding policy (base64 or raw text, with the deliberate
//! soft failure on undecodable base64), and carries method and headers over.

use vstd::prelude::*;

use crate::error::VercelError;
use crate::event::{option_view, VercelRequest};
use crate::headers::HeaderCollection;
use crate::method::Method;
use crate::text::str_eq;

verus! {

/// The abstract content of a request body.
pub enum BodyModel {
    Empty,
    Text(Seq<char>),
    Bytes(Seq<u8>),
}

/// The request body: constructed from text, from raw bytes, or empty.
#[derive(Debug, PartialEq, Eq)]
pub enum Body {
    Empty,
    Text(String),
    Binary(Vec<u8>),
}

impl View for Body {
    type V = BodyModel;

    open spec fn view(&self) -> BodyModel {
        match self {
            Body::Empty => BodyModel::Empty,
            Body::Text(s) => BodyModel::Text(s@),
            Body::Binary(v) => BodyModel::Bytes(v@),
        }
    }
}

/// The assembled request handed to the embedding handler.
pub struct Request {
    pub method: Method,
    pub uri: String,
    pub headers: HeaderCollection,
    pub body: Body,
}

/// What `base64::decode` returns on the given characters, or nothing where
/// they are not a base64 encoding.
pub uninterp spec fn b64_decoded(s: Seq<char>) -> Option<Seq<u8>>;

/// Relies on base64::decode with its standard configuration: the outcome
/// depends on the input characters alone.
#[verifier::external_body]
fn base64_decode(s: &str) -> (r: Option<Vec<u8>>)
    ensures
        match r {
            Option::Some(v) => b64_decoded(s@) == Option::Some(v@),
            Option::None => b64_decoded(s@) is None,
        },
{
    match base64::decode(s) {
        Ok(v) => Some(v),
        Err(_) => None,
    }
}

/// Whether http::Uri's parser accepts the given characters as a URI.
pub uninterp spec fn uri_accepted(s: Seq<char>) -> bool;

/// Relies on the FromStr impl of http::Uri: whether a string parses as a URI
/// depends on its characters alone.
#[verifier::external_body]
fn check_uri(s: &str) -> (r: bool)
    ensures
        r == uri_accepted(s@),
{
    s.parse::<http::Uri>().is_ok()
}

/// The target URI: the scheme, the host and the path, copied verbatim.
pub open spec fn request_uri(host: Seq<char>, path: Seq<char>) -> Seq<char> {
    "https://"@ + host + path
}

/// The message carried when URI construction fails.
pub open spec fn conversion_error_message() -> Seq<char> {
    "failed to build request"@
}

/// The body chosen for a `(body, encoding)` pair: base64-encoded bodies are
/// decoded to bytes, with an empty body substituted where decoding fails; any
/// other encoding means the body text stands verbatim; no body means empty.
pub open spec fn body_policy(body: Option<Seq<char>>, encoding: Option<Seq<char>>) -> BodyModel {
    match body {
        Option::None => BodyModel::Empty,
        Option::Some(b) => if encoding == Option::Some("base64"@) {
            match b64_decoded(b) {
                Option::Some(bytes) => BodyModel::Bytes(bytes),
                Option::None => BodyModel::Empty,
            }
        } else {
            BodyModel::Text(b)
        },
    }
}

/// The body built from a base64 decode outcome: the bytes where decoding
/// succeeded, the empty body where it failed — the soft failure is never
/// surfaced as an error.
pub fn body_from_base64(decoded: Option<Vec<u8>>) -> (b: Body)
    ensures
        b@ == match decoded {
            Option::Some(v) => BodyModel::Bytes(v@),
            Option::None => BodyModel::Empty,
        },
{
    match decoded {
        Some(v) => Body::Binary(v),
        None => Body::Empty,
    }
}

/// Assembles the request for a decoded event: the URI is
/// `"https://" + host + path` with both copied verbatim, the method and the
/// headers are carried over unchanged, and the body follows `body_policy`.
/// The one failure is a URI that the URI parser rejects.
pub fn from_vercel_request(event: VercelRequest) -> (r: Result<Request, VercelError>)
    ensures
        r is Ok <==> uri_accepted(request_uri(event.host@, event.path@)),
        r matches Ok(out) ==> out.uri@ == request_uri(event.host@, event.path@) && out.method
            == event.method && out.headers@ == event.headers@ && out.body@ == body_policy(
            option_view(event.body),
            option_view(event.encoding),
        ),
        r matches Err(e) ==> e@ == conversion_error_message(),
{
    let VercelRequest { host, path, method, headers, body, encoding } = event;
    let uri = String::from_str("https://").concat(host.as_str()).concat(path.as_str());
    if !check_uri(uri.as_str()) {
        return Err(VercelError::new("failed to build request"));
    }
    let chosen: Body = match body {
        None => Body::Empty,
        Some(b) => {
            let is_b64 = match &encoding {
                Some(enc) => str_eq(enc.as_str(), "base64"),
                None => false,
            };
            if is_b64 {
                body_from_base64(base64_decode(b.as_str()))
            } else {
                Body::Text(b)
            }
        },
    };
    Ok(Request { method, uri, headers, body: chosen })
}

} // verus!

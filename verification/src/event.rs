//! The event schema: the parsed representation of the inbound proxy event
//! (host, path, method, headers, optional body, optional encoding), and the
//! secondary envelope shape (ignored discriminator plus a body string).

use vstd::prelude::*;

use crate::error::VercelError;
use crate::headers::{
    decode_headers, header_decode_failure, pairs_valid_before, pairs_view, HeaderCollection,
};
use crate::method::{decode_method, is_method_token, is_supported_verb, method_error_message, Method};

verus! {

/// A fully decoded proxy event.
pub struct VercelRequest {
    pub host: String,
    pub path: String,
    pub method: Method,
    pub headers: HeaderCollection,
    pub body: Option<String>,
    pub encoding: Option<String>,
}

/// The secondary envelope: a discriminator that decoding ignores, and the
/// body payload.
pub struct VercelEvent {
    pub action: String,
    pub body: String,
}

/// The result is the decode error carrying exactly `m`.
pub open spec fn err_with<T>(r: Result<T, VercelError>, m: Seq<char>) -> bool {
    match r {
        Result::Err(e) => e@ == m,
        Result::Ok(_) => false,
    }
}

/// The view of an optional string.
pub open spec fn option_view(o: Option<String>) -> Option<Seq<char>> {
    match o {
        Option::Some(s) => Option::Some(s@),
        Option::None => Option::None,
    }
}

/// All four required fields of the event are present.
pub open spec fn required_fields_present(
    host: Option<String>,
    path: Option<String>,
    method: Option<String>,
    headers: Option<Vec<(String, String)>>,
) -> bool {
    host is Some && path is Some && method is Some && headers is Some
}

/// Assembles the event schema from its raw fields, fail-fast: a missing
/// required field, an illegal method token or an invalid header pair each
/// reject the whole event, and no partial decode is returned.
pub fn decode_event(
    host: Option<String>,
    path: Option<String>,
    method: Option<String>,
    headers: Option<Vec<(String, String)>>,
    body: Option<String>,
    encoding: Option<String>,
) -> (r: Result<VercelRequest, VercelError>)
    ensures
        host is None ==> err_with(r, "missing field host"@),
        host is Some && path is None ==> err_with(r, "missing field path"@),
        host is Some && path is Some && method is None ==> err_with(r, "missing field method"@),
        host is Some && path is Some && method is Some && headers is None ==> err_with(
            r,
            "missing field headers"@,
        ),
        required_fields_present(host, path, method, headers) && !is_method_token(method->0@)
            ==> err_with(r, method_error_message()),
        required_fields_present(host, path, method, headers) && is_method_token(method->0@)
            && !pairs_valid_before(pairs_view(headers->0@), headers->0@.len() as int) ==> (
        r matches Err(e) && header_decode_failure(pairs_view(headers->0@), e@)),
        required_fields_present(host, path, method, headers) && is_method_token(method->0@)
            && pairs_valid_before(pairs_view(headers->0@), headers->0@.len() as int) ==> (
        r matches Ok(ev) && ev.host@ == host->0@ && ev.path@ == path->0@ && ev.method@
            == method->0@ && ((ev.method is Extension) <==> !is_supported_verb(method->0@))
            && ev.headers@ == pairs_view(headers->0@) && ev.headers.wf() && ev.body == body
            && ev.encoding == encoding),
{
    let h = match host {
        Some(h) => h,
        None => {
            return Err(VercelError::new("missing field host"));
        },
    };
    let p = match path {
        Some(p) => p,
        None => {
            return Err(VercelError::new("missing field path"));
        },
    };
    let m_token = match method {
        Some(m) => m,
        None => {
            return Err(VercelError::new("missing field method"));
        },
    };
    let header_pairs = match headers {
        Some(hs) => hs,
        None => {
            return Err(VercelError::new("missing field headers"));
        },
    };
    let m = match decode_method(m_token.as_str()) {
        Ok(m) => m,
        Err(e) => {
            return Err(e);
        },
    };
    let hc = match decode_headers(&header_pairs) {
        Ok(hc) => hc,
        Err(e) => {
            return Err(e);
        },
    };
    Ok(
        VercelRequest {
            host: h,
            path: p,
            method: m,
            headers: hc,
            body,
            encoding,
        },
    )
}

/// Decodes the secondary envelope from its two raw fields: the body is
/// required, the discriminator is taken as it stands and never examined.
pub fn decode_envelope(action: Option<String>, body: Option<String>) -> (r: Result<
    VercelEvent,
    VercelError,
>)
    ensures
        action is None ==> err_with(r, "missing field Action"@),
        action is Some && body is None ==> err_with(r, "missing field body"@),
        action is Some && body is Some ==> (r matches Ok(ev) && ev.action@ == action->0@
            && ev.body@ == body->0@),
{
    let a = match action {
        Some(a) => a,
        None => {
            return Err(VercelError::new("missing field Action"));
        },
    };
    let b = match body {
        Some(b) => b,
        None => {
            return Err(VercelError::new("missing field body"));
        },
    };
    Ok(VercelEvent { action: a, body: b })
}

} // verus!

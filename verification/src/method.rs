//! The method decoder: validates and parses an HTTP method token from a
//! string, accepting the standard verbs plus any extension token made of
//! legal method characters.

use vstd::prelude::*;

use crate::error::VercelError;
use crate::text::str_eq;

verus! {

/// An HTTP method: one of the standard verbs, or an extension token.
#[derive(Debug, PartialEq, Eq)]
pub enum Method {
    Get,
    Head,
    Post,
    Put,
    Delete,
    Connect,
    Options,
    Trace,
    Patch,
    Extension(String),
}

impl View for Method {
    type V = Seq<char>;

    /// A method is identified by its token.
    open spec fn view(&self) -> Seq<char> {
        match self {
            Method::Get => "GET"@,
            Method::Head => "HEAD"@,
            Method::Post => "POST"@,
            Method::Put => "PUT"@,
            Method::Delete => "DELETE"@,
            Method::Connect => "CONNECT"@,
            Method::Options => "OPTIONS"@,
            Method::Trace => "TRACE"@,
            Method::Patch => "PATCH"@,
            Method::Extension(s) => s@,
        }
    }
}

/// The characters a method token may contain: letters, digits, hyphen, dot
/// and underscore.
pub open spec fn is_method_char(c: char) -> bool {
    let u = c as u32;
    u == 45 || u == 46 || (48 <= u && u <= 57) || (65 <= u && u <= 90) || u == 95 || (97 <= u && u
        <= 122)
}

/// A legal method token: non-empty, every character legal.
pub open spec fn is_method_token(s: Seq<char>) -> bool {
    s.len() > 0 && forall|i: int| 0 <= i < s.len() ==> is_method_char(s[i])
}

/// The nine verbs the method type represents with a dedicated variant.
pub open spec fn is_supported_verb(s: Seq<char>) -> bool {
    s == "GET"@ || s == "HEAD"@ || s == "POST"@ || s == "PUT"@ || s == "DELETE"@ || s == "CONNECT"@
        || s == "OPTIONS"@ || s == "TRACE"@ || s == "PATCH"@
}

/// The message carried by a method decode failure.
pub open spec fn method_error_message() -> Seq<char> {
    "invalid method token, expected a Method"@
}

fn method_char_ok(c: char) -> (b: bool)
    ensures
        b == is_method_char(c),
{
    let u = c as u32;
    u == 45 || u == 46 || (48 <= u && u <= 57) || (65 <= u && u <= 90) || u == 95 || (97 <= u && u
        <= 122)
}

/// Decodes a method token: a supported verb yields its dedicated variant, any
/// other legal token an extension, and an illegal token the decode error.
pub fn decode_method(token: &str) -> (r: Result<Method, VercelError>)
    ensures
        r is Ok <==> is_method_token(token@),
        r matches Ok(m) ==> m@ == token@,
        r matches Ok(m) ==> ((m is Extension) <==> !is_supported_verb(token@)),
        r matches Err(e) ==> e@ == method_error_message(),
{
    if str_eq(token, "GET") {
        proof {
            reveal_strlit("GET");
        }
        return Ok(Method::Get);
    }
    if str_eq(token, "HEAD") {
        proof {
            reveal_strlit("HEAD");
        }
        return Ok(Method::Head);
    }
    if str_eq(token, "POST") {
        proof {
            reveal_strlit("POST");
        }
        return Ok(Method::Post);
    }
    if str_eq(token, "PUT") {
        proof {
            reveal_strlit("PUT");
        }
        return Ok(Method::Put);
    }
    if str_eq(token, "DELETE") {
        proof {
            reveal_strlit("DELETE");
        }
        return Ok(Method::Delete);
    }
    if str_eq(token, "CONNECT") {
        proof {
            reveal_strlit("CONNECT");
        }
        return Ok(Method::Connect);
    }
    if str_eq(token, "OPTIONS") {
        proof {
            reveal_strlit("OPTIONS");
        }
        return Ok(Method::Options);
    }
    if str_eq(token, "TRACE") {
        proof {
            reveal_strlit("TRACE");
        }
        return Ok(Method::Trace);
    }
    if str_eq(token, "PATCH") {
        proof {
            reveal_strlit("PATCH");
        }
        return Ok(Method::Patch);
    }
    let n = token.unicode_len();
    if n == 0 {
        return Err(VercelError::new("invalid method token, expected a Method"));
    }
    let mut i: usize = 0;
    while i < n
        invariant
            n == token@.len(),
            i <= n,
            forall|k: int| 0 <= k < i ==> is_method_char(token@[k]),
        decreases n - i,
    {
        if !method_char_ok(token.get_char(i)) {
            return Err(VercelError::new("invalid method token, expected a Method"));
        }
        i = i + 1;
    }
    Ok(Method::Extension(token.to_owned()))
}

/// Every supported verb is a legal method token, so the decoder succeeds on
/// it and, by the decoder's contract, returns exactly that verb.
pub proof fn lemma_supported_verb_decodes(s: Seq<char>)
    requires
        is_supported_verb(s),
    ensures
        is_method_token(s),
{
    reveal_strlit("GET");
    reveal_strlit("HEAD");
    reveal_strlit("POST");
    reveal_strlit("PUT");
    reveal_strlit("DELETE");
    reveal_strlit("CONNECT");
    reveal_strlit("OPTIONS");
    reveal_strlit("TRACE");
    reveal_strlit("PATCH");
}

/// Decoding is injective on the supported-verb set: equal decoded methods
/// can only have come from equal verb tokens.
pub proof fn lemma_verb_decode_injective(s1: Seq<char>, s2: Seq<char>, m1: Method, m2: Method)
    requires
        is_supported_verb(s1),
        is_supported_verb(s2),
        m1@ == s1,
        m2@ == s2,
        m1 == m2,
    ensures
        s1 == s2,
{
}

} // verus!

use vercel_lambda::error::VercelError;
use vercel_lambda::event::{decode_envelope, decode_event};
use vercel_lambda::headers::decode_headers;
use vercel_lambda::method::{decode_method, Method};
use vercel_lambda::request::{from_vercel_request, Body};

fn ok_event(
    host: &str,
    path: &str,
    method: &str,
    headers: Vec<(String, String)>,
    body: Option<&str>,
    encoding: Option<&str>,
) -> vercel_lambda::event::VercelRequest {
    decode_event(
        Some(host.to_owned()),
        Some(path.to_owned()),
        Some(method.to_owned()),
        Some(headers),
        body.map(|b| b.to_owned()),
        encoding.map(|e| e.to_owned()),
    )
    .unwrap()
}

#[test]
fn method_supported_verbs_decode_to_themselves() {
    let cases: Vec<(&str, Method)> = vec![
        ("GET", Method::Get),
        ("HEAD", Method::Head),
        ("POST", Method::Post),
        ("PUT", Method::Put),
        ("DELETE", Method::Delete),
        ("CONNECT", Method::Connect),
        ("OPTIONS", Method::Options),
        ("TRACE", Method::Trace),
        ("PATCH", Method::Patch),
    ];
    for (token, expected) in cases {
        assert_eq!(decode_method(token).unwrap(), expected);
    }
}

#[test]
fn method_decoding_is_injective_on_verbs() {
    let verbs = vec![
        "GET", "HEAD", "POST", "PUT", "DELETE", "CONNECT", "OPTIONS", "TRACE", "PATCH",
    ];
    let decoded: Vec<Method> = verbs.iter().map(|v| decode_method(v).unwrap()).collect();
    for i in 0..decoded.len() {
        for j in 0..decoded.len() {
            assert_eq!(decoded[i] == decoded[j], i == j);
        }
    }
}

#[test]
fn method_invalid_token_mentions_a_method() {
    let err = decode_method("FOOBAR!").err().unwrap();
    assert!(err.message().contains("a Method"));
}

#[test]
fn method_extension_token_is_kept() {
    assert_eq!(
        decode_method("PROPFIND").unwrap(),
        Method::Extension("PROPFIND".to_owned())
    );
}

#[test]
fn method_empty_token_is_rejected() {
    let err = decode_method("").err().unwrap();
    assert!(err.message().contains("a Method"));
}

#[test]
fn headers_duplicate_names_keep_both_values_in_order() {
    let pairs = vec![
        ("X-Test".to_owned(), "a".to_owned()),
        ("x-test".to_owned(), "b".to_owned()),
    ];
    let h = decode_headers(&pairs).unwrap();
    assert_eq!(h.get_all("X-Test"), vec!["a".to_owned(), "b".to_owned()]);
    assert_eq!(h.get_all("x-test"), vec!["a".to_owned(), "b".to_owned()]);
    assert_eq!(h.get_all("X-TEST"), vec!["a".to_owned(), "b".to_owned()]);
    assert_eq!(h.len(), 2);
}

#[test]
fn headers_value_with_control_byte_fails() {
    let pairs = vec![("X-Test".to_owned(), "a\u{1}b".to_owned())];
    let err = decode_headers(&pairs).err().unwrap();
    assert_eq!(err.message(), "invalid header value: a\u{1}b");
}

#[test]
fn headers_invalid_name_fails_citing_the_name() {
    let pairs = vec![("Bad Name".to_owned(), "v".to_owned())];
    let err = decode_headers(&pairs).err().unwrap();
    assert_eq!(err.message(), "invalid header name: Bad Name");
}

#[test]
fn headers_fail_fast_on_first_invalid_pair() {
    let pairs = vec![
        ("Fine".to_owned(), "ok".to_owned()),
        ("Also Bad".to_owned(), "v".to_owned()),
        ("".to_owned(), "later".to_owned()),
    ];
    let err = decode_headers(&pairs).err().unwrap();
    assert_eq!(err.message(), "invalid header name: Also Bad");
}

#[test]
fn headers_preserve_insertion_order_across_names() {
    let pairs = vec![
        ("b".to_owned(), "1".to_owned()),
        ("a".to_owned(), "2".to_owned()),
        ("B".to_owned(), "3".to_owned()),
    ];
    let h = decode_headers(&pairs).unwrap();
    assert_eq!(h.get_all("b"), vec!["1".to_owned(), "3".to_owned()]);
    assert_eq!(h.get_all("a"), vec!["2".to_owned()]);
    let entries = h.entries();
    assert_eq!(entries[0], ("b".to_owned(), "1".to_owned()));
    assert_eq!(entries[1], ("a".to_owned(), "2".to_owned()));
    assert_eq!(entries[2], ("B".to_owned(), "3".to_owned()));
}

#[test]
fn headers_tab_and_high_bytes_are_legal_values() {
    let pairs = vec![
        ("X-A".to_owned(), "with\ttab".to_owned()),
        ("X-B".to_owned(), "caf\u{e9}".to_owned()),
        ("X-C".to_owned(), String::new()),
    ];
    assert!(decode_headers(&pairs).is_ok());
}

#[test]
fn event_missing_required_fields_fail_in_order() {
    let err = decode_event(None, None, None, None, None, None).err().unwrap();
    assert_eq!(err.message(), "missing field host");
    let err = decode_event(Some("h".to_owned()), None, None, None, None, None).err().unwrap();
    assert_eq!(err.message(), "missing field path");
    let err = decode_event(Some("h".to_owned()), Some("/".to_owned()), None, None, None, None)
        .err()
        .unwrap();
    assert_eq!(err.message(), "missing field method");
    let err = decode_event(
        Some("h".to_owned()),
        Some("/".to_owned()),
        Some("GET".to_owned()),
        None,
        None,
        None,
    )
    .err()
    .unwrap();
    assert_eq!(err.message(), "missing field headers");
}

#[test]
fn event_invalid_method_rejects_whole_event() {
    let err = decode_event(
        Some("h".to_owned()),
        Some("/".to_owned()),
        Some("NO GOOD".to_owned()),
        Some(vec![("X-Later".to_owned(), "v".to_owned())]),
        None,
        None,
    )
    .err()
    .unwrap();
    assert!(err.message().contains("a Method"));
}

#[test]
fn event_invalid_header_rejects_whole_event() {
    let err = decode_event(
        Some("h".to_owned()),
        Some("/".to_owned()),
        Some("GET".to_owned()),
        Some(vec![("X-Test".to_owned(), "\u{1}".to_owned())]),
        None,
        None,
    )
    .err()
    .unwrap();
    assert_eq!(err.message(), "invalid header value: \u{1}");
}

#[test]
fn basic_event_converts_to_request() {
    let ev = ok_event("example.com", "/foo", "GET", vec![], None, None);
    let req = from_vercel_request(ev).unwrap();
    assert_eq!(req.uri, "https://example.com/foo");
    assert_eq!(req.method, Method::Get);
    assert_eq!(req.body, Body::Empty);
    assert_eq!(req.headers.len(), 0);
}

#[test]
fn base64_body_decodes_to_bytes() {
    let ev = ok_event("example.com", "/", "POST", vec![], Some("aGVsbG8="), Some("base64"));
    let req = from_vercel_request(ev).unwrap();
    assert_eq!(req.body, Body::Binary(b"hello".to_vec()));
}

#[test]
fn undecodable_base64_becomes_empty_body_not_an_error() {
    let ev = ok_event("example.com", "/", "POST", vec![], Some("not-base64!!"), Some("base64"));
    let req = from_vercel_request(ev).unwrap();
    assert_eq!(req.body, Body::Empty);
}

#[test]
fn body_without_base64_encoding_is_verbatim_text() {
    let ev = ok_event("example.com", "/", "POST", vec![], Some("aGVsbG8="), None);
    let req = from_vercel_request(ev).unwrap();
    assert_eq!(req.body, Body::Text("aGVsbG8=".to_owned()));
    let ev = ok_event("example.com", "/", "POST", vec![], Some("plain"), Some("identity"));
    let req = from_vercel_request(ev).unwrap();
    assert_eq!(req.body, Body::Text("plain".to_owned()));
}

#[test]
fn headers_are_carried_onto_the_request() {
    let ev = ok_event(
        "example.com",
        "/",
        "GET",
        vec![
            ("X-One".to_owned(), "1".to_owned()),
            ("x-one".to_owned(), "2".to_owned()),
        ],
        None,
        None,
    );
    let req = from_vercel_request(ev).unwrap();
    assert_eq!(req.headers.get_all("X-One"), vec!["1".to_owned(), "2".to_owned()]);
}

#[test]
fn malformed_uri_is_a_fatal_conversion_error() {
    let ev = ok_event("exa mple.com", "/foo", "GET", vec![], None, None);
    let err = from_vercel_request(ev).err().unwrap();
    assert_eq!(err.message(), "failed to build request");
}

#[test]
fn envelope_keeps_body_and_ignores_action() {
    let ev = decode_envelope(Some("x".to_owned()), Some("payload".to_owned())).unwrap();
    assert_eq!(ev.body, "payload");
}

#[test]
fn envelope_missing_body_fails() {
    let err = decode_envelope(Some("x".to_owned()), None).err().unwrap();
    assert_eq!(err.message(), "missing field body");
}

#[test]
fn envelope_missing_action_fails() {
    let err = decode_envelope(None, Some("payload".to_owned())).err().unwrap();
    assert_eq!(err.message(), "missing field Action");
}

#[test]
fn error_new_keeps_the_message() {
    let e = VercelError::new("boom");
    assert_eq!(e.message(), "boom");
}

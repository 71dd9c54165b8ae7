//! Adapter from a serverless platform's proxy-event representation of an
//! inbound HTTP call to an in-process request value: validating decoders for
//! the HTTP method and the header fields, the event schema, and the assembly
//! of the request (URI, method, headers, body) including the body's
//! base64-or-text encoding policy.

pub mod error;
pub mod event;
pub mod headers;
pub mod method;
pub mod request;
pub mod text;

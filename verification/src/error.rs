//! The uniform error value: a single unstructured message, created at the
//! point of failure and always terminal for the operation that produced it.

use vstd::prelude::*;

verus! {

/// Error carrying nothing but a message describing the failure.
#[derive(Debug)]
pub struct VercelError {
    msg: String,
}

impl View for VercelError {
    type V = Seq<char>;

    closed spec fn view(&self) -> Seq<char> {
        self.msg@
    }
}

impl VercelError {
    /// Builds an error whose message is exactly `message`.
    pub fn new(message: &str) -> (r: VercelError)
        ensures
            r@ == message@,
    {
        VercelError { msg: message.to_owned() }
    }

    /// The stored message, for callers that present the failure externally.
    pub fn message(&self) -> (r: &str)
        ensures
            r@ == self@,
    {
        self.msg.as_str()
    }
}

} // verus!

//! The error type surfaced to callers when a request or an upstream
//! decision cannot be transformed.

use vstd::prelude::*;

verus! {

/// An error carrying a human-readable message, returned whenever a
/// structurally invalid value (a malformed tracking URL, a missing
/// mandatory event, a bad image host, malformed personalization JSON)
/// is encountered.
#[derive(Clone, Debug, PartialEq, Eq)]
pub struct ProxyError {
    message: String,
}

impl View for ProxyError {
    type V = Seq<char>;

    closed spec fn view(&self) -> Seq<char> {
        self.message@
    }
}

impl ProxyError {
    /// Builds an error from a fixed message.
    pub fn new(message: &str) -> (r: Self)
        ensures
            r@ == message@,
    {
        ProxyError { message: message.to_owned() }
    }

    /// Builds an error by prefixing a message with the name of the
    /// component it came from.
    pub fn from_source(source: &str, err: &str) -> (r: Self)
        ensures
            r@ == source@ + ": "@ + err@,
    {
        let mut message = source.to_owned();
        message.append(": ");
        message.append(err);
        ProxyError { message }
    }

    /// The message carried by this error.
    pub fn message(&self) -> (r: &str)
        ensures
            r@ == self@,
    {
        self.message.as_str()
    }
}

} // verus!

//! The credential a caller presents, and the reason a caller is turned away.

use vstd::prelude::*;

verus! {

/// An API key taken from a request. It is never empty, and it is not checked
/// against any store: its presence is the only fact that matters.
#[derive(Debug, PartialEq, Eq)]
pub struct ApiKey {
    key: String,
}

impl View for ApiKey {
    type V = Seq<char>;

    closed spec fn view(&self) -> Seq<char> {
        self.key@
    }
}

impl ApiKey {
    /// Holds of every key: it has at least one character.
    #[verifier::type_invariant]
    spec fn non_empty(self) -> bool {
        self.key@.len() > 0
    }

    /// Wraps a key. An empty string is not a key.
    pub fn new(key: &str) -> (r: Self)
        requires
            key@.len() > 0,
        ensures
            r@ == key@,
    {
        Self { key: key.to_string() }
    }

    /// The key, as it was presented.
    #[allow(non_snake_case)]
    pub fn getKey(&self) -> (r: String)
        ensures
            r@ == self@,
            r@.len() > 0,
    {
        proof {
            use_type_invariant(self);
        }
        self.key.clone()
    }
}

/// Why a request was turned away, in words meant for the caller.
#[derive(Debug, PartialEq, Eq)]
pub struct ErrorMessage {
    error: String,
}

impl View for ErrorMessage {
    type V = Seq<char>;

    closed spec fn view(&self) -> Seq<char> {
        self.error@
    }
}

impl ErrorMessage {
    /// An error that reads `error_message`.
    pub fn new(error_message: &str) -> (r: Self)
        ensures
            r@ == error_message@,
    {
        Self { error: error_message.to_string() }
    }

    /// The text of the error.
    pub fn message(&self) -> (r: &str)
        ensures
            r@ == self@,
    {
        self.error.as_str()
    }
}

} // verus!

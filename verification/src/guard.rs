//! The authentication guard: a request that presents a key goes through, one
//! that does not is turned away.

use crate::credential::{ApiKey, ErrorMessage};
use crate::headers::{first_value, header_value, non_empty, spec_non_empty, values_of};
use rocket::http::HeaderMap;
use vstd::prelude::*;

verus! {

/// The header that carries the key.
pub const API_KEY_HEADER: &'static str = "X-Api-Key";

/// What a caller without a key is told.
pub const MISSING_KEY_MESSAGE: &'static str = "An API key is required to access this method";

/// The status of a response.
#[derive(Clone, Copy, Debug, PartialEq, Eq)]
pub enum Status {
    /// 200 OK
    Okay,
    /// 401 Unauthorized
    Unauthorized,
}

impl Status {
    /// The status code as a number.
    pub open spec fn spec_code(self) -> u16 {
        match self {
            Status::Okay => 200,
            Status::Unauthorized => 401,
        }
    }

    /// The status code as a number.
    #[verifier::when_used_as_spec(spec_code)]
    pub fn code(self) -> (r: u16)
        ensures
            r == self.spec_code(),
    {
        match self {
            Status::Okay => 200,
            Status::Unauthorized => 401,
        }
    }
}

/// What the guard decided: exactly one of the two.
#[derive(Debug, PartialEq, Eq)]
pub enum Outcome {
    /// The request goes on to the handler, which receives the key.
    Admitted(ApiKey),
    /// The request ends here, with this error and this status.
    Rejected(ErrorMessage, Status),
}

/// An [`Outcome`] as plain values.
pub enum Decision {
    Admitted(Seq<char>),
    Rejected(Seq<char>, Status),
}

impl View for Outcome {
    type V = Decision;

    open spec fn view(&self) -> Decision {
        match self {
            Outcome::Admitted(key) => Decision::Admitted(key@),
            Outcome::Rejected(error, status) => Decision::Rejected(error@, *status),
        }
    }
}

impl Outcome {
    /// The outcome as a `Result`, for a handler that takes the guard as one.
    /// The status of a rejection is dropped.
    pub fn into_result(self) -> (r: Result<ApiKey, ErrorMessage>)
        ensures
            match self {
                Outcome::Admitted(key) => r == Ok::<ApiKey, ErrorMessage>(key),
                Outcome::Rejected(error, _) => r == Err::<ApiKey, ErrorMessage>(error),
            },
    {
        match self {
            Outcome::Admitted(key) => Ok(key),
            Outcome::Rejected(error, _) => Err(error),
        }
    }
}

/// The first value a request holds under the key header, if it holds any.
pub open spec fn presented_key(headers: HeaderMap<'_>) -> Option<Seq<char>> {
    first_value(values_of(headers, API_KEY_HEADER@))
}

/// The rejection of a request that presented no key.
pub open spec fn missing_key() -> Decision {
    Decision::Rejected(MISSING_KEY_MESSAGE@, Status::Unauthorized)
}

/// The guard's decision on the first value of the key header: admitted with
/// that value as the key when it is there and not empty, rejected otherwise.
pub open spec fn decision(value: Option<Seq<char>>) -> Decision {
    match spec_non_empty(value) {
        Some(key) => Decision::Admitted(key),
        None => missing_key(),
    }
}

/// Decides on what was found under the key header. The value is not
/// inspected beyond being there and not empty.
pub fn decide(value: Option<&str>) -> (r: Outcome)
    ensures
        r@ == decision(value.deep_view()),
{
    match non_empty(value) {
        Some(key) => Outcome::Admitted(ApiKey::new(key)),
        None => Outcome::Rejected(ErrorMessage::new(MISSING_KEY_MESSAGE), Status::Unauthorized),
    }
}

/// Decides whether a request with these headers may reach a protected
/// handler. Only the key header is consulted, and only its first value.
pub fn authenticate(headers: &HeaderMap<'_>) -> (r: Outcome)
    ensures
        r@ == decision(presented_key(*headers)),
{
    decide(header_value(headers, API_KEY_HEADER))
}

/// A request without the key header is rejected as unauthorized, with the
/// fixed message.
pub proof fn absent_key_is_rejected(headers: HeaderMap<'_>)
    requires
        values_of(headers, API_KEY_HEADER@).len() == 0,
    ensures
        decision(presented_key(headers)) == Decision::Rejected(
            "An API key is required to access this method"@,
            Status::Unauthorized,
        ),
        Status::Unauthorized.code() == 401,
{
}

/// A request whose key header starts with a non-empty value is admitted with
/// exactly that value as its key, whatever the value holds and whatever
/// values follow it.
pub proof fn any_key_is_admitted(headers: HeaderMap<'_>, key: Seq<char>)
    requires
        values_of(headers, API_KEY_HEADER@).len() > 0,
        values_of(headers, API_KEY_HEADER@)[0] == key,
        key.len() > 0,
    ensures
        decision(presented_key(headers)) == Decision::Admitted(key),
{
}

/// A request whose key header starts with an empty value is treated as one
/// without the header.
pub proof fn empty_key_is_rejected(headers: HeaderMap<'_>)
    requires
        values_of(headers, API_KEY_HEADER@).len() > 0,
        values_of(headers, API_KEY_HEADER@)[0].len() == 0,
    ensures
        decision(presented_key(headers)) == decision(None),
        decision(None) == missing_key(),
{
}

/// No key is ever made of a missing or an empty value: a request is admitted
/// only when the first value of its key header is not empty, and then that
/// value is the key.
pub proof fn admitted_only_with_a_key(value: Option<Seq<char>>)
    ensures
        decision(value) is Admitted <==> value is Some && value->0.len() > 0,
        decision(value) matches Decision::Admitted(key) ==> value == Some(key) && key.len() > 0,
        !(decision(value) is Admitted) ==> decision(value) == missing_key(),
{
}

} // verus!

//! The two routes of the service and what each answers.

use crate::credential::{ApiKey, ErrorMessage};
use crate::guard::{
    authenticate, decision, presented_key, Decision, Status, API_KEY_HEADER, MISSING_KEY_MESSAGE,
};
use crate::headers::{spec_non_empty, values_of};
use rocket::http::HeaderMap;
use vstd::prelude::*;

verus! {

/// What the index route says.
pub const GREETING: &'static str = "Hello, world!";

/// The member that carries the answer of the sensitive route.
pub const RESPONSE_MEMBER: &'static str = "response";

/// What the sensitive route says to a caller with a key.
pub const RESPONSE_TEXT: &'static str = "Cool, cool cool";

/// The member that carries the reason of a rejection.
pub const ERROR_MEMBER: &'static str = "error";

/// A route of the service. Both answer `GET`.
#[derive(Clone, Copy, Debug, PartialEq, Eq)]
pub enum Route {
    /// `/`, open to everyone.
    Index,
    /// `/sensitive`, behind the guard.
    Sensitive,
}

impl Route {
    /// The path the route is mounted at.
    pub fn path(self) -> (r: &'static str)
        ensures
            r@ == (match self {
                Route::Index => "/"@,
                Route::Sensitive => "/sensitive"@,
            }),
    {
        match self {
            Route::Index => "/",
            Route::Sensitive => "/sensitive",
        }
    }

    /// The method the route answers.
    pub fn method(self) -> (r: &'static str)
        ensures
            r@ == "GET"@,
    {
        "GET"
    }
}

/// Every route of the service, for whoever registers them with a server.
pub fn routes() -> (r: Vec<Route>)
    ensures
        r@ == seq![Route::Index, Route::Sensitive],
{
    let mut table: Vec<Route> = Vec::new();
    table.push(Route::Index);
    table.push(Route::Sensitive);
    table
}

/// The body of a response.
#[derive(Debug, PartialEq, Eq)]
pub enum Body {
    /// Plain text.
    Text(String),
    /// A JSON object with a single member, whose value is a string.
    Json { name: String, value: String },
}

/// A [`Body`] as plain values.
pub enum Content {
    Text(Seq<char>),
    Json { name: Seq<char>, value: Seq<char> },
}

impl View for Body {
    type V = Content;

    open spec fn view(&self) -> Content {
        match self {
            Body::Text(text) => Content::Text(text@),
            Body::Json { name, value } => Content::Json { name: name@, value: value@ },
        }
    }
}

/// What the service sends back.
#[derive(Debug, PartialEq, Eq)]
pub struct Response {
    pub status: Status,
    pub body: Body,
}

/// A [`Response`] as plain values.
pub struct Reply {
    pub status: Status,
    pub content: Content,
}

impl View for Response {
    type V = Reply;

    open spec fn view(&self) -> Reply {
        Reply { status: self.status, content: self.body@ }
    }
}

/// What the index route sends.
pub open spec fn greeting() -> Reply {
    Reply { status: Status::Okay, content: Content::Text(GREETING@) }
}

/// What the sensitive route sends to a caller who presented a key.
pub open spec fn granted() -> Reply {
    Reply {
        status: Status::Okay,
        content: Content::Json { name: RESPONSE_MEMBER@, value: RESPONSE_TEXT@ },
    }
}

/// What the sensitive route sends to a caller who was turned away with
/// `error`.
pub open spec fn refused(error: Seq<char>) -> Reply {
    Reply {
        status: Status::Unauthorized,
        content: Content::Json { name: ERROR_MEMBER@, value: error },
    }
}

/// What the service answers on a route to a request whose key header has
/// `key` as its first value.
pub open spec fn answer(route: Route, key: Option<Seq<char>>) -> Reply {
    match route {
        Route::Index => greeting(),
        Route::Sensitive => if spec_non_empty(key) is Some {
            granted()
        } else {
            refused(MISSING_KEY_MESSAGE@)
        },
    }
}

/// The handler of the index route.
pub fn index() -> (r: &'static str)
    ensures
        r@ == GREETING@,
{
    GREETING
}

/// The handler of the sensitive route. It is handed what the guard decided:
/// with a key it answers `200` and the fixed response, whatever the key is;
/// with an error it answers `401` and the error.
pub fn sensitive(guard: Result<ApiKey, ErrorMessage>) -> (r: (Status, Body))
    ensures
        (Reply { status: r.0, content: r.1@ }) == (match guard {
            Ok(_) => granted(),
            Err(error) => refused(error@),
        }),
{
    match guard {
        Ok(_) => (
            Status::Okay,
            Body::Json { name: RESPONSE_MEMBER.to_string(), value: RESPONSE_TEXT.to_string() },
        ),
        Err(error) => (
            Status::Unauthorized,
            Body::Json { name: ERROR_MEMBER.to_string(), value: error.message().to_string() },
        ),
    }
}

/// Answers a request to `route` that came with `headers`. The index route
/// never consults them; the sensitive route runs the guard first and hands
/// its decision to the handler.
pub fn respond(route: Route, headers: &HeaderMap<'_>) -> (r: Response)
    ensures
        r@ == answer(route, presented_key(*headers)),
{
    match route {
        Route::Index => Response { status: Status::Okay, body: Body::Text(index().to_string()) },
        Route::Sensitive => {
            let (status, body) = sensitive(authenticate(headers).into_result());
            Response { status, body }
        },
    }
}

/// The sensitive route answers as the guard decided. An admitted request gets
/// the handler's response; a rejected one gets the guard's error under the
/// guard's status, and nothing of the handler's response.
pub proof fn sensitive_follows_the_guard(key: Option<Seq<char>>)
    ensures
        match decision(key) {
            Decision::Admitted(_) => answer(Route::Sensitive, key) == granted(),
            Decision::Rejected(error, status) => {
                &&& answer(Route::Sensitive, key) == refused(error)
                &&& answer(Route::Sensitive, key).status == status
                &&& answer(Route::Sensitive, key) != granted()
            },
        },
{
}

/// A request to the sensitive route without the key header is answered with
/// `401` and a JSON object whose only member, `error`, says that a key is
/// required.
pub proof fn sensitive_without_key_is_unauthorized(headers: HeaderMap<'_>)
    requires
        values_of(headers, API_KEY_HEADER@).len() == 0,
    ensures
        answer(Route::Sensitive, presented_key(headers)) == (Reply {
            status: Status::Unauthorized,
            content: Content::Json {
                name: "error"@,
                value: "An API key is required to access this method"@,
            },
        }),
        Status::Unauthorized.code() == 401,
{
}

/// A request to the sensitive route whose key header starts with a non-empty
/// value is answered with `200` and a JSON object whose only member,
/// `response`, holds the fixed text. What the key is makes no difference.
pub proof fn sensitive_with_key_is_granted(headers: HeaderMap<'_>)
    requires
        values_of(headers, API_KEY_HEADER@).len() > 0,
        values_of(headers, API_KEY_HEADER@)[0].len() > 0,
    ensures
        answer(Route::Sensitive, presented_key(headers)) == (Reply {
            status: Status::Okay,
            content: Content::Json { name: "response"@, value: "Cool, cool cool"@ },
        }),
        Status::Okay.code() == 200,
{
}

/// A request to the sensitive route whose key header starts with an empty
/// value is answered as one without the header: with `401`.
pub proof fn sensitive_with_empty_key_is_unauthorized(headers: HeaderMap<'_>)
    requires
        values_of(headers, API_KEY_HEADER@).len() > 0,
        values_of(headers, API_KEY_HEADER@)[0].len() == 0,
    ensures
        answer(Route::Sensitive, presented_key(headers)) == answer(
            Route::Sensitive,
            None,
        ),
        answer(Route::Sensitive, None).status.code() == 401,
{
}

/// The index route never asks for a key: with or without the key header, its
/// answer is `200` and the greeting as plain text.
pub proof fn index_needs_no_key(headers: HeaderMap<'_>)
    ensures
        answer(Route::Index, presented_key(headers)) == (Reply {
            status: Status::Okay,
            content: Content::Text("Hello, world!"@),
        }),
        Status::Okay.code() == 200,
{
}

/// Answering keeps no state. [`respond`] only reads the request, and what it
/// returns is a function of it: any two responses to the same request have
/// the same status and the same body.
pub proof fn same_request_same_response(
    route: Route,
    headers: HeaderMap<'_>,
    once: Response,
    again: Response,
)
    requires
        once@ == answer(route, presented_key(headers)),
        again@ == answer(route, presented_key(headers)),
    ensures
        once.status == again.status,
        once.body@ == again.body@,
{
}

} // verus!

//! A presence-only API-key guard for a small HTTP service.
//!
//! The service has an open index route and a sensitive route. A request to
//! the sensitive route is admitted when the first value of its `X-Api-Key`
//! header is not empty, and turned away with `401 Unauthorized` otherwise.
//! The key is not compared with anything: that one was presented is all that
//! counts.
//!
//! Every decision is a verified function with a contract over the values the
//! request holds under the key header. The HTTP layer is Rocket's: the guard
//! reads a `rocket::http::HeaderMap` through one assumed specification, and
//! serving itself stays outside this crate.

pub mod credential;
pub mod guard;
pub mod headers;
pub mod service;

pub use credential::{ApiKey, ErrorMessage};
pub use guard::{authenticate, Outcome, Status};
pub use service::{index, respond, routes, sensitive, Body, Response, Route};

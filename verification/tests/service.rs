use api_key_guard::service::{ERROR_MEMBER, GREETING, RESPONSE_MEMBER, RESPONSE_TEXT};
use api_key_guard::{index, respond, routes, sensitive};
use api_key_guard::{ApiKey, Body, ErrorMessage, Response, Route, Status};
use rocket::http::HeaderMap;
use rocket::serde::json::serde_json;
use rocket::serde::json::Value;

/// The body as it goes over the wire.
fn wire(body: &Body) -> String {
    match body {
        Body::Text(text) => text.clone(),
        Body::Json { name, value } => {
            let mut object = serde_json::Map::new();
            object.insert(name.clone(), Value::String(value.clone()));
            Value::Object(object).to_string()
        }
    }
}

fn unauthorized() -> Response {
    Response {
        status: Status::Unauthorized,
        body: Body::Json {
            name: "error".to_string(),
            value: "An API key is required to access this method".to_string(),
        },
    }
}

fn granted() -> Response {
    Response {
        status: Status::Okay,
        body: Body::Json { name: "response".to_string(), value: "Cool, cool cool".to_string() },
    }
}

fn greeting() -> Response {
    Response { status: Status::Okay, body: Body::Text("Hello, world!".to_string()) }
}

#[test]
fn texts_are_the_documented_ones() {
    assert_eq!(GREETING, "Hello, world!");
    assert_eq!(RESPONSE_MEMBER, "response");
    assert_eq!(RESPONSE_TEXT, "Cool, cool cool");
    assert_eq!(ERROR_MEMBER, "error");
}

#[test]
fn route_table() {
    assert_eq!(routes(), vec![Route::Index, Route::Sensitive]);
    assert_eq!(Route::Index.path(), "/");
    assert_eq!(Route::Sensitive.path(), "/sensitive");
    assert_eq!(Route::Index.method(), "GET");
    assert_eq!(Route::Sensitive.method(), "GET");
}

#[test]
fn index_says_hello() {
    assert_eq!(index(), "Hello, world!");
}

#[test]
fn sensitive_with_a_key() {
    let (status, body) = sensitive(Ok(ApiKey::new("abc123")));
    assert_eq!(status, Status::Okay);
    assert_eq!(body, granted().body);
    let (_, other) = sensitive(Ok(ApiKey::new("another key")));
    assert_eq!(other, body);
}

#[test]
fn sensitive_with_an_error() {
    let (status, body) = sensitive(Err(ErrorMessage::new("no way")));
    assert_eq!(status, Status::Unauthorized);
    assert_eq!(body, Body::Json { name: "error".to_string(), value: "no way".to_string() });
}

#[test]
fn sensitive_body_is_an_object_and_not_a_string() {
    let (_, body) = sensitive(Ok(ApiKey::new("abc123")));
    assert_eq!(wire(&body), "{\"response\":\"Cool, cool cool\"}");
}

#[test]
fn scenario_index_without_headers() {
    let response = respond(Route::Index, &HeaderMap::new());
    assert_eq!(response.status.code(), 200);
    assert_eq!(wire(&response.body), "Hello, world!");
    assert_eq!(response, greeting());
}

#[test]
fn scenario_sensitive_without_headers() {
    let response = respond(Route::Sensitive, &HeaderMap::new());
    assert_eq!(response.status.code(), 401);
    assert_eq!(
        wire(&response.body),
        "{\"error\":\"An API key is required to access this method\"}"
    );
    assert_eq!(response, unauthorized());
}

#[test]
fn scenario_sensitive_with_a_key() {
    let mut headers = HeaderMap::new();
    headers.add_raw("X-Api-Key", "abc123");
    let response = respond(Route::Sensitive, &headers);
    assert_eq!(response.status.code(), 200);
    match &response.body {
        Body::Json { name, value } => {
            assert_eq!(name, "response");
            assert_eq!(value, "Cool, cool cool");
        }
        Body::Text(text) => panic!("plain text: {}", text),
    }
    assert_eq!(response, granted());
}

#[test]
fn scenario_sensitive_with_the_header_twice() {
    let mut headers = HeaderMap::new();
    headers.add_raw("X-Api-Key", "first");
    headers.add_raw("X-Api-Key", "second");
    let response = respond(Route::Sensitive, &headers);
    assert_eq!(response.status.code(), 200);
    assert_eq!(response, granted());
}

#[test]
fn sensitive_without_the_key_header_is_unauthorized() {
    let mut headers = HeaderMap::new();
    headers.add_raw("Accept", "*/*");
    headers.add_raw("Cookie", "X-Api-Key=abc123");
    headers.add_raw("Api-Key", "abc123");
    assert_eq!(respond(Route::Sensitive, &headers), unauthorized());
}

#[test]
fn sensitive_with_any_key_is_granted() {
    for text in ["abc123", "x", " ", "ключ", "{\"error\":1}"] {
        let mut headers = HeaderMap::new();
        headers.add_raw("X-Api-Key", text);
        assert_eq!(respond(Route::Sensitive, &headers), granted());
    }
}

#[test]
fn sensitive_with_an_empty_key_is_unauthorized() {
    let mut headers = HeaderMap::new();
    headers.add_raw("X-Api-Key", "");
    let response = respond(Route::Sensitive, &headers);
    assert_eq!(response.status.code(), 401);
    assert_eq!(response, respond(Route::Sensitive, &HeaderMap::new()));
}

#[test]
fn sensitive_with_an_empty_key_first_is_unauthorized() {
    let mut headers = HeaderMap::new();
    headers.add_raw("X-Api-Key", "");
    headers.add_raw("X-Api-Key", "second");
    assert_eq!(respond(Route::Sensitive, &headers), unauthorized());
}

#[test]
fn sensitive_with_a_key_header_without_values_is_unauthorized() {
    let mut headers = HeaderMap::new();
    headers.replace_all("X-Api-Key", vec![]);
    assert_eq!(respond(Route::Sensitive, &headers), unauthorized());
}

#[test]
fn index_answers_with_or_without_a_key() {
    let mut with_key = HeaderMap::new();
    with_key.add_raw("X-Api-Key", "abc123");
    let mut with_empty_key = HeaderMap::new();
    with_empty_key.add_raw("X-Api-Key", "");
    assert_eq!(respond(Route::Index, &HeaderMap::new()), greeting());
    assert_eq!(respond(Route::Index, &with_key), greeting());
    assert_eq!(respond(Route::Index, &with_empty_key), greeting());
}

#[test]
fn same_request_twice_gets_the_same_response() {
    let mut headers = HeaderMap::new();
    headers.add_raw("X-Api-Key", "abc123");
    let before = headers.clone();
    for route in routes() {
        assert_eq!(respond(route, &headers), respond(route, &headers));
        assert_eq!(respond(route, &HeaderMap::new()), respond(route, &HeaderMap::new()));
    }
    assert_eq!(headers, before);
}

#[test]
fn sensitive_takes_the_key_header_in_any_case() {
    for name in ["x-api-key", "X-API-KEY", "x-Api-kEY"] {
        let mut headers = HeaderMap::new();
        headers.add_raw(name, "abc123");
        assert_eq!(respond(Route::Sensitive, &headers), granted());
    }
}

use api_key_guard::{ApiKey, ErrorMessage};

#[test]
fn api_key_keeps_what_it_was_given() {
    let key = ApiKey::new("abc123");
    assert_eq!(key.getKey(), "abc123");
}

#[test]
fn api_key_is_not_validated_for_format() {
    for text in ["a", " ", "not a key at all", "{\"json\":true}", "ключ", "k\u{e9}y-\u{1f511}"] {
        assert_eq!(ApiKey::new(text).getKey(), text);
    }
}

#[test]
fn api_key_get_key_can_be_called_again() {
    let key = ApiKey::new("abc123");
    assert_eq!(key.getKey(), key.getKey());
}

#[test]
fn api_keys_compare_by_their_text() {
    assert_eq!(ApiKey::new("abc123"), ApiKey::new("abc123"));
    assert_ne!(ApiKey::new("abc123"), ApiKey::new("abc124"));
}

#[test]
fn error_message_keeps_its_text() {
    let error = ErrorMessage::new("An API key is required to access this method");
    assert_eq!(error.message(), "An API key is required to access this method");
}

#[test]
fn error_message_may_be_empty() {
    assert_eq!(ErrorMessage::new("").message(), "");
}

#[test]
fn error_messages_compare_by_their_text() {
    assert_eq!(ErrorMessage::new("no"), ErrorMessage::new("no"));
    assert_ne!(ErrorMessage::new("no"), ErrorMessage::new("yes"));
}

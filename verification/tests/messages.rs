use token_metadata::client::{FetchError, BAD_CACHE_ENTRY, BAD_RESPONSE, NOT_FOUND};
use token_metadata::token::{DecodeError, Field};

#[test]
fn decode_errors_are_described() {
    assert_eq!(DecodeError::Syntax.message(), "not valid JSON");
    assert_eq!(DecodeError::NotARecord.message(), "neither an object nor an array");
    assert_eq!(DecodeError::Missing(Field::Name).message(), "missing field `name`");
    assert_eq!(DecodeError::Missing(Field::Symbol).message(), "missing field `symbol`");
    assert_eq!(DecodeError::Missing(Field::Decimals).message(), "missing field `decimals`");
    assert_eq!(DecodeError::NotText(Field::Name).message(), "field `name` is not a string");
    assert_eq!(DecodeError::NotText(Field::Symbol).message(), "field `symbol` is not a string");
    assert_eq!(
        DecodeError::NotText(Field::Decimals).message(),
        "field `decimals` is not a string"
    );
    assert_eq!(DecodeError::Excess.message(), "more than three items");
}

#[test]
fn token_that_is_not_found_has_its_own_message() {
    assert_eq!(FetchError::NotFound.message(), "Failed to get token metadata");
    assert_eq!(NOT_FOUND, "Failed to get token metadata");
}

#[test]
fn transport_failure_is_described_by_the_transport() {
    let error = FetchError::Transport(String::from("Connection refused (os error 111)"));
    assert_eq!(error.message(), "Connection refused (os error 111)");
    assert_eq!(FetchError::Transport(String::new()).message(), "");
}

#[test]
fn unreadable_response_and_entry_are_told_apart() {
    assert_eq!(
        FetchError::BadResponse(DecodeError::Syntax).message(),
        "Failed to read the provider's response: not valid JSON"
    );
    assert_eq!(
        FetchError::BadCacheEntry(DecodeError::Syntax).message(),
        "Failed to read the cached entry: not valid JSON"
    );
    assert_eq!(
        FetchError::BadResponse(DecodeError::Missing(Field::Symbol)).message(),
        "Failed to read the provider's response: missing field `symbol`"
    );
    assert_eq!(
        FetchError::BadCacheEntry(DecodeError::NotText(Field::Decimals)).message(),
        "Failed to read the cached entry: field `decimals` is not a string"
    );
    assert_eq!(BAD_RESPONSE, "Failed to read the provider's response: ");
    assert_eq!(BAD_CACHE_ENTRY, "Failed to read the cached entry: ");
}

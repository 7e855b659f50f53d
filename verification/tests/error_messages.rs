//! The rendered text of every failure kind.

use rubl::api::error::ApiError;

#[test]
fn http_error_includes_status_and_body() {
    let error = ApiError::HttpError { status: 400, body: "Invalid region code".into() };
    let display = error.message();
    assert!(display.contains("400"));
    assert!(display.contains("Invalid region code"));
}

#[test]
fn http_error_with_404() {
    let error = ApiError::HttpError { status: 404, body: "Region not found".into() };
    let display = error.message();
    assert!(display.contains("404"));
    assert!(display.contains("Region not found"));
}

#[test]
fn network_error_includes_message() {
    let error = ApiError::Network {
        message: "error sending request for url (http://invalid-domain-that-does-not-exist-12345.com)".into(),
    };
    let display = error.message();
    assert!(display.contains("Network error"));
}

#[test]
fn serialization_error_includes_message() {
    // The shape of message serde_json reports for the text "{invalid}".
    let json_error = serde_json::from_str::<serde_json::Value>("{invalid}").unwrap_err();
    let error = ApiError::Serialization { message: json_error.to_string() };
    let display = error.message();
    assert!(display.contains("Failed to serialize request parameters"));
}

#[test]
fn http_error_with_500() {
    let error = ApiError::HttpError { status: 500, body: "Server error occurred".into() };
    let display = error.message();
    assert!(display.contains("500"));
    assert!(display.contains("Server error occurred"));
}

#[test]
fn deserialization_error_includes_message() {
    let error = ApiError::Deserialization { message: "response body is not valid JSON".into() };
    let display = error.message();
    assert!(display.contains("Failed to deserialize API response"));
    assert!(display.contains("response body is not valid JSON"));
}

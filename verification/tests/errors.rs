use truepkmn::errors::errors::{CustomError, ErrorResponse, PokeError};

#[test]
fn test_error_response_mapping() {
    let (status, body) = PokeError::TimeoutError.error_response();
    assert_eq!(status, 400);
    assert_eq!(body.error_code, "ERROR01");
    assert_eq!(body.error_message, "Connection timeout: could not connect to the server");

    let (status, body) = PokeError::NotFound.error_response();
    assert_eq!(status, 404);
    assert_eq!(body.error_code, "ERROR02");
    assert_eq!(body.error_message, "Pokemon not found!");

    let (status, body) = PokeError::ServiceUnavailable.error_response();
    assert_eq!(status, 503);
    assert_eq!(body.error_code, "ERROR03");
    assert_eq!(body.error_message, "Service unavailable");
}

#[test]
fn test_custom_error_conversion() {
    let converted = CustomError::from(PokeError::ServiceUnavailable);
    assert_eq!(converted.error_code, "ERROR01");
    assert_eq!(converted.error_message, "Service unavailable");

    let converted = CustomError::from(PokeError::NotFound);
    assert_eq!(converted.error_code, "ERROR02");
    assert_eq!(converted.error_message, "Pokemon not found!");

    let converted = CustomError::from(PokeError::TimeoutError);
    assert_eq!(converted.error_code, "ERROR03");
    assert_eq!(converted.error_message, "Connection timeout: could not connect to the server");
}

#[test]
fn test_custom_error_new() {
    let error = CustomError::new("ERROR99", "anything");
    assert_eq!(error.error_code, "ERROR99");
    assert_eq!(error.error_message, "anything");
}

#[test]
fn test_error_response_from() {
    let single = ErrorResponse::from(&"lost".to_string());
    assert_eq!(single.errors, vec!["lost".to_string()]);

    let many = ErrorResponse::from(vec!["one".to_string(), "two".to_string()]);
    assert_eq!(many.errors, vec!["one".to_string(), "two".to_string()]);
}

#[test]
fn test_error_labels() {
    assert_eq!(PokeError::ServiceUnavailable.label(), "ServiceUnavailable");
    assert_eq!(PokeError::NotFound.label(), "NotFound");
    assert_eq!(PokeError::TimeoutError.label(), "TimeoutError");
}

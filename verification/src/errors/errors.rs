use vstd::prelude::*;

verus! {

/// The stable error taxonomy of the service.
///
/// `NotFound` is terminal and client-facing (the species is absent upstream),
/// `ServiceUnavailable` is terminal and client-facing (the species service is
/// unreachable, answered with an unexpected status, or sent an unusable body),
/// and `TimeoutError` is kept for the documented error-code mapping.
/// Translation failures are never represented here: they are absorbed by the
/// aggregation logic and fall back to the untranslated description.
#[derive(Clone, Copy, Debug, PartialEq, Eq, Structural)]
pub enum PokeError {
    ServiceUnavailable,
    NotFound,
    TimeoutError,
}

/// A list of error messages, the shape of a multi-error response body.
pub struct ErrorResponse {
    pub errors: Vec<String>,
}

/// The client-facing error body: a stable code together with a message.
pub struct CustomError {
    pub error_code: String,
    pub error_message: String,
}

/// The HTTP status that the service answers with for each error.
pub open spec fn error_status(error: PokeError) -> u16 {
    match error {
        PokeError::TimeoutError => 400,
        PokeError::NotFound => 404,
        PokeError::ServiceUnavailable => 503,
    }
}

/// The error code carried in the response body for each error.
pub open spec fn error_code(error: PokeError) -> Seq<char> {
    match error {
        PokeError::TimeoutError => "ERROR01"@,
        PokeError::NotFound => "ERROR02"@,
        PokeError::ServiceUnavailable => "ERROR03"@,
    }
}

/// The message carried in the response body for each error.
pub open spec fn error_message(error: PokeError) -> Seq<char> {
    match error {
        PokeError::TimeoutError => "Connection timeout: could not connect to the server"@,
        PokeError::NotFound => "Pokemon not found!"@,
        PokeError::ServiceUnavailable => "Service unavailable"@,
    }
}

/// The error code used when converting a `PokeError` into a `CustomError`.
/// This assignment differs from the one of `error_response` and is kept as the
/// documented conversion.
pub open spec fn converted_code(error: PokeError) -> Seq<char> {
    match error {
        PokeError::ServiceUnavailable => "ERROR01"@,
        PokeError::NotFound => "ERROR02"@,
        PokeError::TimeoutError => "ERROR03"@,
    }
}

/// The message used when converting a `PokeError` into a `CustomError`.
pub open spec fn converted_message(error: PokeError) -> Seq<char> {
    match error {
        PokeError::ServiceUnavailable => "Service unavailable"@,
        PokeError::NotFound => "Pokemon not found!"@,
        PokeError::TimeoutError => "Connection timeout: could not connect to the server"@,
    }
}

/// The label of each error, as a reader of a log would see it.
pub open spec fn error_label(error: PokeError) -> Seq<char> {
    match error {
        PokeError::ServiceUnavailable => "ServiceUnavailable"@,
        PokeError::NotFound => "NotFound"@,
        PokeError::TimeoutError => "TimeoutError"@,
    }
}

impl PokeError {
    /// The variant's name, for display and logging.
    pub fn label(&self) -> (r: String)
        ensures
            r@ == error_label(*self),
    {
        match self {
            PokeError::ServiceUnavailable => "ServiceUnavailable".to_owned(),
            PokeError::NotFound => "NotFound".to_owned(),
            PokeError::TimeoutError => "TimeoutError".to_owned(),
        }
    }

    /// The HTTP status and body of the error response that this error turns
    /// into at the request boundary.
    pub fn error_response(&self) -> (r: (u16, CustomError))
        ensures
            r.0 == error_status(*self),
            r.1.error_code@ == error_code(*self),
            r.1.error_message@ == error_message(*self),
    {
        match self {
            PokeError::TimeoutError => (
                400,
                CustomError::new("ERROR01", "Connection timeout: could not connect to the server"),
            ),
            PokeError::NotFound => (404, CustomError::new("ERROR02", "Pokemon not found!")),
            PokeError::ServiceUnavailable => (
                503,
                CustomError::new("ERROR03", "Service unavailable"),
            ),
        }
    }
}

impl CustomError {
    pub fn new(error_code: &str, error_message: &str) -> (r: CustomError)
        ensures
            r.error_code@ == error_code@,
            r.error_message@ == error_message@,
    {
        CustomError { error_code: error_code.to_owned(), error_message: error_message.to_owned() }
    }
}

impl From<PokeError> for CustomError {
    fn from(value: PokeError) -> (r: CustomError)
        ensures
            r.error_code@ == converted_code(value),
            r.error_message@ == converted_message(value),
    {
        match value {
            PokeError::ServiceUnavailable => CustomError::new("ERROR01", "Service unavailable"),
            PokeError::NotFound => CustomError::new("ERROR02", "Pokemon not found!"),
            PokeError::TimeoutError => CustomError::new(
                "ERROR03",
                "Connection timeout: could not connect to the server",
            ),
        }
    }
}

impl vstd::std_specs::convert::FromSpecImpl<PokeError> for CustomError {
    open spec fn obeys_from_spec() -> bool {
        false
    }

    open spec fn from_spec(v: PokeError) -> CustomError {
        arbitrary()
    }
}

impl From<&String> for ErrorResponse {
    fn from(error: &String) -> (r: ErrorResponse)
        ensures
            r.errors@.len() == 1,
            r.errors@[0]@ == error@,
    {
        ErrorResponse { errors: vec![error.clone()] }
    }
}

impl vstd::std_specs::convert::FromSpecImpl<&String> for ErrorResponse {
    open spec fn obeys_from_spec() -> bool {
        false
    }

    open spec fn from_spec(v: &String) -> ErrorResponse {
        arbitrary()
    }
}

/// Wraps a vector of messages as an `ErrorResponse`.
impl From<Vec<String>> for ErrorResponse {
    fn from(errors: Vec<String>) -> (r: ErrorResponse) {
        ErrorResponse { errors }
    }
}

impl vstd::std_specs::convert::FromSpecImpl<Vec<String>> for ErrorResponse {
    open spec fn obeys_from_spec() -> bool {
        true
    }

    open spec fn from_spec(v: Vec<String>) -> ErrorResponse {
        (ErrorResponse { errors: v })
    }
}

} // verus!

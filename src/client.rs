use vstd::prelude::*;
use vstd::string::StringExecFns;

verus! {

/// Address of the chat completion service.
pub const CHAT_COMPLETIONS_URL: &'static str = "https://api.mistral.ai/v1/chat/completions";

#[verifier::external_type_specification]
#[verifier::external_body]
pub struct ExReqwestError(reqwest::Error);

#[verifier::external_type_specification]
#[verifier::external_body]
pub struct ExJsonValue(serde_json::Value);

#[verifier::external_type_specification]
#[verifier::external_body]
pub struct ExJsonError(serde_json::Error);

/// How a call to the service failed. The variants are listed in the order in
/// which the failures are detected.
#[derive(Debug)]
pub enum ApiError {
    /// The request could not be built or sent, or the body not read.
    Client(reqwest::Error),
    /// The body was not JSON: the HTTP status and the raw body.
    Server(u16, Vec<u8>),
    /// The service answered with an error status and this JSON payload.
    Mistral(serde_json::Value),
    /// A success status whose JSON does not have the expected shape.
    Json(serde_json::Error),
}

pub type QueryResult<T> = Result<T, ApiError>;

/// Whether these bytes are one JSON document (surrounding whitespace allowed).
pub uninterp spec fn json_parses(b: Seq<u8>) -> bool;

/// Relies on serde_json::from_slice::<serde_json::Value>: it succeeds exactly
/// on the JSON documents, and an empty input is not one (end of input while
/// parsing a value).
#[verifier::external_body]
fn parse_json(body: &[u8]) -> (r: Result<serde_json::Value, serde_json::Error>)
    ensures
        r.is_ok() == json_parses(body@),
        body@.len() == 0 ==> r.is_err(),
{
    serde_json::from_slice::<serde_json::Value>(body)
}

/// An HTTP status code that reports success: 200 to 299.
pub open spec fn success_status(status: u16) -> bool {
    200 <= status && status <= 299
}

/// Whether an HTTP status code reports success.
pub fn is_success(status: u16) -> (r: bool)
    ensures
        r == success_status(status),
{
    200 <= status && status <= 299
}

/// Classifies a response whose body has been parsed as JSON: a body that is
/// not JSON is a server error whatever the status; JSON under an error status
/// is the service's error payload; JSON under a success status is handed on
/// for decoding.
pub fn classify_parsed(
    status: u16,
    body: Vec<u8>,
    parsed: Result<serde_json::Value, serde_json::Error>,
) -> (r: QueryResult<serde_json::Value>)
    ensures
        match parsed {
            Err(_) => r == Err::<serde_json::Value, ApiError>(ApiError::Server(status, body)),
            Ok(v) => if success_status(status) {
                r == Ok::<serde_json::Value, ApiError>(v)
            } else {
                r == Err::<serde_json::Value, ApiError>(ApiError::Mistral(v))
            },
        },
{
    match parsed {
        Err(_) => Err(ApiError::Server(status, body)),
        Ok(v) => {
            if !is_success(status) {
                Err(ApiError::Mistral(v))
            } else {
                Ok(v)
            }
        },
    }
}

/// Classifies a response from its HTTP status and raw body.
pub fn classify_response(status: u16, body: Vec<u8>) -> (r: QueryResult<serde_json::Value>)
    ensures
        !json_parses(body@) ==> r == Err::<serde_json::Value, ApiError>(
            ApiError::Server(status, body),
        ),
        json_parses(body@) && !success_status(status) ==> (r matches Err(ApiError::Mistral(_))),
        json_parses(body@) && success_status(status) ==> r.is_ok(),
        body@.len() == 0 ==> r == Err::<serde_json::Value, ApiError>(ApiError::Server(status, body)),
{
    let parsed = parse_json(body.as_slice());
    classify_parsed(status, body, parsed)
}

/// Classifies the outcome of one exchange with the service: a transport
/// failure, or the HTTP status and raw body of the response.
pub fn classify_exchange(
    exchange: Result<(u16, Vec<u8>), reqwest::Error>,
) -> (r: QueryResult<serde_json::Value>)
    ensures
        match exchange {
            Err(e) => r == Err::<serde_json::Value, ApiError>(ApiError::Client(e)),
            Ok((status, body)) => {
                &&& !json_parses(body@) ==> r == Err::<serde_json::Value, ApiError>(
                    ApiError::Server(status, body),
                )
                &&& json_parses(body@) && !success_status(status) ==> (r matches Err(
                    ApiError::Mistral(_),
                ))
                &&& json_parses(body@) && success_status(status) ==> r.is_ok()
            },
        },
{
    match exchange {
        Err(e) => Err(ApiError::Client(e)),
        Ok((status, body)) => classify_response(status, body),
    }
}

/// Finishes a query from the outcome of decoding the success payload into the
/// expected response type: a decoding failure becomes a `Json` error.
pub fn finish_decoded<T>(decoded: Result<T, serde_json::Error>) -> (r: QueryResult<T>)
    ensures
        match decoded {
            Ok(t) => r == Ok::<T, ApiError>(t),
            Err(e) => r == Err::<T, ApiError>(ApiError::Json(e)),
        },
{
    match decoded {
        Ok(t) => Ok(t),
        Err(e) => Err(ApiError::Json(e)),
    }
}

/// The value of the `Authorization` header for an API key.
pub fn authorization_value(api_key: &str) -> (r: String)
    ensures
        r@ == "Bearer "@ + api_key@,
{
    let mut r = String::from_str("Bearer ");
    r.append(api_key);
    r
}

} // verus!

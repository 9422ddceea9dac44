//! Error types: errors returned by the Algorithmia API, and errors of this client.

use vstd::prelude::*;
use vstd::string::*;
use crate::json;
use crate::json::JsonValue;
use crate::text::str_eq;

verus! {

/// Error types that the Algorithmia algorithm APIs can return.
#[derive(Debug, Clone, Copy, PartialEq, Eq, Structural)]
pub enum ErrorType {
    Input,
    Unsupported,
    Initialization,
    OutOfMemory,
    OutOfGpuMemory,
    Language,
    TooLarge,
    Parsing,
    EntityNotFound,
    ThirdPartyCredential,
    Algorithm,
}

/// The name under which the API reports an error type.
pub open spec fn error_type_name(t: ErrorType) -> Seq<char> {
    match t {
        ErrorType::Input => "InputError"@,
        ErrorType::Unsupported => "UnsupportedError"@,
        ErrorType::Initialization => "InitializationError"@,
        ErrorType::OutOfMemory => "OutOfMemoryError"@,
        ErrorType::OutOfGpuMemory => "OutOfGpuMemoryError"@,
        ErrorType::Language => "LanguageError"@,
        ErrorType::TooLarge => "TooLargeError"@,
        ErrorType::Parsing => "ParsingError"@,
        ErrorType::EntityNotFound => "EntityNotFoundError"@,
        ErrorType::ThirdPartyCredential => "ThirdPartyCredentialError"@,
        ErrorType::Algorithm => "AlgorithmError"@,
    }
}

/// The error type that the API reports under `name`, if any.
pub open spec fn error_type_of_name(name: Seq<char>) -> Option<ErrorType> {
    if name == "InputError"@ {
        Some(ErrorType::Input)
    } else if name == "UnsupportedError"@ {
        Some(ErrorType::Unsupported)
    } else if name == "InitializationError"@ {
        Some(ErrorType::Initialization)
    } else if name == "OutOfMemoryError"@ {
        Some(ErrorType::OutOfMemory)
    } else if name == "OutOfGpuMemoryError"@ {
        Some(ErrorType::OutOfGpuMemory)
    } else if name == "LanguageError"@ {
        Some(ErrorType::Language)
    } else if name == "TooLargeError"@ {
        Some(ErrorType::TooLarge)
    } else if name == "ParsingError"@ {
        Some(ErrorType::Parsing)
    } else if name == "EntityNotFoundError"@ {
        Some(ErrorType::EntityNotFound)
    } else if name == "ThirdPartyCredentialError"@ {
        Some(ErrorType::ThirdPartyCredential)
    } else if name == "AlgorithmError"@ {
        Some(ErrorType::Algorithm)
    } else {
        None
    }
}

/// The error type of an API error that names none.
pub fn unknown_error() -> (r: ErrorType)
    ensures
        r == ErrorType::Algorithm,
{
    ErrorType::Algorithm
}

impl ErrorType {
    /// The name under which the API reports this error type.
    pub fn api_name(&self) -> (r: &'static str)
        ensures
            r@ == error_type_name(*self),
    {
        match self {
            ErrorType::Input => "InputError",
            ErrorType::Unsupported => "UnsupportedError",
            ErrorType::Initialization => "InitializationError",
            ErrorType::OutOfMemory => "OutOfMemoryError",
            ErrorType::OutOfGpuMemory => "OutOfGpuMemoryError",
            ErrorType::Language => "LanguageError",
            ErrorType::TooLarge => "TooLargeError",
            ErrorType::Parsing => "ParsingError",
            ErrorType::EntityNotFound => "EntityNotFoundError",
            ErrorType::ThirdPartyCredential => "ThirdPartyCredentialError",
            ErrorType::Algorithm => "AlgorithmError",
        }
    }

    /// The error type that the API reports under `name`, if any.
    pub fn from_api_name(name: &str) -> (r: Option<ErrorType>)
        ensures
            r == error_type_of_name(name@),
    {
        if str_eq(name, "InputError") {
            Some(ErrorType::Input)
        } else if str_eq(name, "UnsupportedError") {
            Some(ErrorType::Unsupported)
        } else if str_eq(name, "InitializationError") {
            Some(ErrorType::Initialization)
        } else if str_eq(name, "OutOfMemoryError") {
            Some(ErrorType::OutOfMemory)
        } else if str_eq(name, "OutOfGpuMemoryError") {
            Some(ErrorType::OutOfGpuMemory)
        } else if str_eq(name, "LanguageError") {
            Some(ErrorType::Language)
        } else if str_eq(name, "TooLargeError") {
            Some(ErrorType::TooLarge)
        } else if str_eq(name, "ParsingError") {
            Some(ErrorType::Parsing)
        } else if str_eq(name, "EntityNotFoundError") {
            Some(ErrorType::EntityNotFound)
        } else if str_eq(name, "ThirdPartyCredentialError") {
            Some(ErrorType::ThirdPartyCredential)
        } else if str_eq(name, "AlgorithmError") {
            Some(ErrorType::Algorithm)
        } else {
            None
        }
    }
}

/// Every error type is read back from its API name.
pub proof fn law_error_type_name_roundtrip(t: ErrorType)
    ensures
        error_type_of_name(error_type_name(t)) == Some(t),
{
    reveal_strlit("InputError");
    reveal_strlit("UnsupportedError");
    reveal_strlit("InitializationError");
    reveal_strlit("OutOfMemoryError");
    reveal_strlit("OutOfGpuMemoryError");
    reveal_strlit("LanguageError");
    reveal_strlit("TooLargeError");
    reveal_strlit("ParsingError");
    reveal_strlit("EntityNotFoundError");
    reveal_strlit("ThirdPartyCredentialError");
    reveal_strlit("AlgorithmError");
    assert("InputError"@.len() == 10);
    assert("UnsupportedError"@.len() == 16);
    assert("InitializationError"@.len() == 19);
    assert("OutOfMemoryError"@.len() == 16);
    assert("OutOfGpuMemoryError"@.len() == 19);
    assert("LanguageError"@.len() == 13);
    assert("TooLargeError"@.len() == 13);
    assert("ParsingError"@.len() == 12);
    assert("EntityNotFoundError"@.len() == 19);
    assert("ThirdPartyCredentialError"@.len() == 25);
    assert("AlgorithmError"@.len() == 14);
    assert("UnsupportedError"@[0] != "OutOfMemoryError"@[0]);
    assert("InitializationError"@[0] != "OutOfGpuMemoryError"@[0]);
    assert("InitializationError"@[0] != "EntityNotFoundError"@[0]);
    assert("OutOfGpuMemoryError"@[0] != "EntityNotFoundError"@[0]);
    assert("LanguageError"@[0] != "TooLargeError"@[0]);
}

/// The view of an optional string.
pub open spec fn opt_view(o: Option<String>) -> Option<Seq<char>> {
    match o {
        Some(s) => Some(s@),
        None => None,
    }
}

/// Error from the Algorithmia API (may be from the algorithm)
#[derive(Debug)]
pub struct ApiError {
    /// Error message returned from the Algorithmia API
    pub message: String,
    /// Error type
    pub error_type: Option<String>,
    /// Stacktrace of algorithm exception/panic
    pub stacktrace: Option<String>,
}

/// Struct for decoding Algorithmia API error responses
#[derive(Debug)]
pub struct ApiErrorResponse {
    pub error: ApiError,
}

/// The text of an optional JSON string field: a missing field or `null` is none,
/// a string is its text; anything else does not decode.
pub open spec fn optional_text(v: Option<JsonValue>) -> Option<Option<Seq<char>>> {
    match v {
        None => Some(None),
        Some(JsonValue::Null) => Some(None),
        Some(JsonValue::String(s)) => Some(Some(s@)),
        _ => None,
    }
}

/// The JSON value decodes as an API error: an object with a string `message`
/// and optional string `error_type` and `stacktrace` (other fields are ignored).
pub open spec fn is_api_error(v: JsonValue) -> bool {
    &&& json::is_struct_like(v, 3)
    &&& json::struct_field_at(v, "message"@, 0, 3) matches Some(m) && m is String
    &&& optional_text(json::struct_field_at(v, "error_type"@, 1, 3)) is Some
    &&& optional_text(json::struct_field_at(v, "stacktrace"@, 2, 3)) is Some
}

/// `e` is the API error that the JSON value decodes as.
pub open spec fn decodes_api_error(v: JsonValue, e: ApiError) -> bool {
    &&& json::struct_field_at(v, "message"@, 0, 3) matches Some(m) && json::json_str(m) == Some(e.message@)
    &&& optional_text(json::struct_field_at(v, "error_type"@, 1, 3)) == Some(opt_view(e.error_type))
    &&& optional_text(json::struct_field_at(v, "stacktrace"@, 2, 3)) == Some(opt_view(e.stacktrace))
}

/// An API error is read from its JSON fields: `message` as the text of its
/// string, `error_type` and `stacktrace` as the text of a string (none for a
/// missing or null field).
pub proof fn law_api_error_fields(v: JsonValue, e: ApiError)
    requires
        decodes_api_error(v, e),
    ensures
        json::struct_field_at(v, "message"@, 0, 3) matches Some(JsonValue::String(s)) && e.message@
            == s@,
        match json::struct_field_at(v, "error_type"@, 1, 3) {
            Some(JsonValue::String(t)) => e.error_type matches Some(x) && x@ == t@,
            Some(JsonValue::Null) => e.error_type is None,
            None => e.error_type is None,
            _ => false,
        },
        match json::struct_field_at(v, "stacktrace"@, 2, 3) {
            Some(JsonValue::String(t)) => e.stacktrace matches Some(x) && x@ == t@,
            Some(JsonValue::Null) => e.stacktrace is None,
            None => e.stacktrace is None,
            _ => false,
        },
{
}

/// An object with a string `message`, and an `error_type` and a `stacktrace`
/// that are each missing, null or a string, is an API error (other fields are
/// ignored); an object whose `error` field is one is an API error response.
pub proof fn law_api_error_accepted(v: JsonValue)
    requires
        v is Object,
        json::json_field(v, "message"@) matches Some(JsonValue::String(_)),
        json::json_field(v, "error_type"@) matches Some(x) ==> (x is Null || x is String),
        json::json_field(v, "stacktrace"@) matches Some(x) ==> (x is Null || x is String),
    ensures
        is_api_error(v),
{
}

/// The `error` field of an API error response (an object, or an array of one element).
pub open spec fn api_error_field(v: JsonValue) -> Option<JsonValue> {
    json::struct_field_at(v, "error"@, 0, 1)
}

/// The API error of a response is its `error` field: by name in an object,
/// or the one element of an array of one.
pub proof fn law_api_error_field(v: JsonValue)
    ensures
        v is Object ==> api_error_field(v) == json::json_field(v, "error"@),
        v matches JsonValue::Array(a) ==> api_error_field(v) == (if a@.len() == 1 {
            Some(a@[0])
        } else {
            None
        }),
        !(v is Object) && !(v is Array) ==> api_error_field(v) is None,
{
}

/// The JSON value decodes as an API error response: its `error` field is an API error.
pub open spec fn is_api_error_response(v: JsonValue) -> bool {
    api_error_field(v) matches Some(e) && is_api_error(e)
}

/// The text of the `Display` of `http::StatusCode` for `code`: the code and its
/// reason phrase.
pub uninterp spec fn spec_status_text(code: u16) -> Seq<char>;

/// Shows an HTTP status as `http::StatusCode`'s `Display` does ("404 Not Found").
/// Claimed: the result is `spec_status_text` of the code.
#[verifier::external_body]
pub(crate) fn status_text(code: u16) -> (r: String)
    requires
        100 <= code <= 999,
    ensures
        r@ == spec_status_text(code),
{
    http::StatusCode::from_u16(code).unwrap().to_string()
}

/// A captured backtrace of the current thread, as `backtrace::Backtrace::new()`
/// shows it with `Debug`. Nothing is claimed of the text: it depends on the machine.
#[verifier::external_body]
fn backtrace_text() -> String {
    format!("{:?}", backtrace::Backtrace::new())
}

/// Reads an optional string field, the `i`-th of `n`, of a struct.
fn optional_string(v: &JsonValue, key: &str, i: usize, n: usize) -> (r: Result<Option<String>, ()>)
    requires
        i < n,
    ensures
        match r {
            Ok(o) => optional_text(json::struct_field_at(*v, key@, i as int, n as int)) == Some(opt_view(o)),
            Err(_) => optional_text(json::struct_field_at(*v, key@, i as int, n as int)) is None,
        },
{
    match json::struct_field(v, key, i, n) {
        None => Ok(None),
        Some(JsonValue::Null) => Ok(None),
        Some(JsonValue::String(s)) => Ok(Some(s.clone())),
        Some(_) => Err(()),
    }
}

impl ApiError {
    /// Creates an ApiError - intended for creating ApiErrors from Rust algorithms
    pub fn new(error_type: &str, message: &str) -> (r: ApiError)
        ensures
            r.error_type matches Some(t) && t@ == error_type@,
            r.message@ == message@,
            r.stacktrace is Some,
    {
        ApiError {
            error_type: Some(String::from_str(error_type)),
            message: String::from_str(message),
            stacktrace: Some(backtrace_text()),
        }
    }

    /// An error raised by an algorithm with the given message (type `AlgorithmError`).
    pub fn from_message(message: &str) -> (r: ApiError)
        ensures
            r.error_type matches Some(t) && t@ == "AlgorithmError"@,
            r.message@ == message@,
            r.stacktrace is Some,
    {
        ApiError::new("AlgorithmError", message)
    }

    /// The API error a JSON value decodes as, if it is one.
    pub fn from_json_value(v: &JsonValue) -> (r: Option<ApiError>)
        ensures
            r is Some <==> is_api_error(*v),
            r matches Some(e) ==> decodes_api_error(*v, e),
    {
        match v {
            JsonValue::Object(_) => {},
            JsonValue::Array(a) => {
                if a.len() != 3 {
                    return None;
                }
            },
            _ => {
                return None;
            },
        }
        let message = match json::struct_field(v, "message", 0, 3) {
            Some(JsonValue::String(m)) => m.clone(),
            _ => {
                return None;
            },
        };
        let error_type = match optional_string(v, "error_type", 1, 3) {
            Ok(t) => t,
            Err(_) => {
                return None;
            },
        };
        let stacktrace = match optional_string(v, "stacktrace", 2, 3) {
            Ok(t) => t,
            Err(_) => {
                return None;
            },
        };
        Some(ApiError { message, error_type, stacktrace })
    }

    /// The text of this error (as its `Display` shows it):
    /// `error_type: message`, then the stacktrace on a new line.
    pub fn to_display_string(&self) -> (r: String)
        ensures
            r@ == (match self.error_type {
                Some(t) => t@ + ": "@,
                None => Seq::empty(),
            }) + self.message@ + (match self.stacktrace {
                Some(s) => "\n"@ + s@,
                None => Seq::empty(),
            }),
    {
        let mut r = String::new();
        match &self.error_type {
            Some(t) => {
                r.append(t.as_str());
                r.append(": ");
            },
            None => {},
        }
        r.append(self.message.as_str());
        match &self.stacktrace {
            Some(s) => {
                r.append("\n");
                r.append(s.as_str());
            },
            None => {},
        }
        r
    }
}

impl ApiErrorResponse {
    /// The API error response a JSON value decodes as, if it is one.
    pub fn from_json_value(v: &JsonValue) -> (r: Option<ApiErrorResponse>)
        ensures
            r is Some <==> is_api_error_response(*v),
            r matches Some(e) ==> api_error_field(*v) matches Some(ev)
                && decodes_api_error(ev, e.error),
    {
        match json::struct_field(v, "error", 0, 1) {
            Some(e) => match ApiError::from_json_value(e) {
                Some(err) => Some(ApiErrorResponse { error: err }),
                None => None,
            },
            None => None,
        }
    }
}

/// What kind of failure an `Error` stands for.
#[derive(Debug)]
pub enum ErrorKind {
    /// Error from the Algorithmia API (may be from the algorithm)
    Api(ApiError),
    /// HTTP error calling the API: the status (if the server answered) and the
    /// error message of the server (if it sent one)
    Http(Option<u16>, Option<ApiError>),
    /// Error generated in this client
    Client,
    /// Error of an underlying operation, by the text of its message
    Inner(String),
}

/// The error type of this client: what failed, and in what context.
#[derive(Debug)]
pub struct Error {
    pub kind: ErrorKind,
    pub ctx: String,
}

impl Error {
    /// If the Algorithmia API returned an error, return the error response
    pub fn api_error(&self) -> (r: Option<&ApiError>)
        ensures
            r == (match self.kind {
                ErrorKind::Api(e) => Some(&e),
                ErrorKind::Http(_, e) => match e {
                    Some(e) => Some(&e),
                    None => None,
                },
                _ => None,
            }),
    {
        match &self.kind {
            ErrorKind::Api(e) => Some(e),
            ErrorKind::Http(_, api_err) => match api_err {
                Some(e) => Some(e),
                None => None,
            },
            _ => None,
        }
    }

    /// If an HTTP error occurred, return the relevant status code
    pub fn status(&self) -> (r: Option<u16>)
        ensures
            r == (match self.kind {
                ErrorKind::Http(s, _) => s,
                _ => None,
            }),
    {
        match &self.kind {
            ErrorKind::Http(s, _) => *s,
            _ => None,
        }
    }

    /// An error for an API error, with no context.
    pub fn from_api_error(err: ApiError) -> (r: Error)
        ensures
            r.kind == ErrorKind::Api(err),
            r.ctx@ == Seq::<char>::empty(),
    {
        Error { kind: ErrorKind::Api(err), ctx: String::new() }
    }

    /// An error of this client with the given message.
    pub fn from_message(msg: String) -> (r: Error)
        ensures
            r.kind == ErrorKind::Client,
            r.ctx == msg,
    {
        Error { kind: ErrorKind::Client, ctx: msg }
    }

    /// An error of an underlying operation (by its message), in a context.
    pub fn inner(source: String, ctx: &str) -> (r: Error)
        ensures
            r.kind == ErrorKind::Inner(source),
            r.ctx@ == ctx@,
    {
        Error { kind: ErrorKind::Inner(source), ctx: String::from_str(ctx) }
    }

    /// Decodes an API error response into an error; JSON that is not one is an
    /// error of its own, in the context "Failed to decode API error response".
    pub fn from_json(json_text: &str) -> (r: Error)
        ensures
            match json::spec_parse_json(json_text@) {
                Ok(v) => if is_api_error_response(v) {
                    r.kind matches ErrorKind::Api(e) && api_error_field(v) matches Some(
                        ev,
                    ) && decodes_api_error(ev, e) && r.ctx@ == Seq::<char>::empty()
                } else {
                    r.kind matches ErrorKind::Inner(m) && m@ == not_api_error_text()
                        && r.ctx@ == "Failed to decode API error response"@
                },
                Err(msg) => r.kind matches ErrorKind::Inner(m) && m@ == msg && r.ctx@
                    == "Failed to decode API error response"@,
            },
    {
        match json::value_from_str(json_text) {
            Ok(v) => match ApiErrorResponse::from_json_value(&v) {
                Some(res) => Error::from_api_error(res.error),
                None => Error::inner(
                    String::from_str("JSON is not an API error response"),
                    "Failed to decode API error response",
                ),
            },
            Err(msg) => Error::inner(msg, "Failed to decode API error response"),
        }
    }

    /// The text of this error (as its `Display` shows it): the status of an HTTP
    /// error before the context, else the context.
    pub fn to_display_string(&self) -> (r: String)
        requires
            self.kind matches ErrorKind::Http(Some(s), _) ==> 100 <= s <= 999,
        ensures
            r@ == (match self.kind {
                ErrorKind::Http(Some(s), _) => spec_status_text(s) + ": "@ + self.ctx@,
                _ => self.ctx@,
            }),
    {
        match &self.kind {
            ErrorKind::Http(Some(s), _) => {
                let mut r = status_text(*s);
                r.append(": ");
                r.append(self.ctx.as_str());
                r
            },
            _ => self.ctx.clone(),
        }
    }
}

/// The message of the error for JSON that is valid but not an API error response.
pub open spec fn not_api_error_text() -> Seq<char> {
    "JSON is not an API error response"@
}

/// `r` is an error of this client with the message `msg`.
pub open spec fn is_client_error<T>(r: Result<T, Error>, msg: Seq<char>) -> bool {
    r matches Err(e) && e.kind is Client && e.ctx@ == msg
}

/// `r` is an error of an underlying operation with message `msg`, in context `ctx`.
pub open spec fn is_inner_error<T>(r: Result<T, Error>, msg: Seq<char>, ctx: Seq<char>) -> bool {
    r matches Err(e) && e.kind matches ErrorKind::Inner(m) && m@ == msg && e.ctx@ == ctx
}


/// `r` is an API error of type `AlgorithmError` with message `msg` and a
/// stacktrace, with no context (what `ApiError::from_message` makes).
pub open spec fn is_algorithm_error<T>(r: Result<T, Error>, msg: Seq<char>) -> bool {
    match r {
        Err(e) => match e.kind {
            ErrorKind::Api(a) => a.message@ == msg && (match a.error_type {
                Some(t) => t@ == "AlgorithmError"@,
                None => false,
            }) && a.stacktrace is Some && e.ctx@ == Seq::<char>::empty(),
            _ => false,
        },
        Ok(_) => false,
    }
}

/// `e` is the HTTP error for the failed response `resp`, in context `ctx`.
pub open spec fn is_response_failure(resp: crate::client::HttpResponse, e: Error, ctx: Seq<char>) -> bool {
    match e.kind {
        ErrorKind::Http(s, api) => s == Some(resp.status) && crate::client::response_api_error(resp, api)
            && e.ctx@ == ctx,
        _ => false,
    }
}

impl Error {
    /// The same error in the context `ctx`.
    pub fn with_context(self, ctx: String) -> (r: Error)
        ensures
            r.kind == self.kind,
            r.ctx == ctx,
    {
        Error { kind: self.kind, ctx }
    }
}

/// `e` is an error of type `AlgorithmError` whose message is the status.
pub open spec fn is_status_error(e: ApiError, status: u16) -> bool {
    &&& e.message@ == spec_status_text(status)
    &&& e.error_type matches Some(t) && t@ == "AlgorithmError"@
    &&& e.stacktrace is Some
}

impl ApiError {
    /// The API error an error response holds, else one of type
    /// `AlgorithmError` whose message is the status.
    pub fn from_json_or_status(json_text: &str, status: u16) -> (r: ApiError)
        requires
            100 <= status <= 999,
        ensures
            match json::spec_parse_json(json_text@) {
                Ok(v) => if is_api_error_response(v) {
                    api_error_field(v) matches Some(ev) && decodes_api_error(ev, r)
                } else {
                    is_status_error(r, status)
                },
                Err(_) => is_status_error(r, status),
            },
    {
        match json::value_from_str(json_text) {
            Ok(v) => match ApiErrorResponse::from_json_value(&v) {
                Some(res) => {
                    return res.error;
                },
                None => {},
            },
            Err(_) => {},
        }
        let msg = status_text(status);
        ApiError::from_message(msg.as_str())
    }
}

} // verus!

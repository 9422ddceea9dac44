use algorithmia::client::{process_http_response, ApiAuth, HttpClient, HttpResponse, Method};
use algorithmia::error::{unknown_error, ApiError, ApiErrorResponse, Error, ErrorKind, ErrorType};
use algorithmia::json::value_from_str;
use algorithmia::num::{parse_unsigned_exec, u64_to_string};
use algorithmia::data::object::HasDataPath;
use algorithmia::Algorithmia;

#[test]
fn error_type_names() {
    assert_eq!(ErrorType::Unsupported.api_name(), "UnsupportedError");
    assert_eq!(ErrorType::from_api_name("InputError"), Some(ErrorType::Input));
    assert_eq!(ErrorType::from_api_name("Nope"), None);
    assert_eq!(unknown_error(), ErrorType::Algorithm);
    for t in [ErrorType::Input, ErrorType::EntityNotFound, ErrorType::ThirdPartyCredential] {
        assert_eq!(ErrorType::from_api_name(t.api_name()), Some(t));
    }
}

#[test]
fn api_error_display() {
    let e = ApiError { message: "Input missing field 'url'".to_string(), error_type: Some("InputError".to_string()), stacktrace: None };
    assert_eq!(e.to_display_string(), "InputError: Input missing field 'url'");
    let e = ApiError { message: "m".to_string(), error_type: None, stacktrace: Some("trace".to_string()) };
    assert_eq!(e.to_display_string(), "m\ntrace");
    let made = ApiError::new("InputError", "bad");
    assert_eq!(made.error_type.as_deref(), Some("InputError"));
    assert!(made.stacktrace.is_some());
    let alg = ApiError::from_message("oops");
    assert_eq!(alg.error_type.as_deref(), Some("AlgorithmError"));
}

#[test]
fn error_from_json() {
    let e = Error::from_json(r#"{"error":{"message":"not found","error_type":"EntityNotFoundError"}}"#);
    assert_eq!(e.api_error().unwrap().message, "not found");
    assert_eq!(e.to_display_string(), "");
    let e = Error::from_json("[1]");
    assert!(matches!(e.kind, ErrorKind::Inner(_)));
    assert_eq!(e.to_display_string(), "Failed to decode API error response");
    let v = value_from_str(r#"{"error":{"message":"x"}}"#).unwrap();
    assert_eq!(ApiErrorResponse::from_json_value(&v).unwrap().error.message, "x");
}

#[test]
fn http_response_processing() {
    let ok = HttpResponse { status: 200, headers: vec![], body: vec![] };
    assert!(process_http_response(&ok).is_ok());
    let bad = HttpResponse {
        status: 404,
        headers: vec![("x-error-message".to_string(), "missing".to_string())],
        body: b"not json".to_vec(),
    };
    let e = process_http_response(&bad).unwrap_err();
    assert_eq!(e.status(), Some(404));
    assert_eq!(e.api_error().unwrap().message, "missing");
    assert_eq!(e.to_display_string(), "404 Not Found: ");
    let plain = HttpResponse { status: 502, headers: vec![], body: vec![] };
    let e = process_http_response(&plain).unwrap_err();
    assert!(e.api_error().is_none());
}

#[test]
fn client_requests() {
    let c = HttpClient::new(ApiAuth::from_str_key("abc"), "https://example.com").unwrap();
    assert_eq!(c.base_url, "https://example.com/");
    assert!(c.auth_is_valid());
    let req = c.get("https://example.com/v1/x".to_string());
    assert_eq!(req.method, Method::Get);
    assert_eq!(req.headers[1], ("authorization".to_string(), "Simple abc".to_string()));
    assert!(req.headers[0].1.starts_with("algorithmia-rust/"));
    let none = HttpClient::new(ApiAuth::from_str_key(""), "https://example.com").unwrap();
    assert!(matches!(none.api_auth, ApiAuth::Unauthenticated));
    assert_eq!(none.head("u".to_string()).headers.len(), 1);
    let bad_key = HttpClient::new(ApiAuth::from_str_key("a\nb"), "https://example.com").unwrap();
    assert!(!bad_key.auth_is_valid());
    let e = HttpClient::new(ApiAuth::none(), "not a url").unwrap_err();
    assert_eq!(e.to_display_string(), "Invalid base URL");
}

#[test]
fn algorithmia_clients() {
    let a = Algorithmia::new(Some("https://api.test".to_string()), Some("key".to_string())).unwrap();
    let f = a.file("data://.my/f");
    assert_eq!(f.get_request().unwrap().url, "https://api.test/v1/connector/data/.my/f");
    let d = Algorithmia::new(None, None).unwrap();
    assert_eq!(d.dir("x").to_url().unwrap(), "https://api.algorithmia.com/v1/connector/data/x");
    assert!(Algorithmia::client_with_url("k", "::").is_err());
}

#[test]
fn numbers() {
    assert_eq!(u64_to_string(0), "0");
    assert_eq!(u64_to_string(1234567890), "1234567890");
    assert_eq!(parse_unsigned_exec("+42", u64::MAX), Some(42));
    assert_eq!(parse_unsigned_exec("18446744073709551615", u64::MAX), Some(u64::MAX));
    assert_eq!(parse_unsigned_exec("18446744073709551616", u64::MAX), None);
    assert_eq!(parse_unsigned_exec("4a", u64::MAX), None);
    assert_eq!(parse_unsigned_exec("+", u64::MAX), None);
}

#[test]
fn api_error_from_json_or_status() {
    let e = ApiError::from_json_or_status(r#"{"error":{"message":"quota"}}"#, 429);
    assert_eq!(e.message, "quota");
    let e = ApiError::from_json_or_status("<html>", 502);
    assert_eq!(e.message, "502 Bad Gateway");
    assert_eq!(e.error_type.as_deref(), Some("AlgorithmError"));
}

use algorithmia::algo::algorithm::AlgoIo;
use algorithmia::entrypoint::{after_first_try, unsupported, ApplyNext, EntryPoint};
use algorithmia::error::{ApiError, Error};
use algorithmia::json::JsonValue;

#[derive(Default)]
struct JsonOnly;

impl EntryPoint for JsonOnly {
    fn apply_json(&mut self, json: &JsonValue) -> Result<AlgoIo, Error> {
        match json {
            JsonValue::String(s) => Ok(AlgoIo::Text(format!("json:{}", s))),
            _ => Ok(AlgoIo::Text("json".to_string())),
        }
    }
}

#[derive(Default)]
struct TextOnly;

impl EntryPoint for TextOnly {
    fn apply_str(&mut self, text: &str) -> Result<AlgoIo, Error> {
        Ok(AlgoIo::Text(format!("text:{}", text)))
    }
}

#[derive(Default)]
struct Nothing;

impl EntryPoint for Nothing {}

fn text_of(r: Result<AlgoIo, Error>) -> String {
    match r {
        Ok(AlgoIo::Text(t)) => t,
        _ => panic!("expected text"),
    }
}

#[test]
fn text_falls_back_to_json() {
    let mut algo = JsonOnly;
    assert_eq!(text_of(algo.apply(AlgoIo::Text("hi".to_string()))), "json:hi");
}

#[test]
fn json_string_falls_back_to_text() {
    let mut algo = TextOnly;
    let input = AlgoIo::Json(JsonValue::String("hi".to_string()));
    assert_eq!(text_of(algo.apply(input)), "text:hi");
    let e = algo.apply(AlgoIo::Json(JsonValue::Null)).unwrap_err();
    assert_eq!(e.api_error().unwrap().message, "JSON input is not supported");
}

#[test]
fn unsupported_defaults() {
    let mut algo = Nothing;
    let e = algo.apply(AlgoIo::Binary(vec![1])).unwrap_err();
    assert_eq!(e.api_error().unwrap().message, "Binary input is not supported");
    assert_eq!(e.api_error().unwrap().error_type.as_deref(), Some("UnsupportedError"));
    let e = algo.apply(AlgoIo::Text("x".to_string())).unwrap_err();
    assert_eq!(e.api_error().unwrap().message, "JSON input is not supported");
}

#[test]
fn decision_after_first_try() {
    let unsupported_err = Error::from_api_error(ApiError::new("UnsupportedError", "no"));
    assert!(unsupported(&unsupported_err));
    match after_first_try(&AlgoIo::Text("t".to_string()), Err(unsupported_err)) {
        ApplyNext::TryJson(JsonValue::String(s)) => assert_eq!(s, "t"),
        _ => panic!("expected a JSON retry"),
    }
    let other = Error::from_api_error(ApiError::new("InputError", "bad"));
    assert!(!unsupported(&other));
    assert!(matches!(after_first_try(&AlgoIo::Text("t".to_string()), Err(other)), ApplyNext::Done(Err(_))));
    let again = Error::from_api_error(ApiError::new("UnsupportedError", "no"));
    assert!(matches!(after_first_try(&AlgoIo::Binary(vec![]), Err(again)), ApplyNext::Done(Err(_))));
    assert!(matches!(after_first_try(&AlgoIo::Binary(vec![]), Ok(AlgoIo::Binary(vec![2]))), ApplyNext::Done(Ok(_))));
}

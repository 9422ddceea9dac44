use algorithmia::algo::algorithm::{AlgoIo, AlgoResponse};
use algorithmia::algo::uri::AlgoUri;
use algorithmia::algo::version::Version;
use algorithmia::json::{JsonNumber, JsonValue};
use algorithmia::Algorithmia;

fn mock_client() -> Algorithmia {
    Algorithmia::client("", None).unwrap()
}

fn url_path(url: &str) -> String {
    url::Url::parse(url).unwrap().path().to_string()
}

fn as_i32_list(v: &JsonValue) -> Vec<i32> {
    match v {
        JsonValue::Array(items) => items
            .iter()
            .map(|x| match x {
                JsonValue::Number(JsonNumber::PosInt(n)) => *n as i32,
                JsonValue::Number(JsonNumber::NegInt(n)) => *n as i32,
                _ => panic!("not an integer"),
            })
            .collect(),
        _ => panic!("not an array"),
    }
}

#[test]
fn algorithm_test_algo_without_version_to_url() {
    let mock_client = mock_client();
    let algorithm = mock_client.algo(AlgoUri::from("/anowell/Pinky"));
    assert_eq!(url_path(&algorithm.to_url().unwrap()), "/v1/algo/anowell/Pinky");
}

#[test]
fn algorithm_test_algo_without_prefix_to_url() {
    let mock_client = mock_client();
    let algorithm = mock_client.algo(AlgoUri::from("anowell/Pinky/0.1.0"));
    assert_eq!(url_path(&algorithm.to_url().unwrap()), "/v1/algo/anowell/Pinky/0.1.0");
}

#[test]
fn algorithm_test_algo_with_prefix_to_url() {
    let mock_client = mock_client();
    let algorithm = mock_client.algo(AlgoUri::from("algo://anowell/Pinky/0.1"));
    assert_eq!(url_path(&algorithm.to_url().unwrap()), "/v1/algo/anowell/Pinky/0.1");
}

#[test]
fn algorithm_test_algo_typesafe_to_url() {
    let mock_client = mock_client();
    let pinky = AlgoUri::with_version("anowell/Pinky", &Version::Hash("abcdef123456"));
    let algorithm = mock_client.algo(pinky);
    assert_eq!(url_path(&algorithm.to_url().unwrap()), "/v1/algo/anowell/Pinky/abcdef123456");
}

#[test]
fn mod_test_algo_without_version_to_url() {
    let mock_client = mock_client();
    let algorithm = mock_client.algo(AlgoUri::from("/anowell/Pinky"));
    assert_eq!(url_path(&algorithm.to_url().unwrap()), "/v1/algo/anowell/Pinky");
}

#[test]
fn mod_test_algo_without_prefix_to_url() {
    let mock_client = mock_client();
    let algorithm = mock_client.algo(AlgoUri::from("anowell/Pinky/0.1.0"));
    assert_eq!(url_path(&algorithm.to_url().unwrap()), "/v1/algo/anowell/Pinky/0.1.0");
}

#[test]
fn mod_test_algo_with_prefix_to_url() {
    let mock_client = mock_client();
    let algorithm = mock_client.algo(AlgoUri::from("algo://anowell/Pinky/0.1"));
    assert_eq!(url_path(&algorithm.to_url().unwrap()), "/v1/algo/anowell/Pinky/0.1");
}

#[test]
fn test_algo_with_sha_to_url() {
    let mock_client = mock_client();
    let algorithm = mock_client.algo(AlgoUri::from("anowell/Pinky/abcdef123456"));
    assert_eq!(url_path(&algorithm.to_url().unwrap()), "/v1/algo/anowell/Pinky/abcdef123456");
}

fn check_json_decoding() {
    let json_output =
        r#"{"metadata":{"duration":0.46739511,"content_type":"json"},"result":[5,41]}"#;
    let expected_result = [5, 41];
    let decoded = AlgoResponse::from_str(json_output).unwrap();
    let duration = match &decoded.metadata.duration {
        JsonNumber::Other(n) => n.as_f64().unwrap() as f32,
        _ => panic!("duration is not a float"),
    };
    assert_eq!(0.46739511f32, duration);
    assert_eq!(decoded.metadata.content_type, "json");
    let result = decoded.into_json().unwrap();
    assert_eq!(expected_result, &*as_i32_list(&result));
}

#[test]
fn algorithm_test_json_decoding() {
    check_json_decoding();
}

#[test]
fn mod_test_json_decoding() {
    check_json_decoding();
}

#[test]
fn response_text_and_binary() {
    let text = AlgoResponse::from_str(r#"{"metadata":{"duration":1,"content_type":"text"},"result":"hi"}"#)
        .unwrap();
    assert_eq!(text.into_string(), Some("hi".to_string()));
    let bin = AlgoResponse::from_str(r#"{"metadata":{"duration":1,"content_type":"binary"},"result":"aGk="}"#)
        .unwrap();
    assert_eq!(bin.into_bytes(), Some(b"hi".to_vec()));
    let void = AlgoResponse::from_str(r#"{"metadata":{"duration":1,"content_type":"void"},"result":5}"#)
        .unwrap();
    assert!(matches!(void.into_io(), AlgoIo::Json(JsonValue::Null)));
}

#[test]
fn response_errors() {
    let err = AlgoResponse::from_str(r#"{"error":{"message":"boom","error_type":"AlgorithmError"}}"#)
        .unwrap_err();
    assert_eq!(err.api_error().unwrap().message, "boom");
    let mismatch = AlgoResponse::from_str(r#"{"metadata":{"duration":1,"content_type":"text"},"result":5}"#)
        .unwrap_err();
    assert_eq!(mismatch.to_display_string(), "content did not match content type 'text'");
    let unknown = AlgoResponse::from_str(r#"{"metadata":{"duration":1,"content_type":"xml"},"result":5}"#)
        .unwrap_err();
    assert_eq!(unknown.to_display_string(), "content did not match content type 'xml'");
    let missing = AlgoResponse::from_str(r#"{"result":5}"#).unwrap_err();
    assert_eq!(missing.to_display_string(), "failed to decode JSON as algorithm response");
    assert!(AlgoResponse::from_body(&vec![0xff, 0xfe]).is_err());
}

#[test]
fn pipe_request_has_options() {
    let client = Algorithmia::client("simKey", None).unwrap();
    let mut algo = client.algo(AlgoUri::from("algo://anowell/Pinky/0.1"));
    algo.timeout(10);
    let req = algo.pipe(&AlgoIo::from_text("hello".to_string())).unwrap();
    assert_eq!(req.url, "https://api.algorithmia.com/v1/algo/anowell/Pinky/0.1?timeout=10");
    assert_eq!(req.body, Some(b"hello".to_vec()));
    assert!(req.headers.contains(&("authorization".to_string(), "Simple simKey".to_string())));
    assert!(req.headers.contains(&("content-type".to_string(), "text/plain".to_string())));
}

#[test]
fn response_display() {
    let text = AlgoResponse::from_str(r#"{"metadata":{"duration":1,"content_type":"text"},"result":"hi"}"#)
        .unwrap();
    assert_eq!(text.to_display_string(), "hi");
    let json = AlgoResponse::from_str(r#"{"metadata":{"duration":1,"content_type":"json"},"result":[1,2]}"#)
        .unwrap();
    assert_eq!(json.to_display_string(), "[1,2]");
    let bin = AlgoResponse::from_str(r#"{"metadata":{"duration":1,"content_type":"binary"},"result":"/0E="}"#)
        .unwrap();
    assert_eq!(bin.to_display_string(), "\u{FFFD}A");
}

#[test]
fn algo_uri_from_string_and_str_agree() {
    let s = "algo:///anowell/Pinky";
    assert_eq!(AlgoUri::from(s).path(), "/anowell/Pinky");
    assert_eq!(AlgoUri::from(s.to_string()).path(), AlgoUri::from(s).path());
    assert_eq!(AlgoUri::from("/x/y".to_string()).path(), "x/y");
    assert_eq!(AlgoUri::from("x/y").path(), "x/y");
}

#[test]
fn algo_ref_from_path() {
    let r = algorithmia::algo::uri::AlgoRef::from("anowell/Pinky");
    assert_eq!(r.path, "anowell/Pinky");
}

#[test]
fn response_parts_as_arrays() {
    let text = AlgoResponse::from_str(r#"{"metadata":[1.5,null,["low balance"],"text"],"result":"hi"}"#)
        .unwrap();
    assert_eq!(text.metadata.alerts, Some(vec!["low balance".to_string()]));
    assert!(matches!(text.into_io(), AlgoIo::Text(ref t) if t == "hi"));
    assert!(AlgoResponse::from_str(r#"{"metadata":[1,"text"],"result":"hi"}"#).is_err());
    let err = AlgoResponse::from_str(r#"{"error":["boom","AlgorithmError",null]}"#).unwrap_err();
    assert_eq!(err.api_error().unwrap().message, "boom");
    let err = AlgoResponse::from_str(r#"[{"message":"boom"}]"#).unwrap_err();
    assert_eq!(err.api_error().unwrap().message, "boom");
}

#[test]
fn response_from_json_value() {
    let v = algorithmia::json::value_from_str(r#"{"metadata":{"duration":1,"content_type":"json"},"result":[1]}"#)
        .unwrap();
    let r = AlgoResponse::from_json_value(v).unwrap();
    assert!(matches!(r.into_io(), AlgoIo::Json(JsonValue::Array(ref a)) if a.len() == 1));
}

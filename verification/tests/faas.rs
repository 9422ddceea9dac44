use algorithmia::algo::algorithm::AlgoIo;
use algorithmia::faas::{build_input, input_of_request, error_cause_chain, failure_json, serialize_output, success_json};
use algorithmia::json::JsonValue;

fn parse(text: &str) -> serde_json::Value {
    serde_json::from_str(text).unwrap()
}

#[test]
fn text_input() {
    let io = build_input(r#"{"data":"hello","content_type":"text"}"#).unwrap();
    assert!(matches!(io, AlgoIo::Text(ref t) if t == "hello"));
}

#[test]
fn binary_input() {
    let io = build_input(r#"{"data":"aGk=","content_type":"binary"}"#).unwrap();
    assert!(matches!(io, AlgoIo::Binary(ref b) if b == b"hi"));
    let e = build_input(r#"{"data":"!!","content_type":"binary"}"#).unwrap_err();
    assert_eq!(e.to_display_string(), "Error decoding request input as binary");
}

#[test]
fn json_input() {
    let io = build_input(r#"{"data":[1,2],"content_type":"json"}"#).unwrap();
    assert!(matches!(io, AlgoIo::Json(JsonValue::Array(ref a)) if a.len() == 2));
}

#[test]
fn request_as_array() {
    let io = build_input(r#"["hello","text"]"#).unwrap();
    assert!(matches!(io, AlgoIo::Text(ref t) if t == "hello"));
    let io = build_input(r#"[{"a":1},"json"]"#).unwrap();
    assert!(matches!(io, AlgoIo::Json(JsonValue::Object(ref f)) if f.len() == 1));
    assert!(build_input(r#"["hello"]"#).is_err());
    assert!(build_input(r#"["hello","text","extra"]"#).is_err());
    assert!(build_input(r#"["hello",5]"#).is_err());
}

#[test]
fn invalid_inputs() {
    let e = build_input(r#"{"data":5,"content_type":"text"}"#).unwrap_err();
    assert_eq!(e.to_display_string(), "Content type 'text' is invalid");
    let e = build_input(r#"{"data":"x","content_type":"xml"}"#).unwrap_err();
    assert_eq!(e.to_display_string(), "Content type 'xml' is invalid");
    let e = build_input("not json").unwrap_err();
    assert_eq!(e.to_display_string(), "Error decoding JSON request");
    let e = build_input(r#"{"content_type":"text"}"#).unwrap_err();
    assert_eq!(e.to_display_string(), "Error decoding JSON request");
}

#[test]
fn success_lines() {
    let text = parse(&success_json(AlgoIo::Text("hi".to_string())));
    assert_eq!(text, parse(r#"{"result":"hi","metadata":{"content_type":"text"}}"#));
    let bin = parse(&success_json(AlgoIo::Binary(b"hi".to_vec())));
    assert_eq!(bin, parse(r#"{"result":"aGk=","metadata":{"content_type":"binary"}}"#));
    let json = parse(&success_json(AlgoIo::Json(JsonValue::Bool(true))));
    assert_eq!(json, parse(r#"{"result":true,"metadata":{"content_type":"json"}}"#));
}

#[test]
fn failure_lines() {
    let line = parse(&failure_json("boom", "SystemError"));
    assert_eq!(line, parse(r#"{"error":{"message":"boom","error_type":"SystemError"}}"#));
    let out = parse(&serialize_output(Err("bad input".to_string())));
    assert_eq!(out, parse(r#"{"error":{"message":"bad input","error_type":"AlgorithmError"}}"#));
    let out = parse(&serialize_output(Ok(AlgoIo::Text("ok".to_string()))));
    assert_eq!(out["result"], "ok");
}

#[test]
fn cause_chain() {
    let causes = vec!["outer".to_string(), "middle".to_string(), "inner".to_string()];
    assert_eq!(error_cause_chain(&causes), "outer\ncaused by: middle\ncaused by: inner");
    assert_eq!(error_cause_chain(&vec!["only".to_string()]), "only");
}

#[test]
fn binary_round_trip_through_runner() {
    let line = success_json(AlgoIo::Binary(vec![0, 1, 2, 255]));
    let v = parse(&line);
    let request = format!(r#"{{"data":{},"content_type":"binary"}}"#, v["result"]);
    let io = build_input(&request).unwrap();
    assert!(matches!(io, AlgoIo::Binary(ref b) if b == &vec![0, 1, 2, 255]));
}

#[test]
fn output_lines_keep_field_order() {
    assert_eq!(
        success_json(AlgoIo::Text("hi".to_string())),
        r#"{"result":"hi","metadata":{"content_type":"text"}}"#
    );
    assert_eq!(
        success_json(AlgoIo::Binary(b"hi".to_vec())),
        r#"{"result":"aGk=","metadata":{"content_type":"binary"}}"#
    );
    assert_eq!(
        failure_json("say \"no\"", "SystemError"),
        r#"{"error":{"message":"say \"no\"","error_type":"SystemError"}}"#
    );
}

#[test]
fn request_value_to_input() {
    let v = algorithmia::json::value_from_str(r#"{"data":"hi","content_type":"text"}"#).unwrap();
    assert!(matches!(input_of_request(v), Ok(AlgoIo::Text(ref t)) if t == "hi"));
    let v = algorithmia::json::value_from_str("5").unwrap();
    assert_eq!(input_of_request(v).unwrap_err().to_display_string(), "Error decoding JSON request");
}

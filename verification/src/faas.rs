//! Running Rust algorithms on the Algorithmia platform: each request line is
//! read into the algorithm's input, and its output or error is written back
//! as a line of JSON.

use vstd::prelude::*;
use vstd::string::*;
use crate::algo::algorithm::AlgoIo;
use crate::codec;
use crate::codec::{base64_decode, base64_encode};
use crate::error;
use crate::error::Error;
use crate::json;
use crate::json::{JsonValue, json_to_string, value_from_str};
use crate::text;
use crate::text::{join_strs, str_eq};

verus! {

/// The context of an error reading a request line.
pub open spec fn request_ctx() -> Seq<char> {
    "Error decoding JSON request"@
}

/// The message for JSON that is not a request.
pub open spec fn not_request_text() -> Seq<char> {
    "JSON is not a request"@
}

/// The context of an error decoding binary input.
pub open spec fn binary_ctx() -> Seq<char> {
    "Error decoding request input as binary"@
}

/// The message for a request with an unknown content type.
pub open spec fn invalid_content_type_text(ct: Seq<char>) -> Seq<char> {
    "Content type '"@ + ct + "' is invalid"@
}

/// The data and content type of a request: an object with a `data` field and
/// a string `content_type`, or the two in that order as an array.
pub open spec fn request_parts(v: JsonValue) -> Option<(JsonValue, Seq<char>)> {
    match v {
        JsonValue::Object(_) => match (json::json_field(v, "data"@), json::json_field(v, "content_type"@)) {
            (Some(d), Some(JsonValue::String(ct))) => Some((d, ct@)),
            _ => None,
        },
        JsonValue::Array(items) => if items@.len() == 2 && items@[1] is String {
            Some((items@[0], items@[1]->String_0@))
        } else {
            None
        },
        _ => None,
    }
}

/// `r` is the input of a request with content type `ct` and data `data`: text
/// for a string with `text`, the bytes of base64 text for `binary`, JSON as it
/// is for `json`; any other pair is an error.
pub open spec fn input_outcome(ct: Seq<char>, data: JsonValue, r: Result<AlgoIo, Error>) -> bool {
    if ct == "text"@ && data is String {
        r == Ok::<AlgoIo, Error>(AlgoIo::Text(data->String_0))
    } else if ct == "binary"@ && data is String {
        match codec::spec_base64_decode(data->String_0@) {
            Ok(b) => r matches Ok(AlgoIo::Binary(v)) && v@ == b,
            Err(m) => error::is_inner_error(r, m, binary_ctx()),
        }
    } else if ct == "json"@ {
        r == Ok::<AlgoIo, Error>(AlgoIo::Json(data))
    } else {
        error::is_client_error(r, invalid_content_type_text(ct))
    }
}

/// The data and content type of a request value.
fn request_of(v: JsonValue) -> (r: Option<(JsonValue, String)>)
    ensures
        match request_parts(v) {
            Some((d, ct)) => r matches Some((rd, rct)) && rd == d && rct@ == ct,
            None => r is None,
        },
{
    proof {
        reveal_strlit("data");
        reveal_strlit("content_type");
    }
    match v {
        JsonValue::Object(fields) => {
            let mut obj = JsonValue::Object(fields);
            let content_type = match obj.get("content_type") {
                Some(JsonValue::String(ct)) => ct.clone(),
                _ => {
                    return None;
                },
            };
            match obj.take_field("data") {
                Some(d) => Some((d, content_type)),
                None => None,
            }
        },
        JsonValue::Array(mut items) => {
            if items.len() != 2 {
                return None;
            }
            let content_type = match &items[1] {
                JsonValue::String(ct) => ct.clone(),
                _ => {
                    return None;
                },
            };
            let d = items.remove(0);
            Some((d, content_type))
        },
        _ => None,
    }
}

/// What a request value gives: the input its data and content type make, or
/// the error for a value that is not a request.
pub open spec fn request_value_outcome(v: JsonValue, r: Result<AlgoIo, Error>) -> bool {
    match request_parts(v) {
        Some((data, ct)) => input_outcome(ct, data, r),
        None => error::is_inner_error(r, not_request_text(), request_ctx()),
    }
}

/// A request `{"data": d, "content_type": ct}` (other fields ignored) gives
/// the input by its content type: `text` the text of a string `d`, `json`
/// the value `d` as it is, `binary` the bytes a string `d` decodes to from
/// base64; any other content type, or `text` or `binary` with data that is
/// not a string, is an error.
pub proof fn law_request_input(v: JsonValue, d: JsonValue, ct: String, r: Result<AlgoIo, Error>)
    requires
        request_value_outcome(v, r),
        v is Object,
        json::json_field(v, "data"@) == Some(d),
        json::json_field(v, "content_type"@) == Some(JsonValue::String(ct)),
    ensures
        ct@ == "json"@ ==> r == Ok::<AlgoIo, Error>(AlgoIo::Json(d)),
        ct@ == "text"@ ==> match d {
            JsonValue::String(s) => r == Ok::<AlgoIo, Error>(AlgoIo::Text(s)),
            _ => r is Err,
        },
        ct@ == "binary"@ ==> match d {
            JsonValue::String(s) => match codec::spec_base64_decode(s@) {
                Ok(b) => r matches Ok(AlgoIo::Binary(x)) && x@ == b,
                Err(_) => r is Err,
            },
            _ => r is Err,
        },
        ct@ != "json"@ && ct@ != "text"@ && ct@ != "binary"@ ==> r is Err,
{
    reveal_strlit("json");
    reveal_strlit("text");
    reveal_strlit("binary");
    assert("json"@[0] != "text"@[0] && "json"@[0] != "binary"@[0] && "text"@[0] != "binary"@[0]);
}

/// The success line of an output names its content type (`text`, `json` or
/// `binary`) and holds, as its result, the text as a JSON string, the JSON
/// value, or the base64 text of the bytes as a JSON string.
pub proof fn law_success_line(r: Seq<char>, output: AlgoIo)
    requires
        is_success_line(r, output),
    ensures
        match output {
            AlgoIo::Text(t) => r == "{\"result\":"@ + json::spec_json_text(JsonValue::String(t))
                + ",\"metadata\":{\"content_type\":\"text\"}}"@,
            AlgoIo::Json(j) => r == "{\"result\":"@ + json::spec_json_text(j)
                + ",\"metadata\":{\"content_type\":\"json\"}}"@,
            AlgoIo::Binary(b) => exists|s: String|
                s@ == codec::spec_base64_encode(b@) && r == "{\"result\":"@ + #[trigger] json::spec_json_text(
                    JsonValue::String(s),
                ) + ",\"metadata\":{\"content_type\":\"binary\"}}"@,
        },
{
    reveal_strlit("{\"result\":");
    reveal_strlit(",\"metadata\":{\"content_type\":\"");
    reveal_strlit("\"}}");
    reveal_strlit("text");
    reveal_strlit("json");
    reveal_strlit("binary");
    reveal_strlit(",\"metadata\":{\"content_type\":\"text\"}}");
    reveal_strlit(",\"metadata\":{\"content_type\":\"json\"}}");
    reveal_strlit(",\"metadata\":{\"content_type\":\"binary\"}}");
    assert(",\"metadata\":{\"content_type\":\""@ + "text"@ + "\"}}"@ =~= ",\"metadata\":{\"content_type\":\"text\"}}"@);
    assert(",\"metadata\":{\"content_type\":\""@ + "json"@ + "\"}}"@ =~= ",\"metadata\":{\"content_type\":\"json\"}}"@);
    assert(",\"metadata\":{\"content_type\":\""@ + "binary"@ + "\"}}"@ =~= ",\"metadata\":{\"content_type\":\"binary\"}}"@);
}

/// The input of an algorithm from a request line `{"data": .., "content_type": ..}`
/// (or `[data, content_type]`).
pub fn build_input(line: &str) -> (r: Result<AlgoIo, Error>)
    ensures
        match json::spec_parse_json(line@) {
            Err(m) => error::is_inner_error(r, m, request_ctx()),
            Ok(v) => request_value_outcome(v, r),
        },
{
    match value_from_str(line) {
        Ok(v) => input_of_request(v),
        Err(m) => Err(Error::inner(m, "Error decoding JSON request")),
    }
}

/// The input of an algorithm from a request value.
pub fn input_of_request(v: JsonValue) -> (r: Result<AlgoIo, Error>)
    ensures
        request_value_outcome(v, r),
{
    proof {
        reveal_strlit("text");
        reveal_strlit("binary");
        reveal_strlit("json");
    }
    let (data, content_type) = match request_of(v) {
        Some(p) => p,
        None => {
            return Err(
                Error::inner(String::from_str("JSON is not a request"), "Error decoding JSON request"),
            );
        },
    };
    let ct = content_type.as_str();
    if str_eq(ct, "text") {
        if let JsonValue::String(t) = data {
            return Ok(AlgoIo::Text(t));
        }
    }
    if str_eq(ct, "binary") {
        if let JsonValue::String(encoded) = &data {
            return match base64_decode(encoded.as_str()) {
                Ok(bytes) => Ok(AlgoIo::Binary(bytes)),
                Err(m) => Err(Error::inner(m, "Error decoding request input as binary")),
            };
        }
    }
    if str_eq(ct, "json") {
        return Ok(AlgoIo::Json(data));
    }
    let mut msg = String::from_str("Content type '");
    msg.append(ct);
    msg.append("' is invalid");
    Err(Error::from_message(msg))
}

/// The success line `{"result":..,"metadata":{"content_type":".."}}`, fields in
/// that order, for the JSON text of the result and a content type.
pub open spec fn success_text(result_json: Seq<char>, content_type: Seq<char>) -> Seq<char> {
    "{\"result\":"@ + result_json + ",\"metadata\":{\"content_type\":\""@ + content_type
        + "\"}}"@
}

/// `r` is the success line for `output`: text as a JSON string, JSON as it
/// is, binary data as a base64 string, with the content type named.
pub open spec fn is_success_line(r: Seq<char>, output: AlgoIo) -> bool {
    match output {
        AlgoIo::Text(t) => r == success_text(json::spec_json_text(JsonValue::String(t)), "text"@),
        AlgoIo::Json(j) => r == success_text(json::spec_json_text(j), "json"@),
        AlgoIo::Binary(b) => exists|s: String|
            s@ == codec::spec_base64_encode(b@) && r == success_text(
                #[trigger] json::spec_json_text(JsonValue::String(s)),
                "binary"@,
            ),
    }
}

/// The JSON response line for the output of an algorithm.
pub fn success_json(output: AlgoIo) -> (r: String)
    ensures
        is_success_line(r@, output),
{
    proof {
        reveal_strlit("text");
        reveal_strlit("json");
        reveal_strlit("binary");
    }
    let (result, content_type) = match output {
        AlgoIo::Text(t) => (JsonValue::String(t), "text"),
        AlgoIo::Json(j) => (j, "json"),
        AlgoIo::Binary(b) => (JsonValue::String(base64_encode(b.as_slice())), "binary"),
    };
    let mut r = String::from_str("{\"result\":");
    r.append(json_to_string(&result).as_str());
    r.append(",\"metadata\":{\"content_type\":\"");
    r.append(content_type);
    r.append("\"}}");
    r
}

/// The failure line `{"error":{"message":..,"error_type":..}}`, fields in that
/// order, for the JSON texts of the message and the error type.
pub open spec fn failure_text(message_json: Seq<char>, error_type_json: Seq<char>) -> Seq<char> {
    "{\"error\":{\"message\":"@ + message_json + ",\"error_type\":"@ + error_type_json + "}}"@
}

/// `r` is the failure line for `message` and `error_type`, each as a JSON string.
pub open spec fn is_failure_line(r: Seq<char>, message: Seq<char>, error_type: Seq<char>) -> bool {
    exists|m: String, e: String|
        m@ == message && e@ == error_type && r == failure_text(
            #[trigger] json::spec_json_text(JsonValue::String(m)),
            #[trigger] json::spec_json_text(JsonValue::String(e)),
        )
}

/// The JSON response line for an error of an algorithm (`AlgorithmError`) or
/// of the runner (`SystemError`).
pub fn failure_json(message: &str, error_type: &str) -> (r: String)
    ensures
        is_failure_line(r@, message@, error_type@),
{
    let m = JsonValue::String(String::from_str(message));
    let e = JsonValue::String(String::from_str(error_type));
    let mut r = String::from_str("{\"error\":{\"message\":");
    r.append(json_to_string(&m).as_str());
    r.append(",\"error_type\":");
    r.append(json_to_string(&e).as_str());
    r.append("}}");
    r
}

/// The message of an error and its causes, one per line after `caused by: `.
pub fn error_cause_chain(causes: &Vec<String>) -> (r: String)
    ensures
        r@ == text::join_seq(text::views(causes@), "\ncaused by: "@),
{
    join_strs(causes, "\ncaused by: ")
}

/// The JSON response line for the outcome of an algorithm: its output, or the
/// message (with causes) of its error as an `AlgorithmError`.
pub fn serialize_output(output: Result<AlgoIo, String>) -> (r: String)
    ensures
        match output {
            Ok(o) => is_success_line(r@, o),
            Err(m) => is_failure_line(r@, m@, "AlgorithmError"@),
        },
{
    match output {
        Ok(o) => success_json(o),
        Err(m) => failure_json(m.as_str(), "AlgorithmError"),
    }
}

} // verus!

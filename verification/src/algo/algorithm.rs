//! Algorithm input and output (`AlgoIo`), API responses, and algorithm calls.

use vstd::prelude::*;
use vstd::string::*;
use crate::algo::bytevec::ByteVec;
use crate::algo::uri::{AlgoOptions, AlgoUri};
use crate::client;
use crate::client::{HttpClient, HttpRequest, join_url, append_query_pair};
use crate::codec;
use crate::codec::{base64_decode, mime_application_json, mime_application_octet_stream, mime_text_plain};
use crate::error;
use crate::error::{ApiErrorResponse, Error, ErrorKind};
use crate::json;
use crate::json::{JsonNumber, JsonValue, json_to_string, value_from_str};

verus! {

/// Types that store either input or output to an algorithm
#[derive(Debug)]
pub enum AlgoIo {
    /// Text input or output
    Text(String),
    /// Binary input or output
    Binary(Vec<u8>),
    /// JSON input or output
    Json(JsonValue),
}

/// Input of an algorithm (the same type as its output since `AlgoIo` combined them).
pub type AlgoInput = AlgoIo;

/// Output of an algorithm (the same type as its input since `AlgoIo` combined them).
pub type AlgoOutput = AlgoIo;

/// The text of an `AlgoIo`: text, or a JSON string.
pub open spec fn io_text(io: AlgoIo) -> Option<Seq<char>> {
    match io {
        AlgoIo::Text(t) => Some(t@),
        AlgoIo::Json(v) => json::json_str(v),
        AlgoIo::Binary(_) => None,
    }
}

/// The JSON text of an `AlgoIo`: text as a JSON string, or JSON printed.
pub open spec fn io_json_text(io: AlgoIo) -> Option<Seq<char>> {
    match io {
        AlgoIo::Text(t) => Some(json::spec_json_text(JsonValue::String(t))),
        AlgoIo::Json(v) => Some(json::spec_json_text(v)),
        AlgoIo::Binary(_) => None,
    }
}

/// The message of the error for decoding binary data as JSON.
pub open spec fn binary_not_json_text() -> Seq<char> {
    "cannot decode binary data as JSON"@
}

impl AlgoIo {
    /// Text input or output (`From<String>`).
    pub fn from_text(text: String) -> (r: AlgoIo)
        ensures
            r == AlgoIo::Text(text),
    {
        AlgoIo::Text(text)
    }

    /// Binary input or output (`From<ByteVec>`).
    pub fn from_bytes(bytes: ByteVec) -> (r: AlgoIo)
        ensures
            r matches AlgoIo::Binary(b) && b@ == bytes@,
    {
        AlgoIo::Binary(Vec::<u8>::from(bytes))
    }

    /// JSON input or output (`From<Value>`).
    pub fn from_json(value: JsonValue) -> (r: AlgoIo)
        ensures
            r == AlgoIo::Json(value),
    {
        AlgoIo::Json(value)
    }

    /// If the `AlgoIo` is text (or a valid JSON string), returns the associated text
    pub fn as_string(&self) -> (r: Option<&str>)
        ensures
            match r {
                Some(t) => io_text(*self) == Some(t@),
                None => io_text(*self) is None,
            },
    {
        match self {
            AlgoIo::Text(text) => Some(text.as_str()),
            AlgoIo::Json(json) => json.as_str(),
            AlgoIo::Binary(_) => None,
        }
    }

    /// If the `AlgoIo` is binary, returns the associated byte slice
    pub fn as_bytes(&self) -> (r: Option<&[u8]>)
        ensures
            match *self {
                AlgoIo::Binary(b) => r matches Some(s) && s@ == b@,
                _ => r is None,
            },
    {
        match self {
            AlgoIo::Text(_) | AlgoIo::Json(_) => None,
            AlgoIo::Binary(bytes) => Some(bytes.as_slice()),
        }
    }

    /// If the `AlgoIo` is Json (or JSON encodable text), returns the associated JSON string
    pub fn to_json(&self) -> (r: Option<String>)
        ensures
            match r {
                Some(t) => io_json_text(*self) == Some(t@),
                None => io_json_text(*self) is None,
            },
    {
        match self {
            AlgoIo::Text(text) => {
                let v = JsonValue::String(text.clone());
                Some(json_to_string(&v))
            },
            AlgoIo::Json(json) => Some(json_to_string(json)),
            AlgoIo::Binary(_) => None,
        }
    }

    /// The JSON value to decode into a particular type (what `decode` hands to
    /// `serde_json::from_value`): text as a JSON string, JSON as is; binary data
    /// is an error.
    pub fn into_json(self) -> (r: Result<JsonValue, Error>)
        ensures
            match self {
                AlgoIo::Text(t) => r == Ok::<JsonValue, Error>(JsonValue::String(t)),
                AlgoIo::Json(v) => r == Ok::<JsonValue, Error>(v),
                AlgoIo::Binary(_) => r matches Err(e) && e.kind is Client && e.ctx@
                    == binary_not_json_text(),
            },
    {
        match self {
            AlgoIo::Text(text) => Ok(JsonValue::String(text)),
            AlgoIo::Json(json) => Ok(json),
            AlgoIo::Binary(_) => Err(
                Error::from_message(String::from_str("cannot decode binary data as JSON")),
            ),
        }
    }

    /// The bytes of binary data (`TryFrom<AlgoIo> for ByteVec`); text and JSON are errors.
    pub fn into_byte_vec(self) -> (r: Result<ByteVec, Error>)
        ensures
            match self {
                AlgoIo::Binary(b) => r matches Ok(v) && v@ == b@,
                AlgoIo::Text(_) => r matches Err(e) && e.kind is Client && e.ctx@
                    == "Cannot convert text to byte vector"@,
                AlgoIo::Json(_) => r matches Err(e) && e.kind is Client && e.ctx@
                    == "Cannot convert JSON to byte vector"@,
            },
    {
        match self {
            AlgoIo::Text(_) => Err(
                Error::from_message(String::from_str("Cannot convert text to byte vector")),
            ),
            AlgoIo::Json(_) => Err(
                Error::from_message(String::from_str("Cannot convert JSON to byte vector")),
            ),
            AlgoIo::Binary(bytes) => Ok(<ByteVec as From<Vec<u8>>>::from(bytes)),
        }
    }
}

/// Metadata returned from the API
#[derive(Debug)]
pub struct AlgoMetadata {
    /// Algorithm execution duration (in seconds), as the API sent it
    pub duration: JsonNumber,
    /// Stdout from the algorithm (must enable stdout on request and be the algorithm author)
    pub stdout: Option<String>,
    /// API alerts (e.g. low balance warning)
    pub alerts: Option<Vec<String>>,
    /// Describes how the ouput's `result` field should be parsed (`text`, `json`, or `binary`)
    pub content_type: String,
}

/// The texts of a list of JSON strings (empty text for anything else).
pub open spec fn string_views(a: Seq<JsonValue>) -> Seq<Seq<char>> {
    a.map_values(|x: JsonValue| match x {
        JsonValue::String(s) => s@,
        _ => Seq::empty(),
    })
}

/// The texts of an optional JSON list of strings: a missing field or `null` is
/// none; a list of strings is their texts; anything else does not decode.
pub open spec fn optional_text_list(v: Option<JsonValue>) -> Option<Option<Seq<Seq<char>>>> {
    match v {
        None => Some(None),
        Some(JsonValue::Null) => Some(None),
        Some(JsonValue::Array(a)) => if forall|i: int| 0 <= i < a@.len() ==> #[trigger] a@[i] is String {
            Some(Some(string_views(a@)))
        } else {
            None
        },
        _ => None,
    }
}

/// The views of an optional list of strings.
pub open spec fn opt_list_view(o: Option<Vec<String>>) -> Option<Seq<Seq<char>>> {
    match o {
        Some(v) => Some(v@.map_values(|s: String| s@)),
        None => None,
    }
}

/// The JSON value decodes as algorithm metadata: an object with a number
/// `duration`, an optional string `stdout`, an optional list of strings
/// `alerts` and a string `content_type` (other fields are ignored).
pub open spec fn is_metadata(v: JsonValue) -> bool {
    &&& json::is_struct_like(v, 4)
    &&& json::struct_field_at(v, "duration"@, 0, 4) matches Some(d) && d is Number
    &&& error::optional_text(json::struct_field_at(v, "stdout"@, 1, 4)) is Some
    &&& optional_text_list(json::struct_field_at(v, "alerts"@, 2, 4)) is Some
    &&& json::struct_field_at(v, "content_type"@, 3, 4) matches Some(c) && c is String
}

/// `m` is the metadata that the JSON value decodes as.
pub open spec fn decodes_metadata(v: JsonValue, m: AlgoMetadata) -> bool {
    &&& json::struct_field_at(v, "duration"@, 0, 4) == Some(JsonValue::Number(m.duration))
    &&& error::optional_text(json::struct_field_at(v, "stdout"@, 1, 4)) == Some(error::opt_view(m.stdout))
    &&& optional_text_list(json::struct_field_at(v, "alerts"@, 2, 4)) == Some(opt_list_view(m.alerts))
    &&& json::struct_field_at(v, "content_type"@, 3, 4) matches Some(c) && json::json_str(c) == Some(
        m.content_type@,
    )
}

impl AlgoMetadata {
    /// The metadata a JSON value decodes as, if it is metadata.
    #[verifier::loop_isolation(false)]
    pub fn from_json_value(v: JsonValue) -> (r: Option<AlgoMetadata>)
        ensures
            r is Some <==> is_metadata(v),
            r matches Some(m) ==> decodes_metadata(v, m),
    {
        proof {
            lemma_field_names_distinct();
        }
        let ghost v0 = v;
        let (duration_v, stdout_v, alerts_v, content_type_v) = match v {
            JsonValue::Object(fields) => {
                let mut o = JsonValue::Object(fields);
                let d = o.take_field("duration");
                let so = o.take_field("stdout");
                let al = o.take_field("alerts");
                let ct = o.take_field("content_type");
                (d, so, al, ct)
            },
            JsonValue::Array(items) => {
                if items.len() != 4 {
                    return None;
                }
                let mut items = items;
                let ct = items.pop();
                let al = items.pop();
                let so = items.pop();
                let d = items.pop();
                (d, so, al, ct)
            },
            _ => {
                return None;
            },
        };
        assert(duration_v == json::struct_field_at(v0, "duration"@, 0, 4));
        assert(stdout_v == json::struct_field_at(v0, "stdout"@, 1, 4));
        assert(alerts_v == json::struct_field_at(v0, "alerts"@, 2, 4));
        assert(content_type_v == json::struct_field_at(v0, "content_type"@, 3, 4));
        let duration = match duration_v {
            Some(JsonValue::Number(n)) => n,
            _ => {
                return None;
            },
        };
        let stdout = match stdout_v {
            None => None,
            Some(JsonValue::Null) => None,
            Some(JsonValue::String(s)) => Some(s),
            Some(_) => {
                return None;
            },
        };
        let alerts = match alerts_v {
            None => None,
            Some(JsonValue::Null) => None,
            Some(JsonValue::Array(items)) => {
                let mut out: Vec<String> = Vec::new();
                let n = items.len();
                let mut i: usize = 0;
                while i < n
                    invariant
                        n == items@.len(),
                        i <= n,
                        out@.len() == i,
                        forall|j: int| 0 <= j < i ==> #[trigger] items@[j] is String,
                        forall|j: int|
                            0 <= j < i ==> #[trigger] out@[j]@ == string_views(items@)[j],
                    decreases n - i,
                {
                    match &items[i] {
                        JsonValue::String(s) => {
                            out.push(s.clone());
                        },
                        _ => {
                            assert(!(items@[i as int] is String));
                            return None;
                        },
                    }
                    i = i + 1;
                }
                assert(out@.map_values(|s: String| s@) =~= string_views(items@));
                Some(out)
            },
            Some(_) => {
                return None;
            },
        };
        let content_type = match content_type_v {
            Some(JsonValue::String(s)) => s,
            _ => {
                return None;
            },
        };
        Some(AlgoMetadata { duration, stdout, alerts, content_type })
    }
}

/// Metadata is read from its JSON fields: `duration` as sent, `stdout` as the
/// text of a string (none for a missing or null field), `alerts` as the texts
/// of a list of strings (none for a missing or null field), and
/// `content_type` as the text of its string.
pub proof fn law_metadata_fields(v: JsonValue, m: AlgoMetadata)
    requires
        decodes_metadata(v, m),
    ensures
        json::struct_field_at(v, "duration"@, 0, 4) == Some(JsonValue::Number(m.duration)),
        match json::struct_field_at(v, "stdout"@, 1, 4) {
            Some(JsonValue::String(s)) => m.stdout matches Some(x) && x@ == s@,
            Some(JsonValue::Null) => m.stdout is None,
            None => m.stdout is None,
            _ => false,
        },
        match json::struct_field_at(v, "alerts"@, 2, 4) {
            Some(JsonValue::Array(a)) => m.alerts matches Some(l) && l@.len() == a@.len() && forall|i: int|
                0 <= i < a@.len() ==> json::json_str(#[trigger] a@[i]) == Some(l@[i]@),
            Some(JsonValue::Null) => m.alerts is None,
            None => m.alerts is None,
            _ => false,
        },
        json::struct_field_at(v, "content_type"@, 3, 4) matches Some(JsonValue::String(c))
            && m.content_type@ == c@,
{
    match json::struct_field_at(v, "alerts"@, 2, 4) {
        Some(JsonValue::Array(a)) => {
            let l = m.alerts->0;
            assert(l@.map_values(|s: String| s@) == string_views(a@));
            assert forall|i: int| 0 <= i < a@.len() implies json::json_str(#[trigger] a@[i]) == Some(l@[i]@) by {
                assert(a@[i] is String);
                assert(string_views(a@)[i] == l@.map_values(|s: String| s@)[i]);
            }
        },
        _ => {},
    }
}

/// An object with a number `duration`, a string `content_type`, a `stdout`
/// that is missing, null or a string, and `alerts` that are missing, null or
/// a list of strings, is metadata (other fields are ignored).
pub proof fn law_metadata_accepted(v: JsonValue)
    requires
        v is Object,
        json::json_field(v, "duration"@) matches Some(JsonValue::Number(_)),
        json::json_field(v, "content_type"@) matches Some(JsonValue::String(_)),
        json::json_field(v, "stdout"@) matches Some(x) ==> (x is Null || x is String),
        json::json_field(v, "alerts"@) matches Some(x) ==> (x is Null || (x matches JsonValue::Array(a)
            && forall|i: int| 0 <= i < a@.len() ==> #[trigger] a@[i] is String)),
    ensures
        is_metadata(v),
{
}

/// The field names of algorithm responses differ from each other.
proof fn lemma_field_names_distinct()
    ensures
        "duration"@ != "stdout"@,
        "duration"@ != "alerts"@,
        "duration"@ != "content_type"@,
        "stdout"@ != "alerts"@,
        "stdout"@ != "content_type"@,
        "alerts"@ != "content_type"@,
        "result"@ != "metadata"@,
{
    reveal_strlit("duration");
    reveal_strlit("stdout");
    reveal_strlit("alerts");
    reveal_strlit("content_type");
    reveal_strlit("result");
    reveal_strlit("metadata");
    assert("duration"@.len() == 8);
    assert("stdout"@.len() == 6);
    assert("alerts"@.len() == 6);
    assert("content_type"@.len() == 12);
    assert("result"@.len() == 6);
    assert("metadata"@.len() == 8);
    assert("stdout"@[0] != "alerts"@[0]);
}

/// Successful API response that wraps the `AlgoIo` and its Metadata
#[derive(Debug)]
pub struct AlgoResponse {
    /// Any metadata associated with the API response
    pub metadata: AlgoMetadata,
    /// The algorithm output decoded into an `AlgoIo` enum
    pub result: AlgoIo,
}

/// The context of errors reading an algorithm response.
pub open spec fn response_ctx() -> Seq<char> {
    "failed to decode JSON as algorithm response"@
}

/// The context of errors reading algorithm response metadata.
pub open spec fn metadata_ctx() -> Seq<char> {
    "failed to decode JSON as algorithm response metadata"@
}

/// The message of the error for metadata that does not decode.
pub open spec fn metadata_invalid_text() -> Seq<char> {
    "metadata does not have the fields of algorithm metadata"@
}

/// The context of errors decoding base64 output.
pub open spec fn base64_ctx() -> Seq<char> {
    "failed to decode base64 as algorithm response"@
}

/// The message of the error for a result that does not match its content type.
pub open spec fn mismatch_text(content_type: Seq<char>) -> Seq<char> {
    "content did not match content type '"@ + content_type + "'"@
}

/// The output of an algorithm response with the given content type and `result` field.
pub open spec fn result_outcome(content_type: Seq<char>, value: JsonValue, r: Result<AlgoIo, Error>) -> bool {
    if content_type == "void"@ {
        r == Ok::<AlgoIo, Error>(AlgoIo::Json(JsonValue::Null))
    } else if content_type == "json"@ {
        r == Ok::<AlgoIo, Error>(AlgoIo::Json(value))
    } else if content_type == "text"@ {
        match value {
            JsonValue::String(s) => r == Ok::<AlgoIo, Error>(AlgoIo::Text(s)),
            _ => error::is_client_error(r, mismatch_text("text"@)),
        }
    } else if content_type == "binary"@ {
        match value {
            JsonValue::String(s) => match codec::spec_base64_decode(s@) {
                Ok(b) => r matches Ok(AlgoIo::Binary(bytes)) && bytes@ == b,
                Err(m) => error::is_inner_error(r, m, base64_ctx()),
            },
            _ => error::is_client_error(r, mismatch_text("binary"@)),
        }
    } else {
        error::is_client_error(r, mismatch_text(content_type))
    }
}

/// The output for a content type and `result` field (the dispatch of
/// `AlgoResponse::from_str`).
pub fn decode_result(content_type: &str, value: JsonValue) -> (r: Result<AlgoIo, Error>)
    ensures
        result_outcome(content_type@, value, r),
{
    if text_eq(content_type, "void") {
        Ok(AlgoIo::Json(JsonValue::Null))
    } else if text_eq(content_type, "json") {
        Ok(AlgoIo::Json(value))
    } else if text_eq(content_type, "text") {
        match value {
            JsonValue::String(s) => Ok(AlgoIo::Text(s)),
            _ => Err(mismatch_error("text")),
        }
    } else if text_eq(content_type, "binary") {
        match value {
            JsonValue::String(s) => match base64_decode(s.as_str()) {
                Ok(bytes) => Ok(AlgoIo::Binary(bytes)),
                Err(m) => Err(Error::inner(m, "failed to decode base64 as algorithm response")),
            },
            _ => Err(mismatch_error("binary")),
        }
    } else {
        Err(mismatch_error(content_type))
    }
}

/// The output of a response is read by its content type: `void` is JSON
/// null, `json` the result as it is, `text` the text of a result string,
/// `binary` the bytes a result string decodes to from base64; a result of the
/// wrong kind, or any other content type, is an error.
pub proof fn law_result_by_content_type(ct: Seq<char>, v: JsonValue, r: Result<AlgoIo, Error>)
    requires
        result_outcome(ct, v, r),
    ensures
        ct == "void"@ ==> r == Ok::<AlgoIo, Error>(AlgoIo::Json(JsonValue::Null)),
        ct == "json"@ ==> r == Ok::<AlgoIo, Error>(AlgoIo::Json(v)),
        ct == "text"@ ==> match v {
            JsonValue::String(s) => r == Ok::<AlgoIo, Error>(AlgoIo::Text(s)),
            _ => r is Err,
        },
        ct == "binary"@ ==> match v {
            JsonValue::String(s) => match codec::spec_base64_decode(s@) {
                Ok(b) => r matches Ok(AlgoIo::Binary(x)) && x@ == b,
                Err(_) => r is Err,
            },
            _ => r is Err,
        },
        ct != "void"@ && ct != "json"@ && ct != "text"@ && ct != "binary"@ ==> r is Err,
{
    reveal_strlit("void");
    reveal_strlit("json");
    reveal_strlit("text");
    reveal_strlit("binary");
    assert("void"@ != "json"@ && "void"@ != "text"@ && "void"@ != "binary"@ && "json"@ != "text"@
        && "json"@ != "binary"@ && "text"@ != "binary"@) by {
        assert("void"@[0] != "json"@[0] && "void"@[0] != "text"@[0] && "void"@[0] != "binary"@[0]
            && "json"@[0] != "text"@[0] && "json"@[0] != "binary"@[0] && "text"@[0] != "binary"@[0]);
    }
}

/// `a` and `b` hold the same text.
fn text_eq(a: &str, b: &str) -> (r: bool)
    ensures
        r == (a@ == b@),
{
    crate::text::str_eq(a, b)
}

/// The error for a result that does not match its content type.
fn mismatch_error(content_type: &str) -> (r: Error)
    ensures
        r.kind is Client,
        r.ctx@ == mismatch_text(content_type@),
{
    let mut m = String::from_str("content did not match content type '");
    m.append(content_type);
    m.append("'");
    Error::from_message(m)
}

/// The outcome of reading an algorithm response from its JSON value.
pub open spec fn response_value_outcome(v: JsonValue, r: Result<AlgoResponse, Error>) -> bool {
    if error::is_api_error_response(v) {
        r matches Err(e) && e.kind matches ErrorKind::Api(a) && error::api_error_field(v) matches Some(ev) && error::decodes_api_error(ev, a) && e.ctx@ == Seq::<char>::empty()
    } else {
        match json::json_field(v, "metadata"@) {
            None => error::is_inner_error(r, "missing field `metadata`"@, response_ctx()),
            Some(mv) => match json::json_field(v, "result"@) {
                None => error::is_inner_error(r, "missing field `result`"@, response_ctx()),
                Some(rv) => if !is_metadata(mv) {
                    error::is_inner_error(r, metadata_invalid_text(), metadata_ctx())
                } else {
                    match json::struct_field_at(mv, "content_type"@, 3, 4) {
                        Some(JsonValue::String(ct)) => {
                            &&& r is Ok ==> (r matches Ok(resp) && decodes_metadata(
                                mv,
                                resp.metadata,
                            ))
                            &&& result_outcome(
                                ct@,
                                rv,
                                match r {
                                    Ok(resp) => Ok(resp.result),
                                    Err(e) => Err(e),
                                },
                            )
                        },
                        _ => false,
                    }
                },
            },
        }
    }
}

/// A response that is not an API error, with a `metadata` and a `result`
/// field (other fields ignored), is read as that metadata (an error where it
/// does not decode), with `stdout` the text of a `stdout` string (none for a
/// missing or null one), and the result read by the metadata's content type:
/// `json` the result as it is, `text` the text of a result string.
pub proof fn law_response_read(
    v: JsonValue,
    mv: JsonValue,
    rv: JsonValue,
    ct: String,
    r: Result<AlgoResponse, Error>,
)
    requires
        response_value_outcome(v, r),
        !error::is_api_error_response(v),
        json::json_field(v, "metadata"@) == Some(mv),
        json::json_field(v, "result"@) == Some(rv),
        json::struct_field_at(mv, "content_type"@, 3, 4) == Some(JsonValue::String(ct)),
    ensures
        !is_metadata(mv) ==> r is Err,
        r matches Ok(resp) ==> resp.metadata.content_type@ == ct@,
        r matches Ok(resp) ==> match json::struct_field_at(mv, "stdout"@, 1, 4) {
            Some(JsonValue::String(s)) => resp.metadata.stdout matches Some(x) && x@ == s@,
            _ => resp.metadata.stdout is None,
        },
        is_metadata(mv) && ct@ == "json"@ ==> (r matches Ok(resp) && resp.result == AlgoIo::Json(rv)),
        is_metadata(mv) && ct@ == "text"@ ==> match rv {
            JsonValue::String(s) => r matches Ok(resp) && resp.result == AlgoIo::Text(s),
            _ => r is Err,
        },
{
    match r {
        Ok(resp) => {
            law_metadata_fields(mv, resp.metadata);
            law_result_by_content_type(ct@, rv, Ok(resp.result));
        },
        Err(e) => {
            if is_metadata(mv) {
                law_result_by_content_type(ct@, rv, Err(e));
            }
        },
    }
}

/// A response that is not an API error and lacks `metadata` or `result` is an error.
pub proof fn law_response_needs_fields(v: JsonValue, r: Result<AlgoResponse, Error>)
    requires
        response_value_outcome(v, r),
        !error::is_api_error_response(v),
        json::json_field(v, "metadata"@) is None || json::json_field(v, "result"@) is None,
    ensures
        r is Err,
{
}

/// The outcome of reading an algorithm response from its JSON text.
pub open spec fn response_outcome(text: Seq<char>, r: Result<AlgoResponse, Error>) -> bool {
    match json::spec_parse_json(text) {
        Err(m) => error::is_inner_error(r, m, response_ctx()),
        Ok(v) => response_value_outcome(v, r),
    }
}

impl AlgoResponse {
    /// Reads an algorithm response from the JSON text the API sent
    /// (`FromStr for AlgoResponse`). An API error response is returned as that
    /// error; otherwise `metadata` is decoded and `result` is read by its
    /// content type.
    pub fn from_str(json_text: &str) -> (r: Result<AlgoResponse, Error>)
        ensures
            response_outcome(json_text@, r),
    {
        match value_from_str(json_text) {
            Ok(v) => AlgoResponse::from_json_value(v),
            Err(m) => Err(Error::inner(m, "failed to decode JSON as algorithm response")),
        }
    }

    /// Reads an algorithm response from the JSON value the API sent: an API
    /// error response is returned as that error; otherwise `metadata` is
    /// decoded and `result` is read by its content type.
    pub fn from_json_value(value: JsonValue) -> (r: Result<AlgoResponse, Error>)
        ensures
            response_value_outcome(value, r),
    {
        let mut data = value;
        match ApiErrorResponse::from_json_value(&data) {
            Some(res) => {
                return Err(Error::from_api_error(res.error));
            },
            None => {},
        }
        let ghost d0 = data;
        let metadata_value = match data.take_field("metadata") {
            Some(m) => m,
            None => {
                return Err(
                    Error::inner(
                        String::from_str("missing field `metadata`"),
                        "failed to decode JSON as algorithm response",
                    ),
                );
            },
        };
        let result_value = match data.take_field("result") {
            Some(v) => v,
            None => {
                assert(json::json_field(d0, "result"@) is None) by {
                    lemma_field_names_distinct();
                }
                return Err(
                    Error::inner(
                        String::from_str("missing field `result`"),
                        "failed to decode JSON as algorithm response",
                    ),
                );
            },
        };
        assert(json::json_field(d0, "result"@) == Some(result_value)) by {
            lemma_field_names_distinct();
        }
        let ghost mv = metadata_value;
        let metadata = match AlgoMetadata::from_json_value(metadata_value) {
            Some(m) => m,
            None => {
                return Err(
                    Error::inner(
                        String::from_str("metadata does not have the fields of algorithm metadata"),
                        "failed to decode JSON as algorithm response metadata",
                    ),
                );
            },
        };
        let result = decode_result(metadata.content_type.as_str(), result_value);
        match result {
            Ok(io) => Ok(AlgoResponse { metadata, result: io }),
            Err(e) => Err(e),
        }
    }

    /// Reads an algorithm response from the body of the API's reply to a call
    /// (the end of `pipe`): UTF-8 text read as with `from_str`; other bytes are
    /// an error.
    pub fn from_body(body: &Vec<u8>) -> (r: Result<AlgoResponse, Error>)
        ensures
            vstd::utf8::valid_utf8(body@) ==> response_outcome(vstd::utf8::decode_utf8(body@), r),
            !vstd::utf8::valid_utf8(body@) ==> error::is_inner_error(
                r,
                "stream did not contain valid UTF-8"@,
                "failed to read algorithm response"@,
            ),
    {
        match client::utf8_text(body) {
            Some(t) => AlgoResponse::from_str(t.as_str()),
            None => Err(
                Error::inner(
                    String::from_str("stream did not contain valid UTF-8"),
                    "failed to read algorithm response",
                ),
            ),
        }
    }

    /// The text of the output (as its `Display` shows it): text as it is,
    /// JSON printed, binary data read as UTF-8 with invalid sequences replaced.
    pub fn to_display_string(&self) -> (r: String)
        ensures
            r@ == (match self.result {
                AlgoIo::Text(s) => s@,
                AlgoIo::Json(v) => json::spec_json_text(v),
                AlgoIo::Binary(b) => client::spec_utf8_lossy(b@),
            }),
    {
        match &self.result {
            AlgoIo::Text(s) => s.clone(),
            AlgoIo::Json(v) => json_to_string(v),
            AlgoIo::Binary(b) => client::utf8_lossy(b.as_slice()),
        }
    }

    /// Return algorithm output as a string (if text or a valid JSON string)
    pub fn into_string(self) -> (r: Option<String>)
        ensures
            match r {
                Some(t) => io_text(self.result) == Some(t@),
                None => io_text(self.result) is None,
            },
    {
        match self.result {
            AlgoIo::Text(text) => Some(text),
            AlgoIo::Json(JsonValue::String(text)) => Some(text),
            _ => None,
        }
    }

    /// Read algorithm output as JSON (if JSON or text)
    pub fn into_json(self) -> (r: Option<JsonValue>)
        ensures
            match self.result {
                AlgoIo::Json(v) => r == Some(v),
                AlgoIo::Text(t) => r == Some(JsonValue::String(t)),
                AlgoIo::Binary(_) => r is None,
            },
    {
        match self.result {
            AlgoIo::Json(json) => Some(json),
            AlgoIo::Text(text) => Some(JsonValue::String(text)),
            _ => None,
        }
    }

    /// If the algorithm output is Binary, returns the associated bytes
    pub fn into_bytes(self) -> (r: Option<Vec<u8>>)
        ensures
            match self.result {
                AlgoIo::Binary(b) => r matches Some(v) && v@ == b@,
                _ => r is None,
            },
    {
        match self.result {
            AlgoIo::Binary(bytes) => Some(bytes),
            _ => None,
        }
    }

    /// The algorithm output (`From<AlgoResponse> for AlgoIo`, `Deref`).
    pub fn into_io(self) -> (r: AlgoIo)
        ensures
            r == self.result,
    {
        self.result
    }
}

/// The API path of an algorithm.
pub open spec fn algo_api_path(uri: Seq<char>) -> Seq<char> {
    "v1/algo/"@ + uri
}

/// Algorithmia algorithm - intialized from the `Algorithmia` builder
pub struct Algorithm {
    pub algo_uri: AlgoUri,
    pub options: AlgoOptions,
    pub client: HttpClient,
}

/// The URL of a request with options: each option appended as a query pair, in order.
pub open spec fn url_with_pairs(url: Seq<char>, pairs: Seq<(Seq<char>, Seq<char>)>) -> Seq<char>
    decreases pairs.len(),
{
    if pairs.len() == 0 {
        url
    } else {
        client::spec_append_query_pair(
            url_with_pairs(url, pairs.drop_last()),
            pairs.last().0,
            pairs.last().1,
        )
    }
}

/// The request to call an algorithm at `url` with `body` of `content_type`.
pub open spec fn is_call_request(
    req: HttpRequest,
    c: HttpClient,
    url: Seq<char>,
    content_type: Seq<char>,
    body: Seq<u8>,
) -> bool {
    &&& req.method == client::Method::Post
    &&& req.url@ == url
    &&& client::header_views(req.headers@) == client::request_headers(c.user_agent@, c.api_auth)
        + seq![("content-type"@, content_type)]
    &&& req.body matches Some(b) && b@ == body
}

impl Algorithm {
    /// An algorithm called through `client`, with no options.
    pub fn new(client: HttpClient, algo_uri: AlgoUri) -> (r: Algorithm)
        ensures
            r.client == client,
            r.algo_uri@ == algo_uri@,
            r.options.pairs().len() == 0,
    {
        Algorithm { client, algo_uri, options: AlgoOptions::new() }
    }

    /// Get the API Endpoint URL for this Algorithm: `v1/algo/<path>` joined to the base URL.
    pub fn to_url(&self) -> (r: Result<String, Error>)
        ensures
            match client::spec_join_url(self.client.base_url@, algo_api_path(self.algo_uri@)) {
                Ok(u) => r matches Ok(s) && s@ == u,
                Err(m) => error::is_inner_error(
                    r,
                    m,
                    "invalid algorithm URI "@ + algo_api_path(self.algo_uri@),
                ),
            },
    {
        let mut path = String::from_str("v1/algo/");
        path.append(self.algo_uri.path());
        match join_url(self.client.base_url.as_str(), path.as_str()) {
            Ok(u) => Ok(u),
            Err(m) => {
                let mut ctx = String::from_str("invalid algorithm URI ");
                ctx.append(path.as_str());
                Err(Error::inner(m, ctx.as_str()))
            },
        }
    }

    /// Get the Algorithmia algo URI for this Algorithm
    pub fn to_algo_uri(&self) -> (r: &AlgoUri)
        ensures
            r@ == self.algo_uri@,
    {
        &self.algo_uri
    }

    /// Builder method to explicitly configure options
    pub fn set_options(&mut self, options: AlgoOptions)
        ensures
            final(self).options == options,
            final(self).algo_uri == old(self).algo_uri,
            final(self).client == old(self).client,
    {
        self.options = options;
    }

    /// Builder method to configure the timeout in seconds
    pub fn timeout(&mut self, timeout: u32)
        ensures
            final(self).options.lookup("timeout"@) == Some(crate::num::decimal(timeout as nat)),
            old(self).options.lookup("timeout"@) is Some ==> final(self).options.pairs()
                == old(self).options.pairs().update(
                old(self).options.position("timeout"@),
                ("timeout"@, crate::num::decimal(timeout as nat)),
            ),
            old(self).options.lookup("timeout"@) is None ==> final(self).options.pairs()
                == old(self).options.pairs().push(("timeout"@, crate::num::decimal(timeout as nat))),
            forall|k: Seq<char>|
                k != "timeout"@ ==> final(self).options.lookup(k) == old(self).options.lookup(k),
            final(self).algo_uri == old(self).algo_uri,
            final(self).client == old(self).client,
    {
        self.options.timeout(timeout);
    }

    /// Builder method to enabled or disable stdout in the response metadata
    pub fn stdout(&mut self, stdout: bool)
        ensures
            final(self).options.lookup("stdout"@) == Some(if stdout {
                "true"@
            } else {
                "false"@
            }),
            old(self).options.lookup("stdout"@) is Some ==> final(self).options.pairs()
                == old(self).options.pairs().update(
                old(self).options.position("stdout"@),
                ("stdout"@, if stdout {
                    "true"@
                } else {
                    "false"@
                }),
            ),
            old(self).options.lookup("stdout"@) is None ==> final(self).options.pairs()
                == old(self).options.pairs().push(
                ("stdout"@, if stdout {
                    "true"@
                } else {
                    "false"@
                }),
            ),
            forall|k: Seq<char>|
                k != "stdout"@ ==> final(self).options.lookup(k) == old(self).options.lookup(k),
            final(self).algo_uri == old(self).algo_uri,
            final(self).client == old(self).client,
    {
        self.options.stdout(stdout);
    }

    /// Builder method to include stdout in the response metadata
    pub fn enable_stdout(&mut self)
        ensures
            final(self).options.lookup("stdout"@) == Some("true"@),
            old(self).options.lookup("stdout"@) is Some ==> final(self).options.pairs()
                == old(self).options.pairs().update(old(self).options.position("stdout"@), ("stdout"@, "true"@)),
            old(self).options.lookup("stdout"@) is None ==> final(self).options.pairs()
                == old(self).options.pairs().push(("stdout"@, "true"@)),
            forall|k: Seq<char>|
                k != "stdout"@ ==> final(self).options.lookup(k) == old(self).options.lookup(k),
            final(self).algo_uri == old(self).algo_uri,
            final(self).client == old(self).client,
    {
        self.options.enable_stdout();
    }

    /// The request that calls the algorithm with `body` of `content_type`: a
    /// POST to the algorithm's URL with the options as query pairs.
    pub fn pipe_as(&self, body: Vec<u8>, content_type: &str) -> (r: Result<HttpRequest, Error>)
        requires
            client::auth_valid(self.client.api_auth),
        ensures
            match client::spec_join_url(self.client.base_url@, algo_api_path(self.algo_uri@)) {
                Ok(u) => r matches Ok(req) && is_call_request(
                    req,
                    self.client,
                    url_with_pairs(u, self.options.pairs()),
                    content_type@,
                    body@,
                ),
                Err(m) => error::is_inner_error(
                    r,
                    m,
                    "invalid algorithm URI "@ + algo_api_path(self.algo_uri@),
                ),
            },
    {
        let mut url = match self.to_url() {
            Ok(u) => u,
            Err(e) => {
                return Err(e);
            },
        };
        let ghost u0 = url@;
        let n = self.options.len();
        let mut i: usize = 0;
        while i < n
            invariant
                n == self.options.pairs().len(),
                i <= n,
                url@ == url_with_pairs(u0, self.options.pairs().subrange(0, i as int)),
            decreases n - i,
        {
            let (k, v) = self.options.pair_at(i);
            url = append_query_pair(url.as_str(), k, v);
            assert(self.options.pairs().subrange(0, i + 1).drop_last() =~= self.options.pairs().subrange(
                0,
                i as int,
            ));
            i = i + 1;
        }
        assert(self.options.pairs().subrange(0, n as int) =~= self.options.pairs());
        let mut req = self.client.post(url);
        req.headers.push((String::from_str("content-type"), String::from_str(content_type)));
        req.body = Some(body);
        assert(client::header_views(req.headers@) =~= client::request_headers(
            self.client.user_agent@,
            self.client.api_auth,
        ) + seq![("content-type"@, content_type@)]);
        Ok(req)
    }

    /// The request that calls the algorithm with `input`: text as `text/plain`,
    /// JSON printed as `application/json`, binary as `application/octet-stream`.
    pub fn pipe(&self, input: &AlgoIo) -> (r: Result<HttpRequest, Error>)
        requires
            client::auth_valid(self.client.api_auth),
        ensures
            match client::spec_join_url(self.client.base_url@, algo_api_path(self.algo_uri@)) {
                Ok(u) => r matches Ok(req) && is_call_request(
                    req,
                    self.client,
                    url_with_pairs(u, self.options.pairs()),
                    match *input {
                        AlgoIo::Text(_) => "text/plain"@,
                        AlgoIo::Json(_) => "application/json"@,
                        AlgoIo::Binary(_) => "application/octet-stream"@,
                    },
                    match *input {
                        AlgoIo::Text(t) => vstd::utf8::encode_utf8(t@),
                        AlgoIo::Json(v) => vstd::utf8::encode_utf8(json::spec_json_text(v)),
                        AlgoIo::Binary(b) => b@,
                    },
                ),
                Err(m) => error::is_inner_error(
                    r,
                    m,
                    "invalid algorithm URI "@ + algo_api_path(self.algo_uri@),
                ),
            },
    {
        match input {
            AlgoIo::Text(text) => {
                let ct = mime_text_plain();
                self.pipe_as(text.as_str().as_bytes_vec(), ct.as_str())
            },
            AlgoIo::Json(json) => {
                let encoded = json_to_string(json);
                let ct = mime_application_json();
                self.pipe_as(encoded.as_str().as_bytes_vec(), ct.as_str())
            },
            AlgoIo::Binary(bytes) => {
                let ct = mime_application_octet_stream();
                self.pipe_as(bytes.clone(), ct.as_str())
            },
        }
    }

    /// The request that calls the algorithm with a raw JSON string as input,
    /// sent as `application/json` without checking that it is JSON.
    pub fn pipe_json(&self, json_input: &str) -> (r: Result<HttpRequest, Error>)
        requires
            client::auth_valid(self.client.api_auth),
        ensures
            match client::spec_join_url(self.client.base_url@, algo_api_path(self.algo_uri@)) {
                Ok(u) => r matches Ok(req) && is_call_request(
                    req,
                    self.client,
                    url_with_pairs(u, self.options.pairs()),
                    "application/json"@,
                    vstd::utf8::encode_utf8(json_input@),
                ),
                Err(m) => error::is_inner_error(
                    r,
                    m,
                    "invalid algorithm URI "@ + algo_api_path(self.algo_uri@),
                ),
            },
    {
        let ct = mime_application_json();
        self.pipe_as(json_input.as_bytes_vec(), ct.as_str())
    }
}

} // verus!

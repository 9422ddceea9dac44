//! JSON values as the library reads them, with parsing and printing done by `serde_json`.

use vstd::prelude::*;
use vstd::string::*;

verus! {

#[verifier::external_type_specification]
#[verifier::external_body]
pub struct ExJsonNumber(serde_json::Number);

#[verifier::external_type_specification]
#[verifier::external_body]
pub struct ExSerdeJsonValue(serde_json::Value);

/// A JSON number as `serde_json` holds it: an integer that fits `u64`, a
/// negative integer that fits `i64`, or any other number, kept as read.
#[derive(Debug)]
pub enum JsonNumber {
    PosInt(u64),
    NegInt(i64),
    Other(serde_json::Number),
}

/// A JSON value. An object keeps its fields in the order `serde_json` gives
/// them, each key once.
#[derive(Debug)]
pub enum JsonValue {
    Null,
    Bool(bool),
    Number(JsonNumber),
    String(String),
    Array(Vec<JsonValue>),
    Object(Vec<(String, JsonValue)>),
}

/// What `serde_json::from_str::<serde_json::Value>` gives for `text`: the value,
/// or the text of the error.
pub uninterp spec fn spec_parse_json(text: Seq<char>) -> Result<JsonValue, Seq<char>>;

/// What `serde_json::Value::to_string` gives for `value`: its compact JSON text.
pub uninterp spec fn spec_json_text(value: JsonValue) -> Seq<char>;

/// The index of the first field named `key`, at or after `i`, or -1.
pub open spec fn field_index_from(fields: Seq<(String, JsonValue)>, key: Seq<char>, i: int) -> int
    decreases fields.len() - i,
{
    if i < 0 || i >= fields.len() {
        -1
    } else if fields[i].0@ == key {
        i
    } else {
        field_index_from(fields, key, i + 1)
    }
}

/// The value of the first field named `key`.
pub open spec fn object_get(fields: Seq<(String, JsonValue)>, key: Seq<char>) -> Option<JsonValue> {
    let i = field_index_from(fields, key, 0);
    if i < 0 {
        None
    } else {
        Some(fields[i].1)
    }
}

/// The value of field `key` of an object, or none for a missing field or a non-object.
pub open spec fn json_field(v: JsonValue, key: Seq<char>) -> Option<JsonValue> {
    match v {
        JsonValue::Object(fields) => object_get(fields@, key),
        _ => None,
    }
}

/// Field `key`, the `i`-th of `n`, of a value read as a struct the way
/// `serde` reads one: by name in an object, by position in an array of
/// exactly `n` elements.
pub open spec fn struct_field_at(v: JsonValue, key: Seq<char>, i: int, n: int) -> Option<JsonValue> {
    match v {
        JsonValue::Object(_) => json_field(v, key),
        JsonValue::Array(a) => if a@.len() == n {
            Some(a@[i])
        } else {
            None
        },
        _ => None,
    }
}

/// `v` can be read as a struct of `n` fields: an object, or an array of `n` elements.
pub open spec fn is_struct_like(v: JsonValue, n: int) -> bool {
    match v {
        JsonValue::Object(_) => true,
        JsonValue::Array(a) => a@.len() == n,
        _ => false,
    }
}

/// The text of a JSON string.
pub open spec fn json_str(v: JsonValue) -> Option<Seq<char>> {
    match v {
        JsonValue::String(s) => Some(s@),
        _ => None,
    }
}

pub proof fn lemma_field_index_from(fields: Seq<(String, JsonValue)>, key: Seq<char>, i: int)
    requires
        0 <= i,
    ensures
        ({
            let r = field_index_from(fields, key, i);
            &&& r < 0 ==> r == -1 && forall|j: int| i <= j < fields.len() ==> fields[j].0@ != key
            &&& r >= 0 ==> i <= r < fields.len() && fields[r].0@ == key && forall|j: int|
                i <= j < r ==> fields[j].0@ != key
        }),
    decreases fields.len() - i,
{
    if i < fields.len() && fields[i].0@ != key {
        lemma_field_index_from(fields, key, i + 1);
    }
}

/// Converts a `serde_json::Number` into a `JsonNumber`, telling its kinds apart
/// with `as_u64` and `as_i64`.
#[verifier::external_body]
fn number_from_serde(n: serde_json::Number) -> JsonNumber {
    match n.as_u64() {
        Some(u) => JsonNumber::PosInt(u),
        None => match n.as_i64() {
            Some(i) => JsonNumber::NegInt(i),
            None => JsonNumber::Other(n),
        },
    }
}

/// Converts a `JsonNumber` back into a `serde_json::Number`.
#[verifier::external_body]
fn number_to_serde(n: &JsonNumber) -> serde_json::Number {
    match n {
        JsonNumber::PosInt(u) => serde_json::Number::from(*u),
        JsonNumber::NegInt(i) => serde_json::Number::from(*i),
        JsonNumber::Other(n) => n.clone(),
    }
}

/// Converts a value read by `serde_json` into a `JsonValue`, one variant for one.
#[verifier::external_body]
fn from_serde(v: serde_json::Value) -> JsonValue {
    match v {
        serde_json::Value::Null => JsonValue::Null,
        serde_json::Value::Bool(b) => JsonValue::Bool(b),
        serde_json::Value::Number(n) => JsonValue::Number(number_from_serde(n)),
        serde_json::Value::String(s) => JsonValue::String(s),
        serde_json::Value::Array(a) => JsonValue::Array(a.into_iter().map(from_serde).collect()),
        serde_json::Value::Object(o) => JsonValue::Object(
            o.into_iter().map(|(k, v)| (k, from_serde(v))).collect(),
        ),
    }
}

/// Converts a `JsonValue` into a `serde_json::Value`, one variant for one.
#[verifier::external_body]
fn to_serde(v: &JsonValue) -> serde_json::Value {
    match v {
        JsonValue::Null => serde_json::Value::Null,
        JsonValue::Bool(b) => serde_json::Value::Bool(*b),
        JsonValue::Number(n) => serde_json::Value::Number(number_to_serde(n)),
        JsonValue::String(s) => serde_json::Value::String(s.clone()),
        JsonValue::Array(a) => serde_json::Value::Array(a.iter().map(to_serde).collect()),
        JsonValue::Object(o) => serde_json::Value::Object(
            o.iter().map(|(k, v)| (k.clone(), to_serde(v))).collect(),
        ),
    }
}

/// Parses JSON text with `serde_json::from_str::<serde_json::Value>`.
/// Claimed: the result is `spec_parse_json` of the text; on an error, the text
/// of `serde_json::Error`'s `Display`.
#[verifier::external_body]
pub fn value_from_str(text: &str) -> (r: Result<JsonValue, String>)
    ensures
        match r {
            Ok(v) => spec_parse_json(text@) == Ok::<JsonValue, Seq<char>>(v),
            Err(e) => spec_parse_json(text@) == Err::<JsonValue, Seq<char>>(e@),
        },
{
    serde_json::from_str::<serde_json::Value>(text).map(from_serde).map_err(|e| e.to_string())
}

/// Prints a value with `serde_json::Value::to_string` (compact JSON).
/// Claimed: the result is `spec_json_text` of the value.
#[verifier::external_body]
pub(crate) fn json_to_string(value: &JsonValue) -> (r: String)
    ensures
        r@ == spec_json_text(*value),
{
    to_serde(value).to_string()
}

impl JsonValue {
    /// The text of a JSON string (`serde_json::Value::as_str`).
    pub fn as_str(&self) -> (r: Option<&str>)
        ensures
            match r {
                Some(s) => json_str(*self) == Some(s@),
                None => json_str(*self) is None,
            },
    {
        match self {
            JsonValue::String(s) => Some(s.as_str()),
            _ => None,
        }
    }

    /// The value of field `key` of an object (`serde_json::Value::get`).
    #[verifier::loop_isolation(false)]
    pub fn get(&self, key: &str) -> (r: Option<&JsonValue>)
        ensures
            match r {
                Some(v) => json_field(*self, key@) == Some(*v),
                None => json_field(*self, key@) is None,
            },
    {
        match self {
            JsonValue::Object(fields) => {
                let k = String::from_str(key);
                let n = fields.len();
                let mut i: usize = 0;
                while i < n
                    invariant
                        n == fields@.len(),
                        i <= n,
                        k@ == key@,
                        field_index_from(fields@, key@, 0) == field_index_from(
                            fields@,
                            key@,
                            i as int,
                        ),
                    decreases n - i,
                {
                    if fields[i].0 == k {
                        assert(fields@[i as int].0@ == key@);
                        assert(field_index_from(fields@, key@, i as int) == i);
                        return Some(&fields[i].1);
                    }
                    i = i + 1;
                }
                None
            },
            _ => None,
        }
    }

    /// Removes field `key` from an object and returns its value
    /// (`serde_json::Map::remove` on `as_object_mut`); the other fields stay.
    #[verifier::loop_isolation(false)]
    pub fn take_field(&mut self, key: &str) -> (r: Option<JsonValue>)
        ensures
            r == json_field(*old(self), key@),
            forall|other: Seq<char>|
                other != key@ ==> json_field(*final(self), other) == json_field(*old(self), other),
    {
        match self {
            JsonValue::Object(fields) => {
                let k = String::from_str(key);
                let n = fields.len();
                let mut i: usize = 0;
                let ghost before = fields@;
                while i < n
                    invariant
                        n == fields@.len(),
                        fields@ == before,
                        i <= n,
                        k@ == key@,
                        field_index_from(fields@, key@, 0) == field_index_from(
                            fields@,
                            key@,
                            i as int,
                        ),
                    decreases n - i,
                {
                    if fields[i].0 == k {
                        assert(fields@[i as int].0@ == key@);
                        assert(field_index_from(fields@, key@, i as int) == i);
                        let (_, v) = fields.remove(i);
                        assert(v == before[i as int].1);
                        proof {
                            assert forall|other: Seq<char>| other != key@ implies object_get(
                                fields@,
                                other,
                            ) == object_get(before, other) by {
                                lemma_remove_other_field(before, key@, i as int, other);
                            }
                        }
                        return Some(v);
                    }
                    i = i + 1;
                }
                None
            },
            _ => None,
        }
    }
}

pub proof fn lemma_field_index_is(fields: Seq<(String, JsonValue)>, key: Seq<char>, k: int)
    requires
        0 <= k < fields.len(),
        fields[k].0@ == key,
        forall|j: int| 0 <= j < k ==> fields[j].0@ != key,
    ensures
        field_index_from(fields, key, 0) == k,
{
    lemma_field_index_from(fields, key, 0);
}

pub proof fn lemma_field_index_none(fields: Seq<(String, JsonValue)>, key: Seq<char>)
    requires
        forall|j: int| 0 <= j < fields.len() ==> fields[j].0@ != key,
    ensures
        field_index_from(fields, key, 0) == -1,
{
    lemma_field_index_from(fields, key, 0);
}

/// Removing the first field named `key` leaves the lookup of every other key unchanged.
proof fn lemma_remove_other_field(
    fields: Seq<(String, JsonValue)>,
    key: Seq<char>,
    i: int,
    other: Seq<char>,
)
    requires
        field_index_from(fields, key, 0) == i,
        i >= 0,
        other != key,
    ensures
        object_get(fields.remove(i), other) == object_get(fields, other),
{
    lemma_field_index_from(fields, key, 0);
    lemma_field_index_from(fields, other, 0);
    let rest = fields.remove(i);
    let j = field_index_from(fields, other, 0);
    if j < 0 {
        assert forall|m: int| 0 <= m < rest.len() implies rest[m].0@ != other by {
            if m < i {
                assert(rest[m] == fields[m]);
            } else {
                assert(rest[m] == fields[m + 1]);
            }
        }
        lemma_field_index_none(rest, other);
    } else if j < i {
        assert(rest[j] == fields[j]);
        assert forall|m: int| 0 <= m < j implies rest[m].0@ != other by {
            assert(rest[m] == fields[m]);
        }
        lemma_field_index_is(rest, other, j);
    } else {
        assert(j != i);
        assert(rest[j - 1] == fields[j]);
        assert forall|m: int| 0 <= m < j - 1 implies rest[m].0@ != other by {
            if m < i {
                assert(rest[m] == fields[m]);
            } else {
                assert(rest[m] == fields[m + 1]);
            }
        }
        lemma_field_index_is(rest, other, j - 1);
    }
}

/// Field `key`, the `i`-th of `n`, of a value read as a struct (see `struct_field_at`).
pub fn struct_field<'a>(v: &'a JsonValue, key: &str, i: usize, n: usize) -> (r: Option<&'a JsonValue>)
    requires
        i < n,
    ensures
        match r {
            Some(x) => struct_field_at(*v, key@, i as int, n as int) == Some(*x),
            None => struct_field_at(*v, key@, i as int, n as int) is None,
        },
{
    match v {
        JsonValue::Object(_) => v.get(key),
        JsonValue::Array(a) => if a.len() == n {
            Some(&a[i])
        } else {
            None
        },
        _ => None,
    }
}

} // verus!

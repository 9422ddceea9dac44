//! The entry point of a Rust algorithm: the methods an algorithm implements,
//! and how an input is handed to them.

use vstd::prelude::*;
use vstd::string::*;
use crate::algo::algorithm::AlgoIo;
use crate::error::{ApiError, Error, ErrorKind};
use crate::json;
use crate::json::JsonValue;
use crate::text::str_eq;

verus! {

/// The error is an API error of type `UnsupportedError`.
pub open spec fn is_unsupported(e: Error) -> bool {
    match e.kind {
        ErrorKind::Api(a) => match a.error_type {
            Some(t) => t@ == "UnsupportedError"@,
            None => false,
        },
        _ => false,
    }
}

/// `r` is the error that a method gives for input it does not support.
pub open spec fn is_unsupported_error(r: Result<AlgoIo, Error>, message: Seq<char>) -> bool {
    match r {
        Err(e) => is_unsupported(e) && (match e.kind {
            ErrorKind::Api(a) => a.message@ == message,
            _ => false,
        }),
        Ok(_) => false,
    }
}

/// Whether the error is an API error of type `UnsupportedError`.
pub fn unsupported(e: &Error) -> (r: bool)
    ensures
        r == is_unsupported(*e),
{
    match &e.kind {
        ErrorKind::Api(a) => match &a.error_type {
            Some(t) => str_eq(t.as_str(), "UnsupportedError"),
            None => false,
        },
        _ => false,
    }
}

/// The error for input that a method does not support.
fn unsupported_error(message: &str) -> (r: Result<AlgoIo, Error>)
    ensures
        is_unsupported_error(r, message@),
{
    Err(Error::from_api_error(ApiError::new("UnsupportedError", message)))
}

/// What `apply` does after the first method it called returned.
#[derive(Debug)]
pub enum ApplyNext {
    /// Return this.
    Done(Result<AlgoIo, Error>),
    /// Call `apply_json` with this value.
    TryJson(JsonValue),
    /// Call `apply_str` with this text.
    TryStr(String),
}

/// What `apply` does after the first call on `input` returned `first`: an
/// `UnsupportedError` for text tries the text as a JSON string, and for a
/// JSON string tries its text; anything else is returned.
pub fn after_first_try(input: &AlgoIo, first: Result<AlgoIo, Error>) -> (r: ApplyNext)
    ensures
        match first {
            Ok(o) => r == ApplyNext::Done(Ok(o)),
            Err(e) => if is_unsupported(e) {
                match *input {
                    AlgoIo::Text(t) => r matches ApplyNext::TryJson(JsonValue::String(s)) && s@ == t@,
                    AlgoIo::Json(JsonValue::String(s)) => r matches ApplyNext::TryStr(x) && x@ == s@,
                    _ => r == ApplyNext::Done(Err(e)),
                }
            } else {
                r == ApplyNext::Done(Err(e))
            },
        },
{
    match first {
        Ok(o) => ApplyNext::Done(Ok(o)),
        Err(e) => {
            if !unsupported(&e) {
                return ApplyNext::Done(Err(e));
            }
            match input {
                AlgoIo::Text(t) => ApplyNext::TryJson(JsonValue::String(t.clone())),
                AlgoIo::Json(JsonValue::String(s)) => ApplyNext::TryStr(s.clone()),
                _ => ApplyNext::Done(Err(e)),
            }
        },
    }
}

/// The result is an `UnsupportedError`.
pub open spec fn fails_unsupported(r: Result<AlgoIo, Error>) -> bool {
    match r {
        Err(e) => is_unsupported(e),
        Ok(_) => false,
    }
}

/// Implementing an algorithm involves overriding at least one of these methods
///
/// A method that is not overridden returns an `UnsupportedError` and leaves
/// the algorithm as it was. What `apply` promises is stated over the calls it
/// makes: for each, the algorithm's state and the argument handed over, and
/// that the result is one the method called may return (`call_ensures`).
pub trait EntryPoint: Default {
    /// Override to handle string input
    fn apply_str(&mut self, text: &str) -> (r: Result<AlgoIo, Error>)
        default_ensures
            is_unsupported_error(r, "String input is not supported"@),
            *final(self) == *old(self),
    {
        unsupported_error("String input is not supported")
    }

    /// Override to handle JSON input
    fn apply_json(&mut self, json: &JsonValue) -> (r: Result<AlgoIo, Error>)
        default_ensures
            is_unsupported_error(r, "JSON input is not supported"@),
            *final(self) == *old(self),
    {
        unsupported_error("JSON input is not supported")
    }

    /// Override to handle binary input
    fn apply_bytes(&mut self, bytes: &[u8]) -> (r: Result<AlgoIo, Error>)
        default_ensures
            is_unsupported_error(r, "Binary input is not supported"@),
            *final(self) == *old(self),
    {
        unsupported_error("Binary input is not supported")
    }

    /// The default implementation of this method calls `apply_str`,
    /// `apply_json`, or `apply_bytes` based on the input type. If that call
    /// returns an `UnsupportedError`, text is tried again with `apply_json` (as
    /// a JSON string), and a JSON string with `apply_str`; the result is the
    /// last call's. Binary input makes the one call.
    ///
    /// Each call `m.method(arg)` is stated by the state `*m` it starts from,
    /// the state `*final(m)` it leaves, the argument, and its result.
    fn apply(&mut self, input: AlgoIo) -> (r: Result<AlgoIo, Error>)
        default_ensures
            match input {
                AlgoIo::Binary(b) => exists|m: &mut Self, a: &[u8]|
                    #![trigger call_ensures(Self::apply_bytes, (m, a), r)]
                    *m == *old(self) && *final(m) == *final(self) && a@ == b@ && call_ensures(
                        Self::apply_bytes,
                        (m, a),
                        r,
                    ),
                AlgoIo::Text(t) => exists|m: &mut Self, a: &str, r1: Result<AlgoIo, Error>|
                    #![trigger call_ensures(Self::apply_str, (m, a), r1)]
                    *m == *old(self) && a@ == t@ && call_ensures(Self::apply_str, (m, a), r1) && if fails_unsupported(r1) {
                        exists|m2: &mut Self, j: &JsonValue|
                            #![trigger call_ensures(Self::apply_json, (m2, j), r)]
                            *m2 == *final(m) && *final(m2) == *final(self) && json::json_str(*j)
                                == Some(t@) && call_ensures(Self::apply_json, (m2, j), r)
                    } else {
                        *final(self) == *final(m) && r == r1
                    },
                AlgoIo::Json(v) => exists|m: &mut Self, a: &JsonValue, r1: Result<AlgoIo, Error>|
                    #![trigger call_ensures(Self::apply_json, (m, a), r1)]
                    *m == *old(self) && *a == v && call_ensures(Self::apply_json, (m, a), r1) && if fails_unsupported(r1) && v is String {
                        exists|m2: &mut Self, x: &str|
                            #![trigger call_ensures(Self::apply_str, (m2, x), r)]
                            *m2 == *final(m) && *final(m2) == *final(self) && x@ == v->String_0@
                                && call_ensures(Self::apply_str, (m2, x), r)
                    } else {
                        *final(self) == *final(m) && r == r1
                    },
            },
    {
        let first = match &input {
            AlgoIo::Text(text) => {
                let f = Self::apply_str;
                f(self, text.as_str())
            },
            AlgoIo::Json(json) => {
                let f = Self::apply_json;
                f(self, json)
            },
            AlgoIo::Binary(bytes) => {
                let f = Self::apply_bytes;
                return f(self, bytes.as_slice());
            },
        };
        match after_first_try(&input, first) {
            ApplyNext::Done(r) => r,
            ApplyNext::TryJson(json) => {
                let f = Self::apply_json;
                f(self, &json)
            },
            ApplyNext::TryStr(text) => {
                let f = Self::apply_str;
                f(self, text.as_str())
            },
        }
    }
}

} // verus!

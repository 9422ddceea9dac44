//! Metadata that the Data API sends in response headers: the data type, the
//! content length and the date of the response.

use vstd::prelude::*;
use vstd::string::*;
use crate::client;
use crate::client::get_header;
use crate::error;
use crate::error::{ApiError, Error, ErrorKind};
use crate::num;
use crate::num::parse_unsigned_exec;
use crate::text::str_eq;

verus! {

/// A point in time: whole seconds since the Unix epoch, and nanoseconds.
#[derive(Debug, Clone, Copy, PartialEq, Eq, Structural)]
pub struct Timestamp {
    pub secs: i64,
    pub nanos: u32,
}

/// The time used where the API names none: 2015-03-14 08:00:00 UTC.
pub open spec fn launch_time_spec() -> Timestamp {
    Timestamp { secs: 1426320000, nanos: 0 }
}

/// The time used where the API names none: 2015-03-14 08:00:00 UTC.
pub fn launch_time() -> (r: Timestamp)
    ensures
        r == launch_time_spec(),
{
    Timestamp { secs: 1426320000, nanos: 0 }
}

/// Minimal representation of data type
#[derive(Debug, Clone, Copy, PartialEq, Eq, Structural)]
pub enum DataType {
    File,
    Dir,
}

/// The metadata of a Data API response.
#[derive(Debug, Clone, Copy, PartialEq, Eq, Structural)]
pub struct HeaderData {
    pub data_type: DataType,
    pub content_length: Option<u64>,
    pub last_modified: Option<Timestamp>,
}

/// What `httpdate::parse_http_date` gives for `text`, as whole seconds since
/// the Unix epoch, or none where it fails.
pub uninterp spec fn spec_parse_http_date(text: Seq<char>) -> Option<u64>;

/// Parses an HTTP date with `httpdate::parse_http_date`.
/// Claimed: the result is `spec_parse_http_date` of the text; the crate builds
/// its time from whole seconds and accepts years 1970 to 9999 only, so a
/// parsed date lies before the year 10000.
#[verifier::external_body]
fn parse_http_date(text: &str) -> (r: Option<u64>)
    ensures
        r == spec_parse_http_date(text@),
        r matches Some(s) ==> s < 253402300800,
{
    match httpdate::parse_http_date(text) {
        Ok(t) => match t.duration_since(std::time::UNIX_EPOCH) {
            Ok(d) => Some(d.as_secs()),
            Err(_) => None,
        },
        Err(_) => None,
    }
}

/// `chrono::DateTime::from_timestamp` accepts these seconds and nanoseconds
/// (for a time from 1970 to 9999): nanoseconds under a second, or under two
/// seconds on the last second of a minute (a leap second).
pub open spec fn chrono_timestamp_ok(secs: int, nanos: int) -> bool {
    nanos < 1_000_000_000 || (nanos < 2_000_000_000 && secs % 60 == 59)
}

/// Whether `chrono::DateTime::from_timestamp(secs, nanos)` is `Some`.
/// Claimed (from chrono's `NaiveTime::from_num_seconds_from_midnight_opt`):
/// exactly `chrono_timestamp_ok`, for times from 1970 to 9999.
#[verifier::external_body]
fn chrono_accepts(secs: i64, nanos: u32) -> (r: bool)
    requires
        0 <= secs < 253402300800,
    ensures
        r == chrono_timestamp_ok(secs as int, nanos as int),
{
    chrono::DateTime::from_timestamp(secs, nanos).is_some()
}

/// The nanoseconds the response date is given: the whole time since the epoch
/// in nanoseconds, cut to 32 bits.
pub open spec fn date_nanos(secs: nat) -> nat {
    (secs * 1_000_000_000) % 0x1_0000_0000
}

/// The data type a `x-data-type` header names.
pub open spec fn named_data_type(t: Seq<char>) -> Option<DataType> {
    if t == "directory"@ {
        Some(DataType::Dir)
    } else if t == "file"@ {
        Some(DataType::File)
    } else {
        None
    }
}

/// The `content-length` header, if any, is a `u64`.
pub open spec fn content_length_ok(h: Seq<(String, String)>) -> bool {
    client::header_get(h, "content-length"@) matches Some(v) ==> num::parse_unsigned(
        v,
        u64::MAX as nat,
    ) is Some
}

/// The content length the headers give.
pub open spec fn content_length_of(h: Seq<(String, String)>) -> Option<u64> {
    match client::header_get(h, "content-length"@) {
        Some(v) => Some(num::parse_unsigned(v, u64::MAX as nat)->0 as u64),
        None => None,
    }
}

/// The `date` header, if any, is an HTTP date whose time chrono accepts.
pub open spec fn date_ok(h: Seq<(String, String)>) -> bool {
    client::header_get(h, "date"@) matches Some(v) ==> (spec_parse_http_date(v) matches Some(s)
        && chrono_timestamp_ok(s as int, date_nanos(s as nat) as int))
}

/// The time the `date` header gives.
pub open spec fn date_of(h: Seq<(String, String)>) -> Option<Timestamp> {
    match client::header_get(h, "date"@) {
        Some(v) => match spec_parse_http_date(v) {
            Some(s) => Some(Timestamp { secs: s as i64, nanos: date_nanos(s as nat) as u32 }),
            None => None,
        },
        None => None,
    }
}

/// The message for a response without a data type.
pub open spec fn missing_data_type_text() -> Seq<char> {
    "API response missing data type"@
}

/// The message for a response with an unknown data type `t`.
pub open spec fn invalid_data_type_text(t: Seq<char>) -> Seq<char> {
    "API responded with invalid data type: '"@ + t + "'"@
}

/// The metadata of headers that name the data type `dt`.
pub open spec fn header_data_of(h: Seq<(String, String)>, dt: DataType) -> HeaderData {
    HeaderData { data_type: dt, content_length: content_length_of(h), last_modified: date_of(h) }
}

/// What reading the headers `h` gives: an API error for an `x-error-message`
/// header, an error for a missing or unknown data type, else an outcome that
/// `ok` relates to the metadata; none where the content length or the date
/// cannot be read.
pub open spec fn headers_outcome<T>(
    h: Seq<(String, String)>,
    r: Option<Result<T, Error>>,
    ok: spec_fn(HeaderData, Result<T, Error>) -> bool,
) -> bool {
    match client::header_get(h, "x-error-message"@) {
        Some(m) => r matches Some(Err(e)) && e.kind matches ErrorKind::Api(a) && a.message@ == m
            && a.error_type is None && a.stacktrace is None && e.ctx@ == Seq::<char>::empty(),
        None => match client::header_get(h, "x-data-type"@) {
            None => r matches Some(res) && error::is_client_error(res, missing_data_type_text()),
            Some(t) => match named_data_type(t) {
                None => r matches Some(res) && error::is_client_error(
                    res,
                    invalid_data_type_text(t),
                ),
                Some(dt) => if content_length_ok(h) && date_ok(h) {
                    r matches Some(res) && ok(header_data_of(h, dt), res)
                } else {
                    r is None
                },
            },
        },
    }
}

/// The time of a response date of `secs` seconds, with its nanoseconds cut to 32 bits.
fn date_timestamp(secs: u64) -> (r: Timestamp)
    requires
        secs < 253402300800,
    ensures
        r.secs == secs,
        r.nanos == date_nanos(secs as nat),
{
    let total: u128 = (secs as u128) * 1_000_000_000u128;
    let nanos: u128 = total % 0x1_0000_0000u128;
    Timestamp { secs: secs as i64, nanos: nanos as u32 }
}

/// Reads the metadata of a Data API response from its headers: an
/// `x-error-message` header is an API error; `x-data-type` must name a
/// directory or a file. The result is none where the `content-length` is no
/// `u64`, or the `date` is no HTTP date that chrono can hold.
pub fn parse_headers(headers: &Vec<(String, String)>) -> (r: Option<Result<HeaderData, Error>>)
    ensures
        headers_outcome(
            headers@,
            r,
            |d: HeaderData, res: Result<HeaderData, Error>| res == Ok::<HeaderData, Error>(d),
        ),
{
    proof {
        reveal_strlit("directory");
        reveal_strlit("file");
    }
    if let Some(m) = get_header(headers, "x-error-message") {
        let err = ApiError { message: m.clone(), error_type: None, stacktrace: None };
        return Some(Err(Error::from_api_error(err)));
    }
    let data_type = match get_header(headers, "x-data-type") {
        None => {
            return Some(Err(Error::from_message(String::from_str("API response missing data type"))));
        },
        Some(t) => {
            if str_eq(t.as_str(), "directory") {
                DataType::Dir
            } else if str_eq(t.as_str(), "file") {
                DataType::File
            } else {
                let mut msg = String::from_str("API responded with invalid data type: '");
                msg.append(t.as_str());
                msg.append("'");
                return Some(Err(Error::from_message(msg)));
            }
        },
    };
    let content_length = match get_header(headers, "content-length") {
        None => None,
        Some(v) => match parse_unsigned_exec(v.as_str(), u64::MAX) {
            Some(n) => Some(n),
            None => {
                return None;
            },
        },
    };
    let last_modified = match get_header(headers, "date") {
        None => None,
        Some(v) => match parse_http_date(v.as_str()) {
            Some(s) => {
                let t = date_timestamp(s);
                if !chrono_accepts(t.secs, t.nanos) {
                    return None;
                }
                Some(t)
            },
            None => {
                return None;
            },
        },
    };
    Some(Ok(HeaderData { data_type, content_length, last_modified }))
}

/// What `str::parse::<chrono::DateTime<chrono::Utc>>` gives for `text` (an
/// RFC 3339 time): the seconds since the Unix epoch and the nanoseconds, or
/// none where it fails.
pub uninterp spec fn spec_parse_datetime(text: Seq<char>) -> Option<(i64, u32)>;

/// Parses an RFC 3339 time with chrono's `FromStr` for `DateTime<Utc>`.
/// Claimed: the result is `spec_parse_datetime` of the text.
#[verifier::external_body]
pub(crate) fn parse_datetime(text: &str) -> (r: Option<Timestamp>)
    ensures
        match r {
            Some(t) => spec_parse_datetime(text@) == Some((t.secs, t.nanos)),
            None => spec_parse_datetime(text@) is None,
        },
{
    text.parse::<chrono::DateTime<chrono::Utc>>().ok().map(
        |d| Timestamp { secs: d.timestamp(), nanos: d.timestamp_subsec_nanos() },
    )
}

/// What headers `h` give (no error message, a readable `content-length` and
/// `date`): the data type that `x-data-type` names, the number that
/// `content-length` is the decimal text of (none without the header), and
/// the time of the `date` header, its seconds and the nanoseconds of the
/// whole time cut to 32 bits (none without the header).
pub proof fn law_headers_read(h: Seq<(String, String)>, r: Option<Result<HeaderData, Error>>)
    requires
        headers_outcome(h, r, |d: HeaderData, res: Result<HeaderData, Error>| res == Ok::<HeaderData, Error>(d)),
        client::header_get(h, "x-error-message"@) is None,
        client::header_get(h, "x-data-type"@) == Some("file"@) || client::header_get(h, "x-data-type"@)
            == Some("directory"@),
        content_length_ok(h),
        date_ok(h),
    ensures
        r matches Some(Ok(d)) && (d.data_type is File <==> client::header_get(h, "x-data-type"@) == Some(
            "file"@,
        )) && (forall|n: u64|
            client::header_get(h, "content-length"@) == Some(#[trigger] num::decimal(n as nat))
                ==> d.content_length == Some(n)) && (client::header_get(h, "content-length"@) is None
            ==> d.content_length is None) && (forall|s: u64|
            #![trigger spec_parse_http_date(client::header_get(h, "date"@)->0), date_nanos(s as nat)]
            client::header_get(h, "date"@) is Some && spec_parse_http_date(
                client::header_get(h, "date"@)->0,
            ) == Some(s) ==> d.last_modified == Some(
                Timestamp { secs: s as i64, nanos: ((s as nat * 1_000_000_000) % 0x1_0000_0000) as u32 },
            )) && (client::header_get(h, "date"@) is None ==> d.last_modified is None),
{
    reveal_strlit("file");
    reveal_strlit("directory");
    assert("file"@.len() != "directory"@.len());
    assert forall|n: u64|
        client::header_get(h, "content-length"@) == Some(#[trigger] num::decimal(n as nat)) implies content_length_of(h)
            == Some(n) by {
        num::law_parse_decimal(n as nat, u64::MAX as nat);
    }
}

} // verus!

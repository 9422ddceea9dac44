//! Data collections of the earlier data API (`data/<user>/<collection>`):
//! their paths, their requests, and the responses that describe them.

use vstd::prelude::*;
use vstd::string::*;
use crate::client;
use crate::client::{HttpClient, HttpRequest, join_url, parse_url, utf8_text};
use crate::error;
use crate::error::{ApiErrorResponse, Error, ErrorKind};
use crate::json;
use crate::json::{JsonNumber, JsonValue, value_from_str};
use crate::text;
use crate::text::substring;
use crate::data::path::trim_trailing_slashes;

verus! {

/// The API path of collections.
pub const COLLECTION_BASE_PATH: &'static str = "data";

/// The index of the last `c` in `s`, or -1.
pub open spec fn last_index_of(s: Seq<char>, c: char) -> int
    decreases s.len(),
{
    if s.len() == 0 {
        -1
    } else if s.last() == c {
        s.len() - 1
    } else {
        last_index_of(s.drop_last(), c)
    }
}

proof fn lemma_last_index_of(s: Seq<char>, c: char)
    ensures
        -1 <= last_index_of(s, c) < s.len(),
        last_index_of(s, c) >= 0 ==> s[last_index_of(s, c)] == c,
        forall|j: int| last_index_of(s, c) < j < s.len() ==> s[j] != c,
    decreases s.len(),
{
    if s.len() > 0 && s.last() != c {
        let t = s.drop_last();
        lemma_last_index_of(t, c);
        assert forall|j: int| last_index_of(s, c) < j < s.len() implies s[j] != c by {
            if j < t.len() {
                assert(s[j] == t[j]);
            }
        }
    }
}

/// The parent path of a collection (unix `dirname`): the `/`s it ends with
/// are dropped, then its last component and the `/`s before that; `.` for a
/// path without a `/`, and `/` for the root.
pub open spec fn collection_parent(path: Seq<char>) -> Seq<char> {
    let t = trim_trailing_slashes(path);
    let k = last_index_of(t, '/');
    if t.len() == 0 {
        if path.len() > 0 {
            seq!['/']
        } else {
            seq!['.']
        }
    } else if k < 0 {
        seq!['.']
    } else {
        let w = trim_trailing_slashes(t.subrange(0, k));
        if w.len() == 0 {
            seq!['/']
        } else {
            w
        }
    }
}

/// The basename of a collection (unix `basename`): the `/`s it ends with are
/// dropped, then what comes after the last `/`; a path of `/`s only is `/`.
pub open spec fn collection_basename(path: Seq<char>) -> Seq<char> {
    let t = trim_trailing_slashes(path);
    if t.len() == 0 && path.len() > 0 {
        seq!['/']
    } else {
        t.subrange(last_index_of(t, '/') + 1, t.len() as int)
    }
}

/// What trimming the `/`s at the end keeps: a prefix, not ending in `/`,
/// followed only by `/`s.
proof fn lemma_trim(s: Seq<char>)
    ensures
        trim_trailing_slashes(s).len() <= s.len(),
        trim_trailing_slashes(s) =~= s.subrange(0, trim_trailing_slashes(s).len() as int),
        trim_trailing_slashes(s).len() > 0 ==> trim_trailing_slashes(s).last() != '/',
    decreases s.len(),
{
    if s.len() > 0 && s.last() == '/' {
        lemma_trim(s.drop_last());
    } else {
        assert(s.subrange(0, s.len() as int) =~= s);
    }
}

/// The end of `s` up to `end` with the `/`s before it dropped.
fn trimmed_end(s: &str, end: usize) -> (r: usize)
    requires
        end <= s@.len(),
    ensures
        r <= end,
        trim_trailing_slashes(s@.subrange(0, end as int)) == s@.subrange(0, r as int),
{
    let mut i: usize = end;
    while i > 0 && s.get_char(i - 1) == '/'
        invariant
            i <= end,
            end <= s@.len(),
            trim_trailing_slashes(s@.subrange(0, end as int)) == trim_trailing_slashes(
                s@.subrange(0, i as int),
            ),
        decreases i,
    {
        assert(s@.subrange(0, i as int).drop_last() =~= s@.subrange(0, i - 1));
        i = i - 1;
    }
    i
}

/// The index of the last `/` of `s` before `end`.
fn last_slash_in(s: &str, end: usize) -> (r: Option<usize>)
    requires
        end <= s@.len(),
    ensures
        match r {
            Some(k) => k == last_index_of(s@.subrange(0, end as int), '/'),
            None => last_index_of(s@.subrange(0, end as int), '/') < 0,
        },
{
    let mut i: usize = end;
    while i > 0
        invariant
            i <= end,
            end <= s@.len(),
            last_index_of(s@.subrange(0, end as int), '/') == last_index_of(s@.subrange(0, i as int), '/'),
        decreases i,
    {
        let ghost pre = s@.subrange(0, i as int);
        if s.get_char(i - 1) == '/' {
            return Some(i - 1);
        }
        assert(pre.drop_last() =~= s@.subrange(0, i - 1));
        i = i - 1;
    }
    None
}

/// Algorithmia data collection
#[derive(Debug)]
pub struct Collection {
    pub client: HttpClient,
    pub path: String,
}

/// Permissions for a data collection
#[derive(Debug, Clone, Copy, PartialEq, Eq, Structural)]
pub struct CollectionAcl {
    /// Readable by world
    pub read_w: bool,
    /// Readable by group
    pub read_g: bool,
    /// Readable by user
    pub read_u: bool,
    /// Readable by user's algorithms regardless who runs them
    pub read_a: bool,
}

/// Response when creating a new collection
#[derive(Debug)]
pub struct CollectionCreated {
    pub collection_id: u32,
    pub object_id: String,
    pub collection_name: String,
    pub username: String,
    pub acl: CollectionAcl,
}

/// Response when deleting a new collection
#[derive(Debug)]
pub struct CollectionDeleted {
    pub unknown: String,
}

/// Response when querying an existing collection
#[derive(Debug)]
pub struct CollectionShow {
    pub username: String,
    pub collection_name: String,
    pub files: Vec<String>,
}

/// Response when adding a file to a collection
#[derive(Debug)]
pub struct CollectionFileAdded {
    pub result: String,
}

/// Response when deleting a file to a collection
#[derive(Debug)]
pub struct CollectionFileDeleted {
    pub result: String,
}

/// The boolean field `key` of `v`, if it is one.
pub open spec fn bool_field(v: JsonValue, key: Seq<char>) -> Option<bool> {
    match json::json_field(v, key) {
        Some(JsonValue::Bool(b)) => Some(b),
        _ => None,
    }
}

/// The string field `key` of `v`, if it is one.
pub open spec fn text_field(v: JsonValue, key: Seq<char>) -> Option<Seq<char>> {
    match json::json_field(v, key) {
        Some(f) => json::json_str(f),
        None => None,
    }
}

/// `a` is the ACL that `v` describes: four boolean fields.
pub open spec fn acl_of(v: JsonValue, a: CollectionAcl) -> bool {
    &&& bool_field(v, "read_w"@) == Some(a.read_w)
    &&& bool_field(v, "read_g"@) == Some(a.read_g)
    &&& bool_field(v, "read_u"@) == Some(a.read_u)
    &&& bool_field(v, "read_a"@) == Some(a.read_a)
}

/// `v` describes an ACL.
pub open spec fn is_acl(v: JsonValue) -> bool {
    &&& bool_field(v, "read_w"@) is Some
    &&& bool_field(v, "read_g"@) is Some
    &&& bool_field(v, "read_u"@) is Some
    &&& bool_field(v, "read_a"@) is Some
}

/// Each permission of a collection's ACL is the JSON boolean of the same
/// name: `read_w` (world), `read_g` (group), `read_u` (user), `read_a` (the
/// user's algorithms).
pub proof fn law_collection_acl_fields(v: JsonValue, a: CollectionAcl)
    requires
        acl_of(v, a),
    ensures
        json::json_field(v, "read_w"@) == Some(JsonValue::Bool(a.read_w)),
        json::json_field(v, "read_g"@) == Some(JsonValue::Bool(a.read_g)),
        json::json_field(v, "read_u"@) == Some(JsonValue::Bool(a.read_u)),
        json::json_field(v, "read_a"@) == Some(JsonValue::Bool(a.read_a)),
{
}

/// A value with the four boolean permissions describes an ACL.
pub proof fn law_collection_acl_accepted(v: JsonValue)
    requires
        json::json_field(v, "read_w"@) matches Some(JsonValue::Bool(_)),
        json::json_field(v, "read_g"@) matches Some(JsonValue::Bool(_)),
        json::json_field(v, "read_u"@) matches Some(JsonValue::Bool(_)),
        json::json_field(v, "read_a"@) matches Some(JsonValue::Bool(_)),
    ensures
        is_acl(v),
{
}

/// The collection id of `v`, if its `collection_id` is a `u32`.
pub open spec fn id_field(v: JsonValue) -> Option<u32> {
    match json::json_field(v, "collection_id"@) {
        Some(JsonValue::Number(JsonNumber::PosInt(n))) => if n <= u32::MAX {
            Some(n as u32)
        } else {
            None
        },
        _ => None,
    }
}

/// `v` describes a created collection.
pub open spec fn is_created(v: JsonValue) -> bool {
    &&& id_field(v) is Some
    &&& text_field(v, "object_id"@) is Some
    &&& text_field(v, "collection_name"@) is Some
    &&& text_field(v, "username"@) is Some
    &&& json::json_field(v, "acl"@) matches Some(a) && is_acl(a)
}

/// `c` is the created collection that `v` describes.
pub open spec fn created_of(v: JsonValue, c: CollectionCreated) -> bool {
    &&& id_field(v) == Some(c.collection_id)
    &&& text_field(v, "object_id"@) == Some(c.object_id@)
    &&& text_field(v, "collection_name"@) == Some(c.collection_name@)
    &&& text_field(v, "username"@) == Some(c.username@)
    &&& json::json_field(v, "acl"@) matches Some(a) && acl_of(a, c.acl)
}

/// `v` describes a collection: its user, its name and its files.
pub open spec fn is_show(v: JsonValue) -> bool {
    &&& text_field(v, "username"@) is Some
    &&& text_field(v, "collection_name"@) is Some
    &&& json::json_field(v, "files"@) matches Some(JsonValue::Array(a)) && forall|i: int|
        0 <= i < a@.len() ==> (#[trigger] json::json_str(a@[i])) is Some
}

/// `s` is the collection that `v` describes.
pub open spec fn show_of(v: JsonValue, s: CollectionShow) -> bool {
    &&& text_field(v, "username"@) == Some(s.username@)
    &&& text_field(v, "collection_name"@) == Some(s.collection_name@)
    &&& json::json_field(v, "files"@) matches Some(JsonValue::Array(a)) && a@.len() == s.files@.len()
        && forall|i: int| 0 <= i < a@.len() ==> json::json_str(#[trigger] a@[i]) == Some(s.files@[i]@)
}

/// A created collection is read from its JSON fields: `collection_id`, and
/// the texts of `object_id`, `collection_name` and `username`, and its `acl`.
pub proof fn law_collection_created_fields(v: JsonValue, c: CollectionCreated)
    requires
        created_of(v, c),
    ensures
        json::json_field(v, "collection_id"@) == Some(
            JsonValue::Number(JsonNumber::PosInt(c.collection_id as u64)),
        ),
        json::json_field(v, "object_id"@) matches Some(JsonValue::String(s)) && s@ == c.object_id@,
        json::json_field(v, "collection_name"@) matches Some(JsonValue::String(s)) && s@
            == c.collection_name@,
        json::json_field(v, "username"@) matches Some(JsonValue::String(s)) && s@ == c.username@,
        json::json_field(v, "acl"@) matches Some(a) && json::json_field(a, "read_w"@) == Some(
            JsonValue::Bool(c.acl.read_w),
        ) && json::json_field(a, "read_g"@) == Some(JsonValue::Bool(c.acl.read_g))
            && json::json_field(a, "read_u"@) == Some(JsonValue::Bool(c.acl.read_u))
            && json::json_field(a, "read_a"@) == Some(JsonValue::Bool(c.acl.read_a)),
{
}

/// A collection is read from its JSON fields: the texts of `username` and
/// `collection_name`, and the texts of the `files` list, in order.
pub proof fn law_collection_show_fields(v: JsonValue, s: CollectionShow)
    requires
        show_of(v, s),
    ensures
        json::json_field(v, "username"@) matches Some(JsonValue::String(u)) && u@ == s.username@,
        json::json_field(v, "collection_name"@) matches Some(JsonValue::String(n)) && n@
            == s.collection_name@,
        json::json_field(v, "files"@) matches Some(JsonValue::Array(a)) && a@.len() == s.files@.len()
            && forall|i: int|
            0 <= i < a@.len() ==> (#[trigger] a@[i] matches JsonValue::String(f) && f@ == s.files@[i]@),
{
    let a = json::json_field(v, "files"@)->0->Array_0;
    assert forall|i: int| 0 <= i < a@.len() implies (#[trigger] a@[i] matches JsonValue::String(f) && f@
        == s.files@[i]@) by {
        assert(json::json_str(a@[i]) == Some(s.files@[i]@));
    }
}

/// What a response text of the collection API gives: the value it
/// describes, else the API error it holds, else an error with the message of
/// the failed decoding and the text as its context.
pub open spec fn collection_outcome<T>(
    text: Seq<char>,
    r: Result<T, Error>,
    ok: spec_fn(JsonValue) -> bool,
    of: spec_fn(JsonValue, T) -> bool,
) -> bool {
    match json::spec_parse_json(text) {
        Err(m) => error::is_inner_error(r, m, text),
        Ok(v) => if ok(v) {
            r matches Ok(t) && of(v, t)
        } else if error::is_api_error_response(v) {
            r matches Err(e) && e.kind matches ErrorKind::Api(a) && error::api_error_field(v)
                matches Some(ev) && error::decodes_api_error(ev, a) && e.ctx@ == Seq::<char>::empty()
        } else {
            error::is_inner_error(r, not_collection_text(), text)
        },
    }
}

/// The message for JSON that does not describe what was asked.
pub open spec fn not_collection_text() -> Seq<char> {
    "JSON does not have the expected fields"@
}

/// The text of the string field `key` of `v`, if it is one.
fn string_of(v: &JsonValue, key: &str) -> (r: Option<String>)
    ensures
        match r {
            Some(s) => text_field(*v, key@) == Some(s@),
            None => text_field(*v, key@) is None,
        },
{
    match v.get(key) {
        Some(JsonValue::String(s)) => Some(s.clone()),
        _ => None,
    }
}

/// The boolean field `key` of `v`, if it is one.
fn bool_of(v: &JsonValue, key: &str) -> (r: Option<bool>)
    ensures
        r == bool_field(*v, key@),
{
    match v.get(key) {
        Some(JsonValue::Bool(b)) => Some(*b),
        _ => None,
    }
}

/// The ACL `v` describes, if it is one.
fn decode_acl(v: &JsonValue) -> (r: Option<CollectionAcl>)
    ensures
        r is Some <==> is_acl(*v),
        r matches Some(a) ==> acl_of(*v, a),
{
    let read_w = match bool_of(v, "read_w") {
        Some(b) => b,
        None => {
            return None;
        },
    };
    let read_g = match bool_of(v, "read_g") {
        Some(b) => b,
        None => {
            return None;
        },
    };
    let read_u = match bool_of(v, "read_u") {
        Some(b) => b,
        None => {
            return None;
        },
    };
    let read_a = match bool_of(v, "read_a") {
        Some(b) => b,
        None => {
            return None;
        },
    };
    Some(CollectionAcl { read_w, read_g, read_u, read_a })
}

/// The error of a response that does not describe what was asked: the API
/// error it holds, if any.
fn not_described(v: &JsonValue, text: &str) -> (r: Error)
    ensures
        error::is_api_error_response(*v) ==> (r.kind matches ErrorKind::Api(a) && error::api_error_field(*v) matches Some(ev) && error::decodes_api_error(ev, a) && r.ctx@ == Seq::<char>::empty()),
        !error::is_api_error_response(*v) ==> (r.kind matches ErrorKind::Inner(m) && m@
            == not_collection_text() && r.ctx@ == text@),
{
    match ApiErrorResponse::from_json_value(v) {
        Some(res) => Error::from_api_error(res.error),
        None => Error::inner(String::from_str("JSON does not have the expected fields"), text),
    }
}

impl CollectionCreated {
    /// Reads the response to a collection's creation.
    pub fn from_response(text: &str) -> (r: Result<CollectionCreated, Error>)
        ensures
            collection_outcome(
                text@,
                r,
                |v: JsonValue| is_created(v),
                |v: JsonValue, c: CollectionCreated| created_of(v, c),
            ),
    {
        let v = match value_from_str(text) {
            Ok(v) => v,
            Err(m) => {
                return Err(Error::inner(m, text));
            },
        };
        let collection_id = match v.get("collection_id") {
            Some(JsonValue::Number(JsonNumber::PosInt(n))) => if *n <= 0xffff_ffffu64 {
                Some(*n as u32)
            } else {
                None
            },
            _ => None,
        };
        let object_id = string_of(&v, "object_id");
        let collection_name = string_of(&v, "collection_name");
        let username = string_of(&v, "username");
        let acl = match v.get("acl") {
            Some(a) => decode_acl(a),
            None => None,
        };
        match (collection_id, object_id, collection_name, username, acl) {
            (Some(collection_id), Some(object_id), Some(collection_name), Some(username), Some(acl)) => {
                Ok(CollectionCreated { collection_id, object_id, collection_name, username, acl })
            },
            _ => Err(not_described(&v, text)),
        }
    }
}

impl CollectionShow {
    /// Reads the response that describes a collection.
    #[verifier::loop_isolation(false)]
    pub fn from_response(text: &str) -> (r: Result<CollectionShow, Error>)
        ensures
            collection_outcome(
                text@,
                r,
                |v: JsonValue| is_show(v),
                |v: JsonValue, s: CollectionShow| show_of(v, s),
            ),
    {
        let v = match value_from_str(text) {
            Ok(v) => v,
            Err(m) => {
                return Err(Error::inner(m, text));
            },
        };
        let username = string_of(&v, "username");
        let collection_name = string_of(&v, "collection_name");
        let files = match v.get("files") {
            Some(JsonValue::Array(a)) => {
                let mut files: Vec<String> = Vec::new();
                let n = a.len();
                let mut i: usize = 0;
                let mut all = true;
                while i < n
                    invariant
                        n == a@.len(),
                        i <= n,
                        all ==> files@.len() == i,
                        all ==> forall|j: int| 0 <= j < i ==> json::json_str(#[trigger] a@[j]) == Some(files@[j]@),
                        !all ==> exists|j: int| 0 <= j < n && (#[trigger] json::json_str(a@[j])) is None,
                    decreases n - i,
                {
                    match &a[i] {
                        JsonValue::String(s) => {
                            if all {
                                files.push(s.clone());
                            }
                        },
                        _ => {
                            all = false;
                        },
                    }
                    i = i + 1;
                }
                if all {
                    Some(files)
                } else {
                    None
                }
            },
            _ => None,
        };
        match (username, collection_name, files) {
            (Some(username), Some(collection_name), Some(files)) => Ok(
                CollectionShow { username, collection_name, files },
            ),
            _ => Err(not_described(&v, text)),
        }
    }
}

/// `v` has the string field `key`, whose text `t` is.
pub open spec fn result_of(v: JsonValue, key: Seq<char>, t: Seq<char>) -> bool {
    text_field(v, key) == Some(t)
}

/// A response with one string field is read as the text of that field.
pub proof fn law_result_field(v: JsonValue, key: Seq<char>, t: Seq<char>)
    requires
        result_of(v, key, t),
    ensures
        json::json_field(v, key) matches Some(JsonValue::String(s)) && s@ == t,
{
}

/// Reads a response with the one string field `key`.
fn single_field(text: &str, key: &str) -> (r: Result<String, Error>)
    ensures
        collection_outcome(
            text@,
            r,
            |v: JsonValue| text_field(v, key@) is Some,
            |v: JsonValue, s: String| result_of(v, key@, s@),
        ),
{
    let v = match value_from_str(text) {
        Ok(v) => v,
        Err(m) => {
            return Err(Error::inner(m, text));
        },
    };
    match string_of(&v, key) {
        Some(s) => Ok(s),
        None => Err(not_described(&v, text)),
    }
}

impl CollectionDeleted {
    /// Reads the response to a collection's deletion.
    pub fn from_response(text: &str) -> (r: Result<CollectionDeleted, Error>)
        ensures
            collection_outcome(
                text@,
                r,
                |v: JsonValue| text_field(v, "unknown"@) is Some,
                |v: JsonValue, d: CollectionDeleted| result_of(v, "unknown"@, d.unknown@),
            ),
    {
        match single_field(text, "unknown") {
            Ok(s) => Ok(CollectionDeleted { unknown: s }),
            Err(e) => Err(e),
        }
    }
}

impl CollectionFileAdded {
    /// Reads the response to a file's upload.
    pub fn from_response(text: &str) -> (r: Result<CollectionFileAdded, Error>)
        ensures
            collection_outcome(
                text@,
                r,
                |v: JsonValue| text_field(v, "result"@) is Some,
                |v: JsonValue, d: CollectionFileAdded| result_of(v, "result"@, d.result@),
            ),
    {
        match single_field(text, "result") {
            Ok(s) => Ok(CollectionFileAdded { result: s }),
            Err(e) => Err(e),
        }
    }
}

impl CollectionFileDeleted {
    /// Reads the response to a file's deletion.
    pub fn from_response(text: &str) -> (r: Result<CollectionFileDeleted, Error>)
        ensures
            collection_outcome(
                text@,
                r,
                |v: JsonValue| text_field(v, "result"@) is Some,
                |v: JsonValue, d: CollectionFileDeleted| result_of(v, "result"@, d.result@),
            ),
    {
        match single_field(text, "result") {
            Ok(s) => Ok(CollectionFileDeleted { result: s }),
            Err(e) => Err(e),
        }
    }
}

/// The API path of a collection at `path`.
pub open spec fn collection_api_path(path: Seq<char>) -> Seq<char> {
    COLLECTION_BASE_PATH@ + "/"@ + path
}

/// The context of an error on the URL of the collection at `path`.
pub open spec fn invalid_collection_text(path: Seq<char>) -> Seq<char> {
    "invalid collection path '"@ + path + "'"@
}

/// `r` is the URL of the collection at `path` for a client at `base`, or the
/// error of joining them.
pub open spec fn collection_url_outcome(base: Seq<char>, path: Seq<char>, r: Result<String, Error>) -> bool {
    match client::spec_join_url(base, collection_api_path(path)) {
        Ok(u) => r matches Ok(s) && s@ == u,
        Err(m) => error::is_inner_error(r, m, invalid_collection_text(path)),
    }
}

/// `req` asks with `method` for `url`, as a client `c`, with `body`.
pub open spec fn is_request_to(
    req: HttpRequest,
    c: HttpClient,
    method: client::Method,
    url: Seq<char>,
    body: Option<Seq<u8>>,
) -> bool {
    &&& req.method == method
    &&& req.url@ == url
    &&& client::header_views(req.headers@) == client::request_headers(c.user_agent@, c.api_auth)
    &&& match body {
        Some(b) => req.body matches Some(rb) && rb@ == b,
        None => req.body is None,
    }
}

/// The URL of the file `name` of the collection at URL `u`, as `url::Url::parse`
/// reads `u/name`.
pub open spec fn file_url(u: Seq<char>, name: Seq<char>) -> Result<Seq<char>, Seq<char>> {
    client::spec_parse_url(u + "/"@ + name)
}

/// `r` is a request with `method` and `body` for the file `name` of the
/// collection at `path` of `c`, or the error of its URL.
pub open spec fn file_request_outcome(
    r: Result<HttpRequest, Error>,
    c: HttpClient,
    path: Seq<char>,
    name: Seq<char>,
    method: client::Method,
    body: Option<Seq<u8>>,
) -> bool {
    match client::spec_join_url(c.base_url@, collection_api_path(path)) {
        Err(m) => error::is_inner_error(r, m, invalid_collection_text(path)),
        Ok(u) => match file_url(u, name) {
            Ok(f) => r matches Ok(req) && is_request_to(req, c, method, f, body),
            Err(m) => error::is_inner_error(r, m, invalid_collection_text(path + "/"@ + name)),
        },
    }
}

/// What the body of a response of the collection API gives, read as `of`
/// reads JSON text.
pub open spec fn response_outcome<T>(
    body: Seq<u8>,
    r: Result<T, Error>,
    ok: spec_fn(JsonValue) -> bool,
    of: spec_fn(JsonValue, T) -> bool,
) -> bool {
    if vstd::utf8::valid_utf8(body) {
        collection_outcome(vstd::utf8::decode_utf8(body), r, ok, of)
    } else {
        error::is_inner_error(
            r,
            "stream did not contain valid UTF-8"@,
            "failed to read collection response"@,
        )
    }
}

/// The text of a response body, or the error of one that is not UTF-8.
fn body_text(body: &Vec<u8>) -> (r: Result<String, Error>)
    ensures
        vstd::utf8::valid_utf8(body@) ==> (r matches Ok(t) && t@ == vstd::utf8::decode_utf8(body@)),
        !vstd::utf8::valid_utf8(body@) ==> error::is_inner_error(
            r,
            "stream did not contain valid UTF-8"@,
            "failed to read collection response"@,
        ),
{
    match utf8_text(body) {
        Some(t) => Ok(t),
        None => Err(
            Error::inner(
                String::from_str("stream did not contain valid UTF-8"),
                "failed to read collection response",
            ),
        ),
    }
}

impl Collection {
    /// The collection at `path` (`user/collection`), using `client`.
    pub fn new(client: HttpClient, path: &str) -> (r: Collection)
        ensures
            r.client == client,
            r.path@ == path@,
    {
        Collection { client, path: String::from_str(path) }
    }

    /// Get the parent path of a collection (i.e. unix `dirname`)
    pub fn parent(&self) -> (r: String)
        ensures
            r@ == collection_parent(self.path@),
    {
        proof {
            reveal_strlit(".");
            reveal_strlit("/");
        }
        let p = self.path.as_str();
        let n = p.unicode_len();
        let e = trimmed_end(p, n);
        proof {
            assert(p@.subrange(0, n as int) =~= p@);
            lemma_trim(p@);
        }
        if e == 0 {
            return if n > 0 {
                String::from_str("/")
            } else {
                String::from_str(".")
            };
        }
        match last_slash_in(p, e) {
            None => String::from_str("."),
            Some(k) => {
                proof {
                    lemma_last_index_of(p@.subrange(0, e as int), '/');
                    assert(p@.subrange(0, e as int).subrange(0, k as int) =~= p@.subrange(0, k as int));
                }
                let e2 = trimmed_end(p, k);
                if e2 == 0 {
                    String::from_str("/")
                } else {
                    substring(p, 0, e2)
                }
            },
        }
    }

    /// Get the basename of the collection (i.e. unix `basename`)
    pub fn basename(&self) -> (r: String)
        ensures
            r@ == collection_basename(self.path@),
    {
        proof {
            reveal_strlit("/");
        }
        let p = self.path.as_str();
        let n = p.unicode_len();
        let e = trimmed_end(p, n);
        proof {
            assert(p@.subrange(0, n as int) =~= p@);
            lemma_trim(p@);
        }
        if e == 0 && n > 0 {
            return String::from_str("/");
        }
        let t = Ghost(p@.subrange(0, e as int));
        proof {
            lemma_last_index_of(t@, '/');
        }
        match last_slash_in(p, e) {
            Some(k) => {
                assert(t@.subrange(k + 1, e as int) =~= p@.subrange(k + 1, e as int));
                substring(p, k + 1, e)
            },
            None => {
                assert(t@.subrange(0, e as int) =~= p@.subrange(0, e as int));
                substring(p, 0, e)
            },
        }
    }

    /// The URL of the collection at `path`.
    fn url_of(&self, path: &str) -> (r: Result<String, Error>)
        ensures
            collection_url_outcome(self.client.base_url@, path@, r),
    {
        let mut p = String::from_str(COLLECTION_BASE_PATH);
        p.append("/");
        p.append(path);
        match join_url(self.client.base_url.as_str(), p.as_str()) {
            Ok(u) => Ok(u),
            Err(m) => {
                let mut ctx = String::from_str("invalid collection path '");
                ctx.append(path);
                ctx.append("'");
                Err(Error::inner(m, ctx.as_str()))
            },
        }
    }

    /// Get the API Endpoint URL for a particular collection
    pub fn to_url(&self) -> (r: Result<String, Error>)
        ensures
            collection_url_outcome(self.client.base_url@, self.path@, r),
    {
        self.url_of(self.path.as_str())
    }

    /// The request that shows the collection: a GET of its URL.
    pub fn show_request(&self) -> (r: Result<HttpRequest, Error>)
        requires
            client::auth_valid(self.client.api_auth),
        ensures
            match client::spec_join_url(self.client.base_url@, collection_api_path(self.path@)) {
                Ok(u) => r matches Ok(req) && is_request_to(req, self.client, client::Method::Get, u, None),
                Err(m) => error::is_inner_error(r, m, invalid_collection_text(self.path@)),
            },
    {
        match self.to_url() {
            Ok(u) => Ok(self.client.get(u)),
            Err(e) => Err(e),
        }
    }

    /// Display collection details, from the body of the response to `show_request`.
    pub fn show(&self, body: &Vec<u8>) -> (r: Result<CollectionShow, Error>)
        ensures
            response_outcome(
                body@,
                r,
                |v: JsonValue| is_show(v),
                |v: JsonValue, s: CollectionShow| show_of(v, s),
            ),
    {
        match body_text(body) {
            Ok(t) => CollectionShow::from_response(t.as_str()),
            Err(e) => Err(e),
        }
    }

    /// The request that creates the collection: a POST of its name to the URL
    /// of its parent.
    pub fn create_request(&self) -> (r: Result<HttpRequest, Error>)
        requires
            client::auth_valid(self.client.api_auth),
        ensures
            match client::spec_join_url(
                self.client.base_url@,
                collection_api_path(collection_parent(self.path@)),
            ) {
                Ok(u) => r matches Ok(req) && is_request_to(
                    req,
                    self.client,
                    client::Method::Post,
                    u,
                    Some(vstd::utf8::encode_utf8(collection_basename(self.path@))),
                ),
                Err(m) => error::is_inner_error(
                    r,
                    m,
                    invalid_collection_text(collection_parent(self.path@)),
                ),
            },
    {
        let parent = self.parent();
        match self.url_of(parent.as_str()) {
            Ok(u) => {
                let mut req = self.client.post(u);
                let name = self.basename();
                req.body = Some(name.as_str().as_bytes_vec());
                Ok(req)
            },
            Err(e) => Err(e),
        }
    }

    /// Create a collection, from the body of the response to `create_request`.
    pub fn create(&self, body: &Vec<u8>) -> (r: Result<CollectionCreated, Error>)
        ensures
            response_outcome(
                body@,
                r,
                |v: JsonValue| is_created(v),
                |v: JsonValue, c: CollectionCreated| created_of(v, c),
            ),
    {
        match body_text(body) {
            Ok(t) => CollectionCreated::from_response(t.as_str()),
            Err(e) => Err(e),
        }
    }

    /// The request that deletes the collection: a DELETE of its URL.
    pub fn delete_request(&self) -> (r: Result<HttpRequest, Error>)
        requires
            client::auth_valid(self.client.api_auth),
        ensures
            match client::spec_join_url(self.client.base_url@, collection_api_path(self.path@)) {
                Ok(u) => r matches Ok(req) && is_request_to(req, self.client, client::Method::Delete, u, None),
                Err(m) => error::is_inner_error(r, m, invalid_collection_text(self.path@)),
            },
    {
        match self.to_url() {
            Ok(u) => Ok(self.client.delete(u)),
            Err(e) => Err(e),
        }
    }

    /// Delete a collection, from the body of the response to `delete_request`.
    pub fn delete(&self, body: &Vec<u8>) -> (r: Result<CollectionDeleted, Error>)
        ensures
            response_outcome(
                body@,
                r,
                |v: JsonValue| text_field(v, "unknown"@) is Some,
                |v: JsonValue, d: CollectionDeleted| result_of(v, "unknown"@, d.unknown@),
            ),
    {
        match body_text(body) {
            Ok(t) => CollectionDeleted::from_response(t.as_str()),
            Err(e) => Err(e),
        }
    }

    /// A request with `method` for the file `filename` of the collection.
    fn file_request(&self, filename: &str, method: client::Method) -> (r: Result<HttpRequest, Error>)
        requires
            client::auth_valid(self.client.api_auth),
        ensures
            file_request_outcome(r, self.client, self.path@, filename@, method, None),
    {
        let u = match self.to_url() {
            Ok(u) => u,
            Err(e) => {
                return Err(e);
            },
        };
        let mut text = u;
        text.append("/");
        text.append(filename);
        match parse_url(text.as_str()) {
            Ok(f) => Ok(self.client.build_request(method, f)),
            Err(m) => {
                let mut ctx = String::from_str("invalid collection path '");
                ctx.append(self.path.as_str());
                ctx.append("/");
                ctx.append(filename);
                ctx.append("'");
                assert(ctx@ =~= invalid_collection_text(self.path@ + "/"@ + filename@));
                Err(Error::inner(m, ctx.as_str()))
            },
        }
    }

    /// The request that writes `input_data` to the file `filename` of the
    /// collection: a POST of the bytes to the file's URL.
    pub fn write_file(&self, filename: &str, input_data: Vec<u8>) -> (r: Result<HttpRequest, Error>)
        requires
            client::auth_valid(self.client.api_auth),
        ensures
            file_request_outcome(
                r,
                self.client,
                self.path@,
                filename@,
                client::Method::Post,
                Some(input_data@),
            ),
    {
        match self.file_request(filename, client::Method::Post) {
            Ok(mut req) => {
                req.body = Some(input_data);
                Ok(req)
            },
            Err(e) => Err(e),
        }
    }

    /// The file added, from the body of the response to `write_file`.
    pub fn file_added(&self, body: &Vec<u8>) -> (r: Result<CollectionFileAdded, Error>)
        ensures
            response_outcome(
                body@,
                r,
                |v: JsonValue| text_field(v, "result"@) is Some,
                |v: JsonValue, d: CollectionFileAdded| result_of(v, "result"@, d.result@),
            ),
    {
        match body_text(body) {
            Ok(t) => CollectionFileAdded::from_response(t.as_str()),
            Err(e) => Err(e),
        }
    }

    /// The request that deletes the file `filename` of the collection.
    pub fn delete_file(&self, filename: &str) -> (r: Result<HttpRequest, Error>)
        requires
            client::auth_valid(self.client.api_auth),
        ensures
            file_request_outcome(r, self.client, self.path@, filename@, client::Method::Delete, None),
    {
        self.file_request(filename, client::Method::Delete)
    }

    /// The file deleted, from the body of the response to `delete_file`.
    pub fn file_deleted(&self, body: &Vec<u8>) -> (r: Result<CollectionFileDeleted, Error>)
        ensures
            response_outcome(
                body@,
                r,
                |v: JsonValue| text_field(v, "result"@) is Some,
                |v: JsonValue, d: CollectionFileDeleted| result_of(v, "result"@, d.result@),
            ),
    {
        match body_text(body) {
            Ok(t) => CollectionFileDeleted::from_response(t.as_str()),
            Err(e) => Err(e),
        }
    }
}

/// A collection path `parent/name` (no `/` at its end, none doubled before
/// `name`, and `parent` not empty) is its parent, `/`, and its basename.
pub proof fn law_collection_path_split(path: Seq<char>)
    requires
        path.len() > 0,
        path.last() != '/',
        last_index_of(path, '/') > 0,
        path[last_index_of(path, '/') - 1] != '/',
    ensures
        collection_parent(path) + seq!['/'] + collection_basename(path) == path,
{
    lemma_last_index_of(path, '/');
    let k = last_index_of(path, '/');
    assert(trim_trailing_slashes(path) == path);
    let head = path.subrange(0, k);
    assert(head.last() == path[k - 1]);
    assert(trim_trailing_slashes(head) == head);
    assert(path.subrange(0, k) + seq!['/'] + path.subrange(k + 1, path.len() as int) =~= path);
}

/// The basename of a collection path has no `/`, unless the path is `/`s
/// only (then it is `/`).
pub proof fn law_collection_basename_plain(path: Seq<char>)
    requires
        path.len() == 0 || trim_trailing_slashes(path).len() > 0,
    ensures
        forall|j: int| 0 <= j < collection_basename(path).len() ==> collection_basename(path)[j] != '/',
{
    let t = trim_trailing_slashes(path);
    lemma_last_index_of(t, '/');
    lemma_trim(path);
}

} // verus!

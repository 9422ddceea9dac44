//! Directories of the Data API: creating, listing and deleting them.

use vstd::prelude::*;
use vstd::string::*;
use crate::client;
use crate::client::{HttpClient, HttpRequest, HttpResponse, append_query_pair, utf8_text};
use crate::codec::mime_application_json;
use crate::data::file::DataFile;
use crate::data::object;
use crate::data::object::HasDataPath;
use crate::data::path as datapath;
use crate::error;
use crate::error::Error;
use crate::json;
use crate::json::{JsonNumber, JsonValue, json_to_string, value_from_str};
use crate::text;
use crate::text::ends_with;

verus! {

/// Algorithmia Data Directory
#[derive(Debug)]
pub struct DataDir {
    path: String,
    client: HttpClient,
}

impl DataDir {
    /// The API path of this directory.
    pub closed spec fn dir_path(&self) -> Seq<char> {
        self.path@
    }

    /// The client of this directory.
    pub closed spec fn dir_client(&self) -> HttpClient {
        self.client
    }

    /// The directory at data URI `path`, using `client`.
    pub fn at(client: HttpClient, path: &str) -> (r: DataDir)
        ensures
            r.dir_path() == datapath::data_uri_to_path(path@),
            r.dir_client() == client,
    {
        DataDir { client, path: datapath::parse_data_uri(path) }
    }
}

impl HasDataPath for DataDir {
    open spec fn data_path(&self) -> Seq<char> {
        self.dir_path()
    }

    open spec fn data_client(&self) -> HttpClient {
        self.dir_client()
    }

    fn new(client: HttpClient, path: &str) -> (r: Self) {
        DataDir::at(client, path)
    }

    fn path(&self) -> (r: &str) {
        self.path.as_str()
    }

    fn client(&self) -> (r: &HttpClient) {
        &self.client
    }
}

/// ACL that indicates permissions for a `DataDir`
/// See also: [`ReadAcl`](enum.ReadAcl.html) enum to construct a `DataACL`
#[derive(Debug)]
pub struct DataAcl {
    /// Read ACL
    pub read: Vec<String>,
}

/// Read access control values
#[derive(Debug, Clone, Copy, PartialEq, Eq, Structural)]
pub enum ReadAcl {
    /// Readable only by owner
    Private,
    /// Readable by owner's algorithms (regardless of caller)
    MyAlgorithms,
    /// Readable by any user
    Public,
}

/// The read list of an ACL.
pub open spec fn read_list(acl: ReadAcl) -> Seq<Seq<char>> {
    match acl {
        ReadAcl::Private => Seq::empty(),
        ReadAcl::MyAlgorithms => seq!["algo://.my/*"@],
        ReadAcl::Public => seq!["user://*"@],
    }
}

impl From<ReadAcl> for DataAcl {
    /// The ACL of a read access control value.
    fn from(acl: ReadAcl) -> (r: DataAcl)
        ensures
            text::views(r.read@) == read_list(acl),
    {
        let mut read: Vec<String> = Vec::new();
        match acl {
            ReadAcl::Private => {},
            ReadAcl::MyAlgorithms => {
                read.push(String::from_str("algo://.my/*"));
            },
            ReadAcl::Public => {
                read.push(String::from_str("user://*"));
            },
        }
        assert(text::views(read@) =~= read_list(acl));
        DataAcl { read }
    }
}

impl vstd::std_specs::convert::FromSpecImpl<ReadAcl> for DataAcl {
    /// The contract of `from` is its own `ensures`, over the views.
    open spec fn obeys_from_spec() -> bool {
        false
    }

    open spec fn from_spec(v: ReadAcl) -> DataAcl {
        choose|a: DataAcl| text::views(a.read@) == read_list(v)
    }
}

impl Default for DataAcl {
    /// Readable by the owner's algorithms.
    fn default() -> (r: Self)
        ensures
            text::views(r.read@) == read_list(ReadAcl::MyAlgorithms),
    {
        DataAcl::from(ReadAcl::MyAlgorithms)
    }
}

/// Response when deleting a file form the Data API
#[derive(Debug, Clone, Copy, PartialEq, Eq, Structural)]
pub struct DirectoryDeleted {
    /// Number of files that were deleted
    ///
    /// Note: some backing stores may indicate deletion succeeds for non-existing files
    pub deleted: u64,
}

/// The JSON text of a list of strings: `v` is an array of exactly these strings.
pub open spec fn is_string_array(v: JsonValue, items: Seq<Seq<char>>) -> bool {
    match v {
        JsonValue::Array(a) => a@.len() == items.len() && forall|i: int|
            0 <= i < items.len() ==> #[trigger] json::json_str(a@[i]) == Some(items[i]),
        _ => false,
    }
}

/// `v` is the JSON of a folder to create: `{"name": name, "acl": {"read": read}}`.
pub open spec fn is_folder_json(v: JsonValue, name: Seq<char>, read: Seq<Seq<char>>) -> bool {
    match v {
        JsonValue::Object(fields) => fields@.len() == 2 && fields@[0].0@ == "name"@ && json::json_str(
            fields@[0].1,
        ) == Some(name) && fields@[1].0@ == "acl"@ && (match fields@[1].1 {
            JsonValue::Object(acl) => acl@.len() == 1 && acl@[0].0@ == "read"@ && is_string_array(
                acl@[0].1,
                read,
            ),
            _ => false,
        }),
        _ => false,
    }
}

/// `req` posts to `url`, as a client `c`, the JSON of a folder `name` with
/// the read list `read`.
pub open spec fn is_create_request(
    req: HttpRequest,
    c: HttpClient,
    url: Seq<char>,
    name: Seq<char>,
    read: Seq<Seq<char>>,
) -> bool {
    &&& req.method == client::Method::Post
    &&& req.url@ == url
    &&& client::header_views(req.headers@) == client::request_headers(c.user_agent@, c.api_auth)
        + seq![("content-type"@, "application/json"@)]
    &&& req.body matches Some(b)
    &&& exists|v: JsonValue|
        is_folder_json(v, name, read) && b@ == vstd::utf8::encode_utf8(
            #[trigger] json::spec_json_text(v),
        )
}

/// The message of the error for a body that is not UTF-8 text, in context.
pub open spec fn io_ctx(action: Seq<char>, path: Seq<char>) -> Seq<char> {
    "I/O error "@ + action + " directory '"@ + datapath::path_to_data_uri(path) + "'"@
}

/// The context of an error decoding a deletion response.
pub open spec fn deletion_ctx() -> Seq<char> {
    "failed to decode directory deletion response json"@
}

/// The message for JSON that does not have the shape of a deletion response.
pub open spec fn not_deletion_text() -> Seq<char> {
    "JSON is not a directory deletion response"@
}

/// The number of deleted files a deletion response gives: `{"result": {"deleted": n}}`.
pub open spec fn deleted_count(v: JsonValue) -> Option<u64> {
    match json::json_field(v, "result"@) {
        Some(res) => match json::json_field(res, "deleted"@) {
            Some(JsonValue::Number(JsonNumber::PosInt(n))) => Some(n),
            _ => None,
        },
        None => None,
    }
}

/// A deletion response `{"result": {"deleted": n}}` (other fields ignored)
/// gives the count `n`.
pub proof fn law_deleted_count(v: JsonValue, res: JsonValue, n: u64)
    requires
        json::json_field(v, "result"@) == Some(res),
        json::json_field(res, "deleted"@) == Some(JsonValue::Number(JsonNumber::PosInt(n))),
    ensures
        deleted_count(v) == Some(n),
{
}

/// `r` is what the text `t` of a failed response gives: the API error it holds.
pub open spec fn failure_of_text(t: Seq<char>, e: Error) -> bool {
    match json::spec_parse_json(t) {
        Ok(v) => if error::is_api_error_response(v) {
            e.kind matches error::ErrorKind::Api(a) && error::api_error_field(v) matches Some(ev)
                && error::decodes_api_error(ev, a) && e.ctx@ == Seq::<char>::empty()
        } else {
            e.kind matches error::ErrorKind::Inner(m) && m@ == error::not_api_error_text() && e.ctx@
                == "Failed to decode API error response"@
        },
        Err(msg) => e.kind matches error::ErrorKind::Inner(m) && m@ == msg && e.ctx@
            == "Failed to decode API error response"@,
    }
}

impl DataDir {
    /// The context of an error of `action` on this directory.
    fn io_context(&self, action: &str) -> (r: String)
        ensures
            r@ == io_ctx(action@, self.dir_path()),
    {
        let mut ctx = String::from_str("I/O error ");
        ctx.append(action);
        ctx.append(" directory '");
        let uri = self.to_data_uri();
        ctx.append(uri.as_str());
        ctx.append("'");
        ctx
    }

    /// The text of a response body, or the error of a body that is not UTF-8.
    pub(crate) fn body_text(&self, body: &Vec<u8>, action: &str) -> (r: Result<String, Error>)
        ensures
            vstd::utf8::valid_utf8(body@) ==> (r matches Ok(t) && t@ == vstd::utf8::decode_utf8(body@)),
            !vstd::utf8::valid_utf8(body@) ==> error::is_inner_error(
                r,
                "stream did not contain valid UTF-8"@,
                io_ctx(action@, self.dir_path()),
            ),
    {
        match utf8_text(body) {
            Some(t) => Ok(t),
            None => {
                let m = String::from_str("stream did not contain valid UTF-8");
                let ctx = self.io_context(action);
                Err(Error::inner(m, ctx.as_str()))
            },
        }
    }

    /// Instantiate `DataFile` or `DataDir` as a child of this `DataDir`
    pub fn child<T: HasDataPath>(&self, filename: &str) -> (r: T)
        ensures
            r.data_path() == datapath::data_uri_to_path(datapath::child_data_uri(self.dir_path(), filename@)),
            r.data_client() == self.dir_client(),
    {
        proof {
            reveal_strlit("/");
            assert("/"@ =~= datapath::slash());
        }
        let mut uri = self.to_data_uri();
        if !ends_with(uri.as_str(), "/") {
            uri.append("/");
        }
        uri.append(filename);
        T::new(self.client.clone(), uri.as_str())
    }

    /// The request that creates this directory with `acl`: a POST of its name
    /// and ACL (as JSON) to the URL of its parent.
    pub fn create_request(&self, acl: DataAcl) -> (r: Result<HttpRequest, Error>)
        requires
            client::auth_valid(self.dir_client().api_auth),
        ensures
            match datapath::parent_data_uri(self.dir_path()) {
                None => error::is_client_error(r, object::invalid_data_uri_text(self.dir_path())),
                Some(pu) => match client::spec_join_url(
                    self.dir_client().base_url@,
                    object::data_api_path(datapath::data_uri_to_path(pu)),
                ) {
                    Err(m) => error::is_inner_error(
                        r,
                        m,
                        object::invalid_data_uri_text(datapath::data_uri_to_path(pu)),
                    ),
                    Ok(u) => r matches Ok(req) && is_create_request(
                        req,
                        self.dir_client(),
                        u,
                        datapath::path_basename(self.dir_path()),
                        text::views(acl.read@),
                    ),
                },
            },
    {
        let parent = match self.parent() {
            Some(p) => p,
            None => {
                let mut msg = String::from_str("invalid data URI '");
                let uri = self.to_data_uri();
                msg.append(uri.as_str());
                msg.append("'");
                return Err(Error::from_message(msg));
            },
        };
        let parent_url = match parent.to_url() {
            Ok(u) => u,
            Err(e) => {
                return Err(e);
            },
        };
        let name = datapath::basename_of(self.path());
        let mut acl_fields: Vec<(String, JsonValue)> = Vec::new();
        acl_fields.push((String::from_str("read"), string_array(acl.read)));
        let mut fields: Vec<(String, JsonValue)> = Vec::new();
        fields.push((String::from_str("name"), JsonValue::String(name)));
        fields.push((String::from_str("acl"), JsonValue::Object(acl_fields)));
        let input = JsonValue::Object(fields);
        let raw = json_to_string(&input);
        let mut req = self.client.post(parent_url);
        let ct = mime_application_json();
        req.headers.push((String::from_str("content-type"), ct));
        req.body = Some(raw.as_str().as_bytes_vec());
        assert(client::header_views(req.headers@) =~= client::request_headers(
            self.dir_client().user_agent@,
            self.dir_client().api_auth,
        ) + seq![("content-type"@, "application/json"@)]);
        Ok(req)
    }

    /// Create a Directory: the outcome of the response to `create_request`;
    /// a failure is the API error the body holds.
    pub fn create(&self, resp: &HttpResponse) -> (r: Result<(), Error>)
        ensures
            client::is_success(resp.status) ==> r is Ok,
            !client::is_success(resp.status) && vstd::utf8::valid_utf8(resp.body@) ==> (r matches Err(e)
                && failure_of_text(vstd::utf8::decode_utf8(resp.body@), e)),
            !client::is_success(resp.status) && !vstd::utf8::valid_utf8(resp.body@)
                ==> error::is_inner_error(
                r,
                "stream did not contain valid UTF-8"@,
                io_ctx("creating"@, self.dir_path()),
            ),
    {
        proof {
            reveal_strlit("creating");
        }
        if 200 <= resp.status && resp.status <= 299 {
            return Ok(());
        }
        match self.body_text(&resp.body, "creating") {
            Ok(t) => Err(Error::from_json(t.as_str())),
            Err(e) => Err(e),
        }
    }

    /// The request that deletes this directory (and its contents with
    /// `force`): a DELETE of its URL, with `force=true` in the query.
    pub fn delete_request(&self, force: bool) -> (r: Result<HttpRequest, Error>)
        requires
            client::auth_valid(self.dir_client().api_auth),
        ensures
            match client::spec_join_url(self.dir_client().base_url@, object::data_api_path(self.dir_path())) {
                Ok(u) => r matches Ok(req) && req.method == client::Method::Delete && req.url@ == (if force {
                    client::spec_append_query_pair(u, "force"@, "true"@)
                } else {
                    u
                }) && client::header_views(req.headers@) == client::request_headers(
                    self.dir_client().user_agent@,
                    self.dir_client().api_auth,
                ) && req.body is None,
                Err(m) => error::is_inner_error(r, m, object::invalid_data_uri_text(self.dir_path())),
            },
    {
        let mut url = match self.to_url() {
            Ok(u) => u,
            Err(e) => {
                return Err(e);
            },
        };
        if force {
            url = append_query_pair(url.as_str(), "force", "true");
        }
        Ok(self.client.delete(url))
    }

    /// Delete a Directory: the number of deleted files in the response to
    /// `delete_request`, or the error of a failed response.
    pub fn delete(&self, resp: &HttpResponse) -> (r: Result<DirectoryDeleted, Error>)
        ensures
            !vstd::utf8::valid_utf8(resp.body@) ==> error::is_inner_error(
                r,
                "stream did not contain valid UTF-8"@,
                io_ctx("deleting"@, self.dir_path()),
            ),
            vstd::utf8::valid_utf8(resp.body@) && !client::is_success(resp.status) ==> (r matches Err(e)
                && failure_of_text(vstd::utf8::decode_utf8(resp.body@), e)),
            vstd::utf8::valid_utf8(resp.body@) && client::is_success(resp.status) ==> match json::spec_parse_json(
                vstd::utf8::decode_utf8(resp.body@),
            ) {
                Err(m) => error::is_inner_error(r, m, deletion_ctx()),
                Ok(v) => match deleted_count(v) {
                    Some(n) => r == Ok::<DirectoryDeleted, Error>(DirectoryDeleted { deleted: n }),
                    None => error::is_inner_error(
                        r,
                        not_deletion_text(),
                        deletion_ctx(),
                    ),
                },
            },
    {
        proof {
            reveal_strlit("deleting");
        }
        let t = match self.body_text(&resp.body, "deleting") {
            Ok(t) => t,
            Err(e) => {
                return Err(e);
            },
        };
        if !(200 <= resp.status && resp.status <= 299) {
            return Err(Error::from_json(t.as_str()));
        }
        let v = match value_from_str(t.as_str()) {
            Ok(v) => v,
            Err(m) => {
                return Err(Error::inner(m, "failed to decode directory deletion response json"));
            },
        };
        let deleted = match v.get("result") {
            Some(res) => match res.get("deleted") {
                Some(JsonValue::Number(JsonNumber::PosInt(n))) => Some(*n),
                _ => None,
            },
            None => None,
        };
        match deleted {
            Some(n) => Ok(DirectoryDeleted { deleted: n }),
            None => Err(
                Error::inner(
                    String::from_str("JSON is not a directory deletion response"),
                    "failed to decode directory deletion response json",
                ),
            ),
        }
    }

    /// The request that uploads `body` as the file `file_name` of this
    /// directory (the upload of a local file, read by the caller).
    pub fn put_file(&self, file_name: &str, body: Vec<u8>) -> (r: Result<HttpRequest, Error>)
        requires
            client::auth_valid(self.dir_client().api_auth),
        ensures
            crate::data::file::file_request_outcome(
                r,
                self.dir_client(),
                datapath::data_uri_to_path(datapath::child_data_uri(self.dir_path(), file_name@)),
                client::Method::Put,
                Some(body@),
            ),
    {
        let data_file: DataFile = self.child(file_name);
        data_file.put_request(body)
    }
}

/// A JSON array of the strings.
fn string_array(items: Vec<String>) -> (r: JsonValue)
    ensures
        is_string_array(r, text::views(items@)),
{
    let mut out: Vec<JsonValue> = Vec::new();
    let mut i: usize = 0;
    let n = items.len();
    while i < n
        invariant
            n == items@.len(),
            i <= n,
            out@.len() == i,
            forall|j: int| 0 <= j < i ==> #[trigger] json::json_str(out@[j]) == Some(items@[j]@),
        decreases n - i,
    {
        out.push(JsonValue::String(items[i].clone()));
        i = i + 1;
    }
    JsonValue::Array(out)
}

} // verus!

//! Files of the Data API: writing, reading and deleting them.

use vstd::prelude::*;
use vstd::string::*;
use crate::client;
use crate::client::{HttpClient, HttpRequest, HttpResponse, process_http_response, utf8_text};
use crate::data::headers;
use crate::data::headers::{DataType, HeaderData, Timestamp, launch_time, parse_headers};
use crate::data::object;
use crate::data::object::HasDataPath;
use crate::data::path as datapath;
use crate::error;
use crate::error::Error;

verus! {

/// Algorithmia data file
#[derive(Debug)]
pub struct DataFile {
    path: String,
    client: HttpClient,
}

/// A file downloaded with headers `h` naming a file, with a readable
/// `content-length` and `date`: its contents are the body, its size is the
/// content length (0 without one), and its time is the one the `date` header
/// gives; the launch time stands in only where there is no `date` header.
pub proof fn law_download_fields(h: Seq<(String, String)>, body: Seq<u8>, r: Option<Result<FileData, Error>>)
    requires
        headers::headers_outcome(
            h,
            r,
            |d: HeaderData, res: Result<FileData, Error>| file_outcome(d, res, body),
        ),
        client::header_get(h, "x-error-message"@) is None,
        client::header_get(h, "x-data-type"@) == Some("file"@),
        headers::content_length_ok(h),
        headers::date_ok(h),
    ensures
        r matches Some(Ok(f)) && f.data@ == body && f.size == (match headers::content_length_of(h) {
            Some(n) => n,
            None => 0,
        }) && match headers::date_of(h) {
            Some(t) => f.last_modified == t,
            None => f.last_modified == headers::launch_time_spec() && client::header_get(h, "date"@) is None,
        },
{
    reveal_strlit("file");
    reveal_strlit("directory");
    assert("file"@.len() != "directory"@.len());
}

impl DataFile {
    /// The API path of this file.
    pub closed spec fn file_path(&self) -> Seq<char> {
        self.path@
    }

    /// The client of this file.
    pub closed spec fn file_client(&self) -> HttpClient {
        self.client
    }

    /// The file at data URI `path`, using `client`.
    pub fn at(client: HttpClient, path: &str) -> (r: DataFile)
        ensures
            r.file_path() == datapath::data_uri_to_path(path@),
            r.file_client() == client,
    {
        DataFile { client, path: datapath::parse_data_uri(path) }
    }
}

impl HasDataPath for DataFile {
    open spec fn data_path(&self) -> Seq<char> {
        self.file_path()
    }

    open spec fn data_client(&self) -> HttpClient {
        self.file_client()
    }

    fn new(client: HttpClient, path: &str) -> (r: Self) {
        DataFile::at(client, path)
    }

    fn path(&self) -> (r: &str) {
        self.path.as_str()
    }

    fn client(&self) -> (r: &HttpClient) {
        &self.client
    }
}

/// Response and reader when downloading a `DataFile`
#[derive(Debug)]
pub struct FileData {
    /// Size of file in bytes
    pub size: u64,
    /// Last modified timestamp
    pub last_modified: Timestamp,
    /// The contents of the file
    pub data: Vec<u8>,
}

/// The message of the error for a text file that is not UTF-8.
pub open spec fn invalid_utf8_text() -> Seq<char> {
    "stream did not contain valid UTF-8"@
}

impl FileData {
    /// Reads the result into a byte vector
    pub fn into_bytes(self) -> (r: Vec<u8>)
        ensures
            r@ == self.data@,
    {
        self.data
    }

    /// Reads the result into a `String`: the contents as UTF-8 text, or an
    /// error where they are not UTF-8.
    pub fn into_string(self) -> (r: Result<String, Error>)
        ensures
            vstd::utf8::valid_utf8(self.data@) ==> (r matches Ok(t) && t@ == vstd::utf8::decode_utf8(self.data@)),
            !vstd::utf8::valid_utf8(self.data@) ==> error::is_inner_error(
                r,
                invalid_utf8_text(),
                Seq::<char>::empty(),
            ),
    {
        proof {
            reveal_strlit("");
        }
        match utf8_text(&self.data) {
            Some(t) => Ok(t),
            None => {
                let m = String::from_str("stream did not contain valid UTF-8");
                assert(m@ == invalid_utf8_text());
                let e = Error::inner(m, "");
                assert(e.ctx@ == Seq::<char>::empty());
                Err(e)
            },
        }
    }
}

/// `req` asks with `method` for the endpoint `url` of a file of `c`, with `body`.
pub open spec fn is_file_request(
    req: HttpRequest,
    c: HttpClient,
    method: client::Method,
    url: Seq<char>,
    body: Option<Seq<u8>>,
) -> bool {
    &&& req.method == method
    &&& req.url@ == url
    &&& client::header_views(req.headers@) == client::request_headers(c.user_agent@, c.api_auth)
    &&& match body {
        Some(b) => req.body matches Some(rb) && rb@ == b,
        None => req.body is None,
    }
}

/// `r` is the request with `method` and `body` for the file at `path` of `c`,
/// or the error of its URL.
pub open spec fn file_request_outcome(
    r: Result<HttpRequest, Error>,
    c: HttpClient,
    path: Seq<char>,
    method: client::Method,
    body: Option<Seq<u8>>,
) -> bool {
    match client::spec_join_url(c.base_url@, object::data_api_path(path)) {
        Ok(u) => r matches Ok(req) && is_file_request(req, c, method, u, body),
        Err(m) => error::is_inner_error(r, m, object::invalid_data_uri_text(path)),
    }
}

/// The context of an error in the response to an action on the file at `path`.
pub open spec fn file_response_ctx(action: Seq<char>, path: Seq<char>) -> Seq<char> {
    "response error "@ + action + " file '"@ + datapath::path_to_data_uri(path) + "'"@
}

/// The message of the error for a download that names a directory.
pub open spec fn file_is_dir_text() -> Seq<char> {
    "expected API response with data type 'file', received 'directory'"@
}

/// The outcome of a download of `body` with the metadata `d`: an error for a
/// directory, else the file with the size and time the headers give (0 and
/// the launch time where they give none).
pub open spec fn file_outcome(d: HeaderData, res: Result<FileData, Error>, body: Seq<u8>) -> bool {
    match d.data_type {
        DataType::Dir => error::is_client_error(res, file_is_dir_text()),
        DataType::File => res matches Ok(v) && file_data_of(d, v, body),
    }
}

/// `v` is the download of `body` with the metadata `d`: the size and time the
/// headers give (0 and the launch time where they give none).
pub open spec fn file_data_of(d: HeaderData, v: FileData, body: Seq<u8>) -> bool {
    &&& v.size == (match d.content_length {
        Some(n) => n,
        None => 0,
    })
    &&& v.last_modified == (match d.last_modified {
        Some(t) => t,
        None => headers::launch_time_spec(),
    })
    &&& v.data@ == body
}

impl DataFile {
    /// A request for this file with `method`.
    fn request(&self, method: client::Method) -> (r: Result<HttpRequest, Error>)
        requires
            client::auth_valid(self.file_client().api_auth),
        ensures
            file_request_outcome(r, self.file_client(), self.file_path(), method, None),
    {
        match self.to_url() {
            Ok(u) => Ok(self.client.build_request(method, u)),
            Err(e) => Err(e),
        }
    }

    /// The context of an error in the response to `action` on this file.
    fn response_ctx(&self, action: &str) -> (r: String)
        ensures
            r@ == file_response_ctx(action@, self.file_path()),
    {
        let mut ctx = String::from_str("response error ");
        ctx.append(action);
        ctx.append(" file '");
        let uri = self.to_data_uri();
        ctx.append(uri.as_str());
        ctx.append("'");
        ctx
    }

    /// The request that writes `body` to the file: a PUT of the body to its URL.
    pub fn put_request(&self, body: Vec<u8>) -> (r: Result<HttpRequest, Error>)
        requires
            client::auth_valid(self.file_client().api_auth),
        ensures
            file_request_outcome(r, self.file_client(), self.file_path(), client::Method::Put, Some(body@)),
    {
        match self.request(client::Method::Put) {
            Ok(mut req) => {
                req.body = Some(body);
                Ok(req)
            },
            Err(e) => Err(e),
        }
    }

    /// Write to the Algorithmia Data API: the outcome of the response to
    /// `put_request`, an error for a failed status.
    pub fn put(&self, resp: &HttpResponse) -> (r: Result<(), Error>)
        ensures
            client::is_success(resp.status) ==> r is Ok,
            !client::is_success(resp.status) ==> (r matches Err(e) && error::is_response_failure(
                *resp,
                e,
                file_response_ctx("writing"@, self.file_path()),
            )),
    {
        proof {
            reveal_strlit("writing");
        }
        match process_http_response(resp) {
            Ok(()) => Ok(()),
            Err(e) => Err(e.with_context(self.response_ctx("writing"))),
        }
    }

    /// The request that downloads the file: a GET of its URL.
    pub fn get_request(&self) -> (r: Result<HttpRequest, Error>)
        requires
            client::auth_valid(self.file_client().api_auth),
        ensures
            file_request_outcome(r, self.file_client(), self.file_path(), client::Method::Get, None),
    {
        self.request(client::Method::Get)
    }

    /// Get a file from the Algorithmia Data API: the download in the response
    /// to `get_request`, or an error for a failed status or a directory. None
    /// where the headers cannot be read.
    pub fn get(&self, resp: HttpResponse) -> (r: Option<Result<FileData, Error>>)
        ensures
            !client::is_success(resp.status) ==> (r matches Some(Err(e)) && error::is_response_failure(
                resp,
                e,
                file_response_ctx("downloading"@, self.file_path()),
            )),
            client::is_success(resp.status) ==> headers::headers_outcome(
                resp.headers@,
                r,
                |d: HeaderData, res: Result<FileData, Error>| file_outcome(d, res, resp.body@),
            ),
    {
        proof {
            reveal_strlit("downloading");
        }
        match process_http_response(&resp) {
            Ok(()) => {},
            Err(e) => {
                return Some(Err(e.with_context(self.response_ctx("downloading"))));
            },
        }
        let metadata = match parse_headers(&resp.headers) {
            None => {
                return None;
            },
            Some(Err(e)) => {
                return Some(Err(e));
            },
            Some(Ok(d)) => d,
        };
        match metadata.data_type {
            DataType::File => {},
            DataType::Dir => {
                return Some(
                    Err(
                        Error::from_message(
                            String::from_str(
                                "expected API response with data type 'file', received 'directory'",
                            ),
                        ),
                    ),
                );
            },
        }
        let size = match metadata.content_length {
            Some(n) => n,
            None => 0,
        };
        let last_modified = match metadata.last_modified {
            Some(t) => t,
            None => launch_time(),
        };
        Some(Ok(FileData { size, last_modified, data: resp.body }))
    }

    /// The request that deletes the file: a DELETE of its URL.
    pub fn delete_request(&self) -> (r: Result<HttpRequest, Error>)
        requires
            client::auth_valid(self.file_client().api_auth),
        ensures
            file_request_outcome(r, self.file_client(), self.file_path(), client::Method::Delete, None),
    {
        self.request(client::Method::Delete)
    }

    /// Delete a file from from the Algorithmia Data API: the outcome of the
    /// response to `delete_request`, an error for a failed status.
    pub fn delete(&self, resp: &HttpResponse) -> (r: Result<(), Error>)
        ensures
            client::is_success(resp.status) ==> r is Ok,
            !client::is_success(resp.status) ==> (r matches Err(e) && error::is_response_failure(
                *resp,
                e,
                file_response_ctx("deleting"@, self.file_path()),
            )),
    {
        proof {
            reveal_strlit("deleting");
        }
        match process_http_response(resp) {
            Ok(()) => Ok(()),
            Err(e) => Err(e.with_context(self.response_ctx("deleting"))),
        }
    }
}

} // verus!

//! Objects of the Data API named by a data URI: the shared operations of
//! files, directories and objects of unknown type.

use vstd::prelude::*;
use vstd::string::*;
use crate::client;
use crate::client::{HttpClient, HttpRequest, HttpResponse, get_header, join_url};
use crate::data::dir::DataDir;
use crate::data::file::DataFile;
use crate::data::headers;
use crate::data::headers::{DataType, HeaderData, Timestamp, launch_time, parse_headers};
use crate::data::path as datapath;
use crate::error;
use crate::error::{ApiError, Error, ErrorKind, status_text};

verus! {

/// The API path of the data endpoint.
pub const DATA_BASE_PATH: &'static str = "v1/connector";

/// The path of the API endpoint of the object at API path `path`.
pub open spec fn data_api_path(path: Seq<char>) -> Seq<char> {
    DATA_BASE_PATH@ + "/"@ + path
}

/// The context of an error on the data URI of the object at `path`.
pub open spec fn invalid_data_uri_text(path: Seq<char>) -> Seq<char> {
    "invalid data URI '"@ + datapath::path_to_data_uri(path) + "'"@
}

/// `r` is the endpoint URL of the object at `path` for a client at `base`, or
/// the error of joining them.
pub open spec fn data_url_outcome(base: Seq<char>, path: Seq<char>, r: Result<String, Error>) -> bool {
    match client::spec_join_url(base, data_api_path(path)) {
        Ok(u) => r matches Ok(s) && s@ == u,
        Err(m) => error::is_inner_error(r, m, invalid_data_uri_text(path)),
    }
}

/// The endpoint URL of the object at `path` for a client at `base`.
pub fn data_url(base: &str, path: &str) -> (r: Result<String, Error>)
    ensures
        data_url_outcome(base@, path@, r),
{
    let mut p = String::from_str(DATA_BASE_PATH);
    p.append("/");
    p.append(path);
    match join_url(base, p.as_str()) {
        Ok(u) => Ok(u),
        Err(m) => {
            let mut ctx = String::from_str("invalid data URI '");
            let uri = datapath::to_data_uri(path);
            ctx.append(uri.as_str());
            ctx.append("'");
            Err(Error::inner(m, ctx.as_str()))
        },
    }
}

/// The message of the error for a failed existence check: the status, then
/// the `x-error-message` header if there is one.
pub open spec fn exists_error_text(status: u16, h: Seq<(String, String)>) -> Seq<char> {
    match client::header_get(h, "x-error-message"@) {
        Some(m) => error::spec_status_text(status) + ": "@ + m,
        None => error::spec_status_text(status),
    }
}

/// Trait used for types that can be represented with an Algorithmia Data URI
pub trait HasDataPath: Sized {
    /// The API path of this object (`data/.my/dir`).
    spec fn data_path(&self) -> Seq<char>;

    /// The client this object uses.
    spec fn data_client(&self) -> HttpClient;

    /// The object at data URI `path`, using `client`.
    fn new(client: HttpClient, path: &str) -> (r: Self)
        ensures
            r.data_path() == datapath::data_uri_to_path(path@),
            r.data_client() == client,
    ;

    /// The API path of this object.
    fn path(&self) -> (r: &str)
        ensures
            r@ == self.data_path(),
    ;

    /// The client of this object.
    fn client(&self) -> (r: &HttpClient)
        ensures
            *r == self.data_client(),
    ;

    /// Get the API Endpoint URL for a particular data URI
    fn to_url(&self) -> (r: Result<String, Error>)
        ensures
            data_url_outcome(self.data_client().base_url@, self.data_path(), r),
    {
        data_url(self.client().base_url.as_str(), self.path())
    }

    /// Get the Algorithmia data URI a given Data Object
    fn to_data_uri(&self) -> (r: String)
        ensures
            r@ == datapath::path_to_data_uri(self.data_path()),
    {
        datapath::to_data_uri(self.path())
    }

    /// Get the parent off a given Data Object
    fn parent(&self) -> (r: Option<DataDir>)
        ensures
            match datapath::parent_data_uri(self.data_path()) {
                None => r is None,
                Some(u) => r matches Some(d) && d.dir_path() == datapath::data_uri_to_path(u)
                    && d.dir_client() == self.data_client(),
            },
    {
        match datapath::parent_uri(self.path()) {
            None => None,
            Some(u) => Some(DataDir::at(self.client().clone(), u.as_str())),
        }
    }

    /// Get the basename from the Data Object's path (i.e. unix `basename`)
    fn basename(&self) -> (r: Option<String>)
        ensures
            r matches Some(b) && b@ == datapath::path_basename(self.data_path()),
    {
        Some(datapath::basename_of(self.path()))
    }

    /// The request that checks whether the object exists: a HEAD of its URL.
    fn exists_request(&self) -> (r: Result<HttpRequest, Error>)
        requires
            client::auth_valid(self.data_client().api_auth),
        ensures
            match client::spec_join_url(self.data_client().base_url@, data_api_path(self.data_path())) {
                Ok(u) => r matches Ok(req) && req.method == client::Method::Head && req.url@ == u
                    && client::header_views(req.headers@) == client::request_headers(
                    self.data_client().user_agent@,
                    self.data_client().api_auth,
                ) && req.body is None,
                Err(m) => error::is_inner_error(r, m, invalid_data_uri_text(self.data_path())),
            },
    {
        match self.to_url() {
            Ok(u) => Ok(self.client().head(u)),
            Err(e) => Err(e),
        }
    }

    /// Determine if a file or directory exists, from the response to
    /// `exists_request`: yes for 200, no for 404, else an API error with the
    /// status (and the server's error message).
    fn data_exists(&self, resp: &HttpResponse) -> (r: Result<bool, Error>)
        requires
            100 <= resp.status <= 999,
        ensures
            resp.status == 200 ==> r == Ok::<bool, Error>(true),
            resp.status == 404 ==> r == Ok::<bool, Error>(false),
            resp.status != 200 && resp.status != 404 ==> error::is_algorithm_error(
                r,
                exists_error_text(resp.status, resp.headers@),
            ),
    {
        if resp.status == 200 {
            Ok(true)
        } else if resp.status == 404 {
            Ok(false)
        } else {
            let mut msg = status_text(resp.status);
            match get_header(&resp.headers, "x-error-message") {
                Some(m) => {
                    msg.append(": ");
                    msg.append(m.as_str());
                },
                None => {},
            }
            Err(Error::from_api_error(ApiError::from_message(msg.as_str())))
        }
    }
}

/// `DataFile` wrapper with metadata
#[derive(Debug)]
pub struct DataFileItem {
    /// Size of file in bytes
    pub size: u64,
    /// Last modified timestamp
    pub last_modified: Timestamp,
    /// The file
    pub file: DataFile,
}

/// `DataDir` wrapper (currently no metadata)
#[derive(Debug)]
pub struct DataDirItem {
    /// The directory
    pub dir: DataDir,
}

/// Data type wrapping the data item (including any metadata)
#[derive(Debug)]
pub enum DataItem {
    File(DataFileItem),
    Dir(DataDirItem),
}

/// Algorithmia data object (file or directory)
#[derive(Debug)]
pub struct DataObject {
    path: String,
    client: HttpClient,
}

impl HasDataPath for DataObject {
    closed spec fn data_path(&self) -> Seq<char> {
        self.path@
    }

    closed spec fn data_client(&self) -> HttpClient {
        self.client
    }

    fn new(client: HttpClient, path: &str) -> (r: Self) {
        DataObject { client, path: datapath::parse_data_uri(path) }
    }

    fn path(&self) -> (r: &str) {
        self.path.as_str()
    }

    fn client(&self) -> (r: &HttpClient) {
        &self.client
    }
}

/// The message of the error for an object that is not there.
pub open spec fn not_found_text(url: Seq<char>) -> Seq<char> {
    "404 Not Found ("@ + url + ")"@
}

impl DataObject {
    /// The request that asks for the type of the object: a HEAD of its URL.
    pub fn type_request(&self) -> (r: Result<HttpRequest, Error>)
        requires
            client::auth_valid(self.data_client().api_auth),
        ensures
            match client::spec_join_url(self.data_client().base_url@, data_api_path(self.data_path())) {
                Ok(u) => r matches Ok(req) && req.method == client::Method::Head && req.url@ == u
                    && client::header_views(req.headers@) == client::request_headers(
                    self.data_client().user_agent@,
                    self.data_client().api_auth,
                ) && req.body is None,
                Err(m) => error::is_inner_error(r, m, invalid_data_uri_text(self.data_path())),
            },
    {
        self.exists_request()
    }

    /// The error for an object that is not there: `404 Not Found (<url>)`.
    fn not_found(&self) -> (r: Error)
        ensures
            match client::spec_join_url(self.data_client().base_url@, data_api_path(self.data_path())) {
                Ok(u) => r.kind is Client && r.ctx@ == not_found_text(u),
                Err(m) => r.kind matches ErrorKind::Inner(t) && t@ == m && r.ctx@ == invalid_data_uri_text(self.data_path()),
            },
    {
        match self.to_url() {
            Ok(u) => {
                let mut msg = String::from_str("404 Not Found (");
                msg.append(u.as_str());
                msg.append(")");
                Error::from_message(msg)
            },
            Err(e) => e,
        }
    }

    /// Determine if a particular data URI is for a file or directory, from the
    /// response to `type_request`: for 200 the type the headers name, for 404 a
    /// not-found error, else an API error with the status. None where the
    /// headers of a 200 response cannot be read.
    pub fn get_type(&self, resp: &HttpResponse) -> (r: Option<Result<DataType, Error>>)
        requires
            100 <= resp.status <= 999,
        ensures
            resp.status == 200 ==> headers::headers_outcome(
                resp.headers@,
                r,
                |d: headers::HeaderData, res: Result<DataType, Error>| res == Ok::<DataType, Error>(
                    d.data_type,
                ),
            ),
            resp.status == 404 ==> (r matches Some(res) && match client::spec_join_url(
                self.data_client().base_url@,
                data_api_path(self.data_path()),
            ) {
                Ok(u) => error::is_client_error(res, not_found_text(u)),
                Err(m) => error::is_inner_error(res, m, invalid_data_uri_text(self.data_path())),
            }),
            resp.status != 200 && resp.status != 404 ==> (r matches Some(res)
                && error::is_algorithm_error(res, error::spec_status_text(resp.status))),
    {
        if resp.status == 200 {
            match parse_headers(&resp.headers) {
                None => None,
                Some(Ok(d)) => Some(Ok(d.data_type)),
                Some(Err(e)) => Some(Err(e)),
            }
        } else if resp.status == 404 {
            Some(Err(self.not_found()))
        } else {
            let msg = status_text(resp.status);
            Some(Err(Error::from_api_error(ApiError::from_message(msg.as_str()))))
        }
    }
}

/// `v` is the item for an object at `path`, of client `client`, whose headers
/// gave the metadata `d`: a directory, or a file with the size and time the
/// headers give (0 and the launch time where they give none), each at the data
/// URI of the object.
pub open spec fn item_of_object(d: HeaderData, v: DataItem, path: Seq<char>, client: HttpClient) -> bool {
    let p = datapath::data_uri_to_path(datapath::path_to_data_uri(path));
    match d.data_type {
        DataType::Dir => v matches DataItem::Dir(di) && di.dir.dir_path() == p && di.dir.dir_client()
            == client,
        DataType::File => v matches DataItem::File(fi) && fi.size == (match d.content_length {
            Some(n) => n,
            None => 0,
        }) && fi.last_modified == (match d.last_modified {
            Some(t) => t,
            None => headers::launch_time_spec(),
        }) && fi.file.file_path() == p && fi.file.file_client() == client,
    }
}

/// The item at `path` that headers `h` describe (no error message, a readable
/// `content-length` and `date`): a directory where `x-data-type` is
/// `directory`; a file where it is `file`, with the size the content length
/// gives (0 without one) and the time the `date` header gives (the launch
/// time only without one).
pub proof fn law_item_of_headers(
    h: Seq<(String, String)>,
    r: Option<Result<DataItem, Error>>,
    path: Seq<char>,
    c: HttpClient,
)
    requires
        headers::headers_outcome(
            h,
            r,
            |d: HeaderData, res: Result<DataItem, Error>| res matches Ok(v) && item_of_object(d, v, path, c),
        ),
        client::header_get(h, "x-error-message"@) is None,
        headers::content_length_ok(h),
        headers::date_ok(h),
    ensures
        client::header_get(h, "x-data-type"@) == Some("directory"@) ==> (r matches Some(
            Ok(DataItem::Dir(di)),
        ) && di.dir.dir_client() == c),
        client::header_get(h, "x-data-type"@) == Some("file"@) ==> (r matches Some(
            Ok(DataItem::File(fi)),
        ) && fi.file.file_client() == c && fi.size == (match headers::content_length_of(h) {
            Some(n) => n,
            None => 0,
        }) && match headers::date_of(h) {
            Some(t) => fi.last_modified == t,
            None => fi.last_modified == headers::launch_time_spec(),
        }),
{
    reveal_strlit("file");
    reveal_strlit("directory");
    assert("file"@.len() != "directory"@.len());
}

/// The data type that headers `h` name (no error message, a readable
/// `content-length` and `date`): `directory` is a directory, `file` a file.
pub proof fn law_type_of_headers(h: Seq<(String, String)>, r: Option<Result<DataType, Error>>)
    requires
        headers::headers_outcome(
            h,
            r,
            |d: HeaderData, res: Result<DataType, Error>| res == Ok::<DataType, Error>(d.data_type),
        ),
        client::header_get(h, "x-error-message"@) is None,
        headers::content_length_ok(h),
        headers::date_ok(h),
    ensures
        client::header_get(h, "x-data-type"@) == Some("directory"@) ==> r == Some(
            Ok::<DataType, Error>(DataType::Dir),
        ),
        client::header_get(h, "x-data-type"@) == Some("file"@) ==> r == Some(
            Ok::<DataType, Error>(DataType::File),
        ),
{
    reveal_strlit("file");
    reveal_strlit("directory");
    assert("file"@.len() != "directory"@.len());
}

impl DataObject {
    /// The directory at this object's data URI (`From<DataObject> for DataDir`).
    pub fn into_dir(self) -> (r: DataDir)
        ensures
            r.dir_path() == datapath::data_uri_to_path(datapath::path_to_data_uri(self.data_path())),
            r.dir_client() == self.data_client(),
    {
        let uri = self.to_data_uri();
        DataDir::at(self.client, uri.as_str())
    }

    /// The file at this object's data URI (`From<DataObject> for DataFile`).
    pub fn into_file(self) -> (r: DataFile)
        ensures
            r.file_path() == datapath::data_uri_to_path(datapath::path_to_data_uri(self.data_path())),
            r.file_client() == self.data_client(),
    {
        let uri = self.to_data_uri();
        DataFile::at(self.client, uri.as_str())
    }

    /// Determine if a data URI is for a file or directory and convert into the
    /// appropriate type, from the response to `type_request`: for 404 a
    /// not-found error, else the item the headers describe. None where the
    /// headers cannot be read.
    pub fn into_type(self, resp: &HttpResponse) -> (r: Option<Result<DataItem, Error>>)
        ensures
            resp.status == 404 ==> (r matches Some(res) && match client::spec_join_url(
                self.data_client().base_url@,
                data_api_path(self.data_path()),
            ) {
                Ok(u) => error::is_client_error(res, not_found_text(u)),
                Err(m) => error::is_inner_error(res, m, invalid_data_uri_text(self.data_path())),
            }),
            resp.status != 404 ==> headers::headers_outcome(
                resp.headers@,
                r,
                |d: HeaderData, res: Result<DataItem, Error>| res matches Ok(v) && item_of_object(
                    d,
                    v,
                    self.data_path(),
                    self.data_client(),
                ),
            ),
    {
        if resp.status == 404 {
            return Some(Err(self.not_found()));
        }
        let metadata = match parse_headers(&resp.headers) {
            None => {
                return None;
            },
            Some(Err(e)) => {
                return Some(Err(e));
            },
            Some(Ok(d)) => d,
        };
        match metadata.data_type {
            DataType::Dir => Some(Ok(DataItem::Dir(DataDirItem { dir: self.into_dir() }))),
            DataType::File => {
                let size = match metadata.content_length {
                    Some(n) => n,
                    None => 0,
                };
                let last_modified = match metadata.last_modified {
                    Some(t) => t,
                    None => launch_time(),
                };
                let file = self.into_file();
                Some(Ok(DataItem::File(DataFileItem { size, last_modified, file })))
            },
        }
    }
}

} // verus!

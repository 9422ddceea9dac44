//! The HTTP side of the client: authentication, requests to build and responses to read.
//!
//! Requests are described here as plain values; sending them is left to the caller.

use vstd::prelude::*;
use vstd::string::*;
use vstd::utf8::*;
use crate::error::{ApiError, ApiErrorResponse, Error, ErrorKind};
use crate::error;
use crate::json;

verus! {

/// The version of this client, as it names itself to the API.
pub const CLIENT_VERSION: &'static str = "3.0.0";

/// The version of the Rust compiler, as the client names it to the API.
pub const RUSTC_VERSION: &'static str = "unknown";

/// Represent the different ways to auth with the API
#[derive(Debug)]
pub enum ApiAuth {
    /// Algorithmia API key to use for authentication
    ApiKey(String),
    /// Use unauthenticated request (common for on-platform algorithms)
    Unauthenticated,
}

impl Clone for ApiAuth {
    fn clone(&self) -> (r: Self)
        ensures
            r == *self,
    {
        match self {
            ApiAuth::ApiKey(k) => ApiAuth::ApiKey(k.clone()),
            ApiAuth::Unauthenticated => ApiAuth::Unauthenticated,
        }
    }
}

/// The authentication of an API key: none for an empty key.
pub open spec fn auth_of_key(api_key: String) -> ApiAuth {
    if api_key@.len() == 0 {
        ApiAuth::Unauthenticated
    } else {
        ApiAuth::ApiKey(api_key)
    }
}

impl ApiAuth {
    /// The authentication of an API key (`From<String>`): an empty key is none.
    pub fn from_key(api_key: String) -> (r: ApiAuth)
        ensures
            r == auth_of_key(api_key),
    {
        if api_key.as_str().unicode_len() == 0 {
            ApiAuth::Unauthenticated
        } else {
            ApiAuth::ApiKey(api_key)
        }
    }

    /// The authentication of an API key (`From<&str>`): an empty key is none.
    pub fn from_str_key(api_key: &str) -> (r: ApiAuth)
        ensures
            api_key@.len() == 0 ==> r is Unauthenticated,
            api_key@.len() > 0 ==> (r matches ApiAuth::ApiKey(k) && k@ == api_key@),
    {
        ApiAuth::from_key(String::from_str(api_key))
    }

    /// No authentication (`From<()>`).
    pub fn none() -> (r: ApiAuth)
        ensures
            r is Unauthenticated,
    {
        ApiAuth::Unauthenticated
    }
}

/// HTTP methods the client uses.
#[derive(Debug, Clone, Copy, PartialEq, Eq, Structural)]
pub enum Method {
    Get,
    Head,
    Post,
    Put,
    Delete,
}

/// A request to send: method, URL, headers (lower-case names) and body.
#[derive(Debug)]
pub struct HttpRequest {
    pub method: Method,
    pub url: String,
    pub headers: Vec<(String, String)>,
    pub body: Option<Vec<u8>>,
}

/// A response as received: status, headers (lower-case names, values as text) and body.
#[derive(Debug)]
pub struct HttpResponse {
    pub status: u16,
    pub headers: Vec<(String, String)>,
    pub body: Vec<u8>,
}

/// The views of a list of headers.
pub open spec fn header_views(h: Seq<(String, String)>) -> Seq<(Seq<char>, Seq<char>)> {
    h.map_values(|p: (String, String)| (p.0@, p.1@))
}

/// The index of the first header named `name`, at or after `i`, or -1.
pub open spec fn header_index_from(h: Seq<(String, String)>, name: Seq<char>, i: int) -> int
    decreases h.len() - i,
{
    if i < 0 || i >= h.len() {
        -1
    } else if h[i].0@ == name {
        i
    } else {
        header_index_from(h, name, i + 1)
    }
}

/// The value of the first header named `name`.
pub open spec fn header_get(h: Seq<(String, String)>, name: Seq<char>) -> Option<Seq<char>> {
    let i = header_index_from(h, name, 0);
    if i < 0 {
        None
    } else {
        Some(h[i].1@)
    }
}

/// The value of the first header named `name` (`HeaderMap::get`).
pub fn get_header<'a>(h: &'a Vec<(String, String)>, name: &str) -> (r: Option<&'a String>)
    ensures
        match r {
            Some(v) => header_get(h@, name@) == Some(v@),
            None => header_get(h@, name@) is None,
        },
{
    let k = String::from_str(name);
    let n = h.len();
    let mut i: usize = 0;
    while i < n
        invariant
            n == h@.len(),
            i <= n,
            k@ == name@,
            header_index_from(h@, name@, 0) == header_index_from(h@, name@, i as int),
        decreases n - i,
    {
        if h[i].0 == k {
            assert(header_index_from(h@, name@, i as int) == i);
            return Some(&h[i].1);
        }
        i = i + 1;
    }
    None
}

/// A character that `http::HeaderValue::from_str` accepts (its UTF-8 bytes are
/// all visible ASCII, tab, or above 127).
pub open spec fn header_char_ok(c: char) -> bool {
    c == '\t' || (c as int >= 32 && c as int != 127)
}

/// Text that `http::HeaderValue::from_str` accepts.
pub open spec fn valid_header_text(s: Seq<char>) -> bool {
    forall|i: int| 0 <= i < s.len() ==> header_char_ok(#[trigger] s[i])
}

/// Whether `http::HeaderValue::from_str` accepts the text.
pub fn is_valid_header_text(s: &str) -> (r: bool)
    ensures
        r == valid_header_text(s@),
{
    let n = s.unicode_len();
    let mut i: usize = 0;
    while i < n
        invariant
            n == s@.len(),
            i <= n,
            forall|j: int| 0 <= j < i ==> header_char_ok(#[trigger] s@[j]),
        decreases n - i,
    {
        let c = s.get_char(i);
        if !(c == '\t' || ((c as u32) >= 32 && (c as u32) != 127)) {
            assert(!header_char_ok(s@[i as int]));
            return false;
        }
        i = i + 1;
    }
    true
}

/// The scheme of the `Authorization` header for API keys.
pub open spec fn simple_prefix() -> Seq<char> {
    "Simple "@
}

/// The `Authorization` header value for an API key: `Simple <key>`, if it is a
/// valid header value; else the error "API key is invalid".
pub fn simple_credentials(token: &str) -> (r: Result<String, Error>)
    ensures
        valid_header_text(simple_prefix() + token@) ==> (r matches Ok(v) && v@ == simple_prefix()
            + token@),
        !valid_header_text(simple_prefix() + token@) ==> (r matches Err(e) && e.kind matches ErrorKind::Inner(m)
            && m@ == "failed to parse header value"@ && e.ctx@ == "API key is invalid"@),
{
    let mut v = String::from_str("Simple ");
    v.append(token);
    if is_valid_header_text(v.as_str()) {
        Ok(v)
    } else {
        Err(Error::inner(String::from_str("failed to parse header value"), "API key is invalid"))
    }
}

/// What `url::Url::parse` gives for `text`: the serialization of the URL, or the
/// text of the error.
pub uninterp spec fn spec_parse_url(text: Seq<char>) -> Result<Seq<char>, Seq<char>>;

/// What `url::Url::join` gives for `input` against the URL `base`: the
/// serialization of the joined URL, or the text of the error.
pub uninterp spec fn spec_join_url(base: Seq<char>, input: Seq<char>) -> Result<Seq<char>, Seq<char>>;

/// What `url::form_urlencoded::Serializer::append_pair` (through
/// `url::Url::query_pairs_mut`) gives when it appends `key=value` to the query of
/// the URL `url`.
pub uninterp spec fn spec_append_query_pair(url: Seq<char>, key: Seq<char>, value: Seq<char>) -> Seq<char>;

/// Parses a URL with `url::Url::parse` and gives its serialization.
/// Claimed: the result is `spec_parse_url` of the text.
#[verifier::external_body]
pub(crate) fn parse_url(text: &str) -> (r: Result<String, String>)
    ensures
        match r {
            Ok(u) => spec_parse_url(text@) == Ok::<Seq<char>, Seq<char>>(u@),
            Err(e) => spec_parse_url(text@) == Err::<Seq<char>, Seq<char>>(e@),
        },
{
    url::Url::parse(text).map(|u| u.to_string()).map_err(|e| e.to_string())
}

/// Joins `input` to the URL `base` (a serialization that `parse_url` gave) with
/// `url::Url::join`. Claimed: the result is `spec_join_url` of the two.
#[verifier::external_body]
pub(crate) fn join_url(base: &str, input: &str) -> (r: Result<String, String>)
    ensures
        match r {
            Ok(u) => spec_join_url(base@, input@) == Ok::<Seq<char>, Seq<char>>(u@),
            Err(e) => spec_join_url(base@, input@) == Err::<Seq<char>, Seq<char>>(e@),
        },
{
    url::Url::parse(base).and_then(|b| b.join(input)).map(|u| u.to_string()).map_err(
        |e| e.to_string(),
    )
}

/// Appends `key=value` to the query of the URL `url` (a serialization that
/// `parse_url` or `join_url` gave) with `url::Url::query_pairs_mut().append_pair`;
/// text that `url::Url::parse` refuses is given back as it is.
/// Claimed: the result is `spec_append_query_pair` of the three.
#[verifier::external_body]
pub(crate) fn append_query_pair(url: &str, key: &str, value: &str) -> (r: String)
    ensures
        r@ == spec_append_query_pair(url@, key@, value@),
{
    match url::Url::parse(url) {
        Ok(mut u) => {
            u.query_pairs_mut().append_pair(key, value);
            u.to_string()
        },
        Err(_) => url.to_string(),
    }
}

/// The user agent the client sends: `algorithmia-rust/<version> (Rust <rustc version>`.
pub open spec fn user_agent_text() -> Seq<char> {
    "algorithmia-rust/"@ + CLIENT_VERSION@ + " (Rust "@ + RUSTC_VERSION@
}

/// Internal `HttpClient` to build requests
#[derive(Debug)]
pub struct HttpClient {
    pub base_url: String,
    pub api_auth: ApiAuth,
    pub user_agent: String,
}

impl Clone for HttpClient {
    fn clone(&self) -> (r: Self)
        ensures
            r == *self,
    {
        HttpClient {
            base_url: self.base_url.clone(),
            api_auth: self.api_auth.clone(),
            user_agent: self.user_agent.clone(),
        }
    }
}

/// The headers of a request by a client with the given user agent and authentication.
pub open spec fn request_headers(user_agent: Seq<char>, auth: ApiAuth) -> Seq<(Seq<char>, Seq<char>)> {
    seq![("user-agent"@, user_agent)] + match auth {
        ApiAuth::ApiKey(k) => seq![("authorization"@, simple_prefix() + k@)],
        ApiAuth::Unauthenticated => Seq::empty(),
    }
}

/// The client's API key, if any, makes a valid header.
pub open spec fn auth_valid(auth: ApiAuth) -> bool {
    auth matches ApiAuth::ApiKey(k) ==> valid_header_text(simple_prefix() + k@)
}

impl HttpClient {
    /// Instantiate an `HttpClient` for the API at `base_url`.
    pub fn new(api_auth: ApiAuth, base_url: &str) -> (r: Result<HttpClient, Error>)
        ensures
            match spec_parse_url(base_url@) {
                Ok(u) => r matches Ok(c) && c.base_url@ == u && c.api_auth == api_auth
                    && c.user_agent@ == user_agent_text(),
                Err(m) => r matches Err(e) && e.kind matches ErrorKind::Inner(t) && t@ == m
                    && e.ctx@ == "Invalid base URL"@,
            },
    {
        match parse_url(base_url) {
            Ok(u) => {
                let mut ua = String::from_str("algorithmia-rust/");
                ua.append(CLIENT_VERSION);
                ua.append(" (Rust ");
                ua.append(RUSTC_VERSION);
                Ok(HttpClient { base_url: u, api_auth, user_agent: ua })
            },
            Err(m) => Err(Error::inner(m, "Invalid base URL")),
        }
    }

    /// The client's API key, if any, makes a valid `Authorization` header
    /// (requests of a client whose key does not are refused).
    pub fn auth_is_valid(&self) -> (r: bool)
        ensures
            r == auth_valid(self.api_auth),
    {
        match &self.api_auth {
            ApiAuth::ApiKey(k) => simple_credentials(k.as_str()).is_ok(),
            ApiAuth::Unauthenticated => true,
        }
    }

    /// A request with the client's user agent and authentication.
    pub fn build_request(&self, verb: Method, url: String) -> (r: HttpRequest)
        requires
            auth_valid(self.api_auth),
        ensures
            r.method == verb,
            r.url == url,
            header_views(r.headers@) == request_headers(self.user_agent@, self.api_auth),
            r.body is None,
    {
        let mut headers: Vec<(String, String)> = Vec::new();
        headers.push((String::from_str("user-agent"), self.user_agent.clone()));
        match &self.api_auth {
            ApiAuth::ApiKey(k) => {
                let mut v = String::from_str("Simple ");
                v.append(k.as_str());
                headers.push((String::from_str("authorization"), v));
            },
            ApiAuth::Unauthenticated => {},
        }
        assert(header_views(headers@) =~= request_headers(self.user_agent@, self.api_auth));
        HttpRequest { method: verb, url, headers, body: None }
    }

    /// Helper to make Algorithmia GET requests with the API key
    pub fn get(&self, url: String) -> (r: HttpRequest)
        requires
            auth_valid(self.api_auth),
        ensures
            r.method == Method::Get,
            r.url == url,
            header_views(r.headers@) == request_headers(self.user_agent@, self.api_auth),
            r.body is None,
    {
        self.build_request(Method::Get, url)
    }

    /// Helper to make Algorithmia HEAD requests with the API key
    pub fn head(&self, url: String) -> (r: HttpRequest)
        requires
            auth_valid(self.api_auth),
        ensures
            r.method == Method::Head,
            r.url == url,
            header_views(r.headers@) == request_headers(self.user_agent@, self.api_auth),
            r.body is None,
    {
        self.build_request(Method::Head, url)
    }

    /// Helper to make Algorithmia POST requests with the API key
    pub fn post(&self, url: String) -> (r: HttpRequest)
        requires
            auth_valid(self.api_auth),
        ensures
            r.method == Method::Post,
            r.url == url,
            header_views(r.headers@) == request_headers(self.user_agent@, self.api_auth),
            r.body is None,
    {
        self.build_request(Method::Post, url)
    }

    /// Helper to make Algorithmia PUT requests with the API key
    pub fn put(&self, url: String) -> (r: HttpRequest)
        requires
            auth_valid(self.api_auth),
        ensures
            r.method == Method::Put,
            r.url == url,
            header_views(r.headers@) == request_headers(self.user_agent@, self.api_auth),
            r.body is None,
    {
        self.build_request(Method::Put, url)
    }

    /// Helper to make Algorithmia DELETE requests with the API key
    pub fn delete(&self, url: String) -> (r: HttpRequest)
        requires
            auth_valid(self.api_auth),
        ensures
            r.method == Method::Delete,
            r.url == url,
            header_views(r.headers@) == request_headers(self.user_agent@, self.api_auth),
            r.body is None,
    {
        self.build_request(Method::Delete, url)
    }
}

/// Decodes bytes as UTF-8 text with `std::str::from_utf8`: text exactly for valid UTF-8.
#[verifier::external_body]
pub(crate) fn utf8_text(bytes: &Vec<u8>) -> (r: Option<String>)
    ensures
        r is Some <==> valid_utf8(bytes@),
        r matches Some(t) ==> t@ == decode_utf8(bytes@),
{
    std::str::from_utf8(bytes.as_slice()).ok().map(|s| s.to_string())
}

/// What `String::from_utf8_lossy` gives for `bytes`: their UTF-8 text, with
/// each invalid sequence replaced by U+FFFD.
pub uninterp spec fn spec_utf8_lossy(bytes: Seq<u8>) -> Seq<char>;

/// Decodes bytes as UTF-8 with `String::from_utf8_lossy`.
/// Claimed: the result is `spec_utf8_lossy` of the bytes; valid UTF-8 is
/// decoded as it is (std documents that only invalid sequences are replaced).
#[verifier::external_body]
pub(crate) fn utf8_lossy(bytes: &[u8]) -> (r: String)
    ensures
        r@ == spec_utf8_lossy(bytes@),
        valid_utf8(bytes@) ==> r@ == decode_utf8(bytes@),
{
    String::from_utf8_lossy(bytes).to_string()
}

/// The status is a success (2xx).
pub open spec fn is_success(status: u16) -> bool {
    200 <= status <= 299
}

/// The API error a response body holds: an API error response in UTF-8 JSON.
pub open spec fn body_api_error(body: Seq<u8>) -> Option<json::JsonValue> {
    if valid_utf8(body) {
        match json::spec_parse_json(decode_utf8(body)) {
            Ok(v) => if error::is_api_error_response(v) {
                Some(v)
            } else {
                None
            },
            Err(_) => None,
        }
    } else {
        None
    }
}



/// The API error of a failed response: from the body if it is an API error
/// response, else from the `x-error-message` header.
pub open spec fn response_api_error(resp: HttpResponse, e: Option<ApiError>) -> bool {
    match body_api_error(resp.body@) {
        Some(v) => e matches Some(err) && error::api_error_field(v) matches Some(ev)
            && error::decodes_api_error(ev, err),
        None => match header_get(resp.headers@, "x-error-message"@) {
            Some(m) => e matches Some(err) && err.message@ == m && err.error_type is None
                && err.stacktrace is None,
            None => e is None,
        },
    }
}

/// The API error that a response body holds, if it is an API error response in UTF-8 JSON.
fn decode_body_api_error(body: &Vec<u8>) -> (r: Option<ApiError>)
    ensures
        match body_api_error(body@) {
            Some(v) => r matches Some(err) && error::api_error_field(v) matches Some(ev)
                && error::decodes_api_error(ev, err),
            None => r is None,
        },
{
    match utf8_text(body) {
        Some(t) => match json::value_from_str(t.as_str()) {
            Ok(v) => match ApiErrorResponse::from_json_value(&v) {
                Some(res) => Some(res.error),
                None => None,
            },
            Err(_) => None,
        },
        None => None,
    }
}

/// Checks the status of a response: a success passes; a failure is an HTTP
/// error with the status and the API error the server sent, if any.
pub fn process_http_response(resp: &HttpResponse) -> (r: Result<(), Error>)
    ensures
        is_success(resp.status) ==> r is Ok,
        !is_success(resp.status) ==> (r matches Err(e) && e.kind matches ErrorKind::Http(s, api)
            && s == Some(resp.status) && response_api_error(*resp, api) && e.ctx@
            == Seq::<char>::empty()),
{
    if 200 <= resp.status && resp.status <= 299 {
        return Ok(());
    }
    let api_err = match decode_body_api_error(&resp.body) {
        Some(e) => Some(e),
        None => match get_header(&resp.headers, "x-error-message") {
            Some(m) => Some(ApiError { message: m.clone(), error_type: None, stacktrace: None }),
            None => None,
        },
    };
    Err(Error { kind: ErrorKind::Http(Some(resp.status), api_err), ctx: String::new() })
}

} // verus!

//! Client library for the Algorithmia API: data URIs, algorithm URIs,
//! request construction and response interpretation.

pub mod text;
pub mod data;
pub mod num;
pub mod algo;
pub mod json;
pub mod error;
pub mod client;
pub mod codec;
pub mod faas;
pub mod entrypoint;
pub mod entry_item;
pub mod collection;

use vstd::prelude::*;
use vstd::string::*;
use crate::algo::algorithm::Algorithm;
use crate::algo::uri::AlgoUri;
use crate::client::{ApiAuth, HttpClient};
use crate::data::path as datapath;
use crate::data::dir::DataDir;
use crate::data::file::DataFile;
use crate::data::object::{DataObject, HasDataPath};
use crate::error::{Error, ErrorKind};

verus! {

/// The API the client talks to unless told otherwise.
pub const DEFAULT_API_BASE_URL: &'static str = "https://api.algorithmia.com";

/// The top-level struct for instantiating Algorithmia client endpoints
#[derive(Debug)]
pub struct Algorithmia {
    http_client: HttpClient,
}

/// `auth` is the authentication of the API key `key`: none for no key or an
/// empty one.
pub open spec fn auth_of(auth: ApiAuth, key: Option<Seq<char>>) -> bool {
    match key {
        Some(k) => if k.len() == 0 {
            auth is Unauthenticated
        } else {
            auth matches ApiAuth::ApiKey(s) && s@ == k
        },
        None => auth is Unauthenticated,
    }
}

/// `r` is a client of the API at `base` with the API key `key`, or the
/// error of a base URL that does not parse.
pub open spec fn client_outcome(r: Result<Algorithmia, Error>, base: Seq<char>, key: Option<Seq<char>>) -> bool {
    match client::spec_parse_url(base) {
        Ok(u) => r matches Ok(a) && a.http().base_url@ == u && auth_of(a.http().api_auth, key)
            && a.http().user_agent@ == client::user_agent_text(),
        Err(m) => r matches Err(e) && e.kind matches ErrorKind::Inner(t) && t@ == m && e.ctx@
            == "Invalid base URL"@,
    }
}

/// The base URL: the one given, else the default.
pub open spec fn base_or_default(api_address: Option<String>) -> Seq<char> {
    match api_address {
        Some(a) => a@,
        None => DEFAULT_API_BASE_URL@,
    }
}

impl Algorithmia {
    /// The HTTP client of this client.
    pub closed spec fn http(&self) -> HttpClient {
        self.http_client
    }

    /// Instantiate a new client from the values of the environment variables
    /// `ALGORITHMIA_API` (the base URL, default `https://api.algorithmia.com`)
    /// and `ALGORITHMIA_API_KEY` (the API key, none where it is unset or empty).
    pub fn new(api_address: Option<String>, api_key: Option<String>) -> (r: Result<Algorithmia, Error>)
        ensures
            client_outcome(
                r,
                base_or_default(api_address),
                match api_key {
                    Some(k) => Some(k@),
                    None => None,
                },
            ),
    {
        let base = match api_address {
            Some(a) => a,
            None => String::from_str(DEFAULT_API_BASE_URL),
        };
        let auth = match api_key {
            Some(k) => ApiAuth::from_key(k),
            None => ApiAuth::none(),
        };
        match HttpClient::new(auth, base.as_str()) {
            Ok(c) => Ok(Algorithmia { http_client: c }),
            Err(e) => Err(e),
        }
    }

    /// Instantiate a new client with an API key (empty for none), against the
    /// base URL of `ALGORITHMIA_API` (given as `api_address`) or the default.
    pub fn client(api_key: &str, api_address: Option<String>) -> (r: Result<Algorithmia, Error>)
        ensures
            client_outcome(r, base_or_default(api_address), Some(api_key@)),
    {
        let base = match api_address {
            Some(a) => a,
            None => String::from_str(DEFAULT_API_BASE_URL),
        };
        match HttpClient::new(ApiAuth::from_str_key(api_key), base.as_str()) {
            Ok(c) => Ok(Algorithmia { http_client: c }),
            Err(e) => Err(e),
        }
    }

    /// Instantiate a new client against alternate API servers
    pub fn client_with_url(api_key: &str, base_url: &str) -> (r: Result<Algorithmia, Error>)
        ensures
            client_outcome(r, base_url@, Some(api_key@)),
    {
        match HttpClient::new(ApiAuth::from_str_key(api_key), base_url) {
            Ok(c) => Ok(Algorithmia { http_client: c }),
            Err(e) => Err(e),
        }
    }

    /// Instantiate an [`Algorithm`](algo/algorithm.struct.html) from this client
    pub fn algo(&self, algorithm: AlgoUri) -> (r: Algorithm)
        ensures
            r.client == self.http(),
            r.algo_uri@ == algorithm@,
            r.options.pairs().len() == 0,
    {
        Algorithm::new(self.http_client.clone(), algorithm)
    }

    /// Instantiate a `DataDirectory` from this client
    pub fn dir(&self, path: &str) -> (r: DataDir)
        ensures
            r.dir_path() == datapath::data_uri_to_path(path@),
            r.dir_client() == self.http(),
    {
        DataDir::at(self.http_client.clone(), path)
    }

    /// Instantiate a `DataFile` from this client
    pub fn file(&self, path: &str) -> (r: DataFile)
        ensures
            r.file_path() == datapath::data_uri_to_path(path@),
            r.file_client() == self.http(),
    {
        DataFile::at(self.http_client.clone(), path)
    }

    /// Instantiate a `DataPath` from this client
    ///
    /// Use this if you don't explicitly know if a Data URI is to a directory or file
    pub fn data(&self, path: &str) -> (r: DataObject)
        ensures
            r.data_path() == datapath::data_uri_to_path(path@),
            r.data_client() == self.http(),
    {
        DataObject::new(self.http_client.clone(), path)
    }
}

/// Allow cloning in order to reuse http client (and API key) for multiple connections
impl Clone for Algorithmia {
    fn clone(&self) -> (r: Self)
        ensures
            r.http() == self.http(),
    {
        Algorithmia { http_client: self.http_client.clone() }
    }
}

} // verus!

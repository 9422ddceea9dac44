//! Listing a directory of the Data API: its pages, as the API sends them, and
//! the walk over their folders and files.

use vstd::prelude::*;
use vstd::string::*;
use crate::client;
use crate::client::{HttpRequest, HttpResponse, append_query_pair, get_header};
use crate::data::dir::{DataAcl, DataDir};
use crate::data::headers;
use crate::data::headers::{Timestamp, parse_datetime};
use crate::data::object;
use crate::data::object::{DataDirItem, DataFileItem, DataItem, HasDataPath};
use crate::data::path as datapath;
use crate::error;
use crate::error::Error;
use crate::json;
use crate::json::{JsonNumber, JsonValue, value_from_str};
use crate::text;
use crate::text::str_eq;

verus! {

/// A file of a directory listing.
#[derive(Debug)]
pub struct FileItem {
    pub filename: String,
    pub size: u64,
    pub last_modified: Timestamp,
}

/// `v` is a read ACL: an object whose `read` field is an array of strings.
pub open spec fn is_acl_json(v: JsonValue) -> bool {
    match json::json_field(v, "read"@) {
        Some(JsonValue::Array(a)) => forall|i: int|
            0 <= i < a@.len() ==> (#[trigger] json::json_str(a@[i])) is Some,
        _ => false,
    }
}

/// An optional ACL field: missing, null, or an ACL.
pub open spec fn optional_acl_ok(o: Option<JsonValue>) -> bool {
    match o {
        None => true,
        Some(JsonValue::Null) => true,
        Some(v) => is_acl_json(v),
    }
}

/// The text of the string field `key` of `v`, if it is one.
pub open spec fn str_field(v: JsonValue, key: Seq<char>) -> Option<Seq<char>> {
    match json::json_field(v, key) {
        Some(f) => json::json_str(f),
        None => None,
    }
}

/// `v` is a folder of a listing: a `name` string and an optional ACL.
pub open spec fn folder_ok(v: JsonValue) -> bool {
    str_field(v, "name"@) is Some && optional_acl_ok(json::json_field(v, "acl"@))
}

/// `v` is a file of a listing: a `filename` string, a `size` that is a `u64`
/// and a `last_modified` time in RFC 3339.
pub open spec fn file_ok(v: JsonValue) -> bool {
    &&& str_field(v, "filename"@) is Some
    &&& json::json_field(v, "size"@) matches Some(JsonValue::Number(JsonNumber::PosInt(_)))
    &&& str_field(v, "last_modified"@) matches Some(t) && headers::spec_parse_datetime(t) is Some
}

/// `f` is the file that `v` describes.
pub open spec fn file_entry_of(f: FileItem, v: JsonValue) -> bool {
    &&& str_field(v, "filename"@) == Some(f.filename@)
    &&& json::json_field(v, "size"@) == Some(JsonValue::Number(JsonNumber::PosInt(f.size)))
    &&& headers::spec_parse_datetime(str_field(v, "last_modified"@)->0) == Some(
        (f.last_modified.secs, f.last_modified.nanos),
    )
}

/// An optional list field: missing, null, or an array of items that are `ok`.
pub open spec fn items_ok(o: Option<JsonValue>, ok: spec_fn(JsonValue) -> bool) -> bool {
    match o {
        None => true,
        Some(JsonValue::Null) => true,
        Some(JsonValue::Array(a)) => forall|i: int| 0 <= i < a@.len() ==> ok(#[trigger] a@[i]),
        Some(_) => false,
    }
}

/// The items of an optional list field (none where it is missing or null).
pub open spec fn items_of(o: Option<JsonValue>) -> Seq<JsonValue> {
    match o {
        Some(JsonValue::Array(a)) => a@,
        _ => Seq::empty(),
    }
}

/// An optional string field: missing, null or a string.
pub open spec fn optional_str_ok(o: Option<JsonValue>) -> bool {
    match o {
        None => true,
        Some(JsonValue::Null) => true,
        Some(v) => json::json_str(v) is Some,
    }
}

/// `v` is a page of a directory listing: an object with an optional ACL,
/// optional lists of folders and files, and an optional marker of the next page.
pub open spec fn listing_ok(v: JsonValue) -> bool {
    &&& v is Object
    &&& optional_acl_ok(json::json_field(v, "acl"@))
    &&& items_ok(json::json_field(v, "folders"@), |x: JsonValue| folder_ok(x))
    &&& items_ok(json::json_field(v, "files"@), |x: JsonValue| file_ok(x))
    &&& optional_str_ok(json::json_field(v, "marker"@))
}

/// The folder names of a page.
pub open spec fn page_folders(v: JsonValue) -> Seq<Seq<char>> {
    let a = items_of(json::json_field(v, "folders"@));
    Seq::new(a.len(), |i: int| str_field(a[i], "name"@)->0)
}

/// The file descriptions of a page.
pub open spec fn page_files(v: JsonValue) -> Seq<JsonValue> {
    items_of(json::json_field(v, "files"@))
}

/// The marker of the page after `v`, if any.
pub open spec fn page_marker(v: JsonValue) -> Option<Seq<char>> {
    match json::json_field(v, "marker"@) {
        Some(m) => json::json_str(m),
        None => None,
    }
}

/// `files` are the files that the descriptions `a` give, in order.
pub open spec fn files_of(files: Seq<FileItem>, a: Seq<JsonValue>) -> bool {
    files.len() == a.len() && forall|i: int| 0 <= i < a.len() ==> file_entry_of(#[trigger] files[i], a[i])
}

/// Checks that `v` is a read ACL.
#[verifier::loop_isolation(false)]
fn acl_ok(v: &JsonValue) -> (r: bool)
    ensures
        r == is_acl_json(*v),
{
    match v.get("read") {
        Some(JsonValue::Array(a)) => {
            let n = a.len();
            let mut i: usize = 0;
            while i < n
                invariant
                    n == a@.len(),
                    i <= n,
                    forall|j: int| 0 <= j < i ==> (#[trigger] json::json_str(a@[j])) is Some,
                decreases n - i,
            {
                match &a[i] {
                    JsonValue::String(_) => {},
                    _ => {
                        assert(json::json_str(a@[i as int]) is None);
                        return false;
                    },
                }
                i = i + 1;
            }
            true
        },
        _ => false,
    }
}

/// Checks an optional ACL field.
fn optional_acl(o: Option<&JsonValue>) -> (r: bool)
    ensures
        r == optional_acl_ok(
            match o {
                Some(v) => Some(*v),
                None => None,
            },
        ),
{
    match o {
        None => true,
        Some(JsonValue::Null) => true,
        Some(v) => acl_ok(v),
    }
}

/// The text of the string field `key` of `v`, if it is one.
fn string_field(v: &JsonValue, key: &str) -> (r: Option<String>)
    ensures
        match r {
            Some(s) => str_field(*v, key@) == Some(s@),
            None => str_field(*v, key@) is None,
        },
{
    match v.get(key) {
        Some(JsonValue::String(s)) => Some(s.clone()),
        _ => None,
    }
}

/// The name of a folder of a listing, if `v` is one.
fn decode_folder(v: &JsonValue) -> (r: Option<String>)
    ensures
        r is Some <==> folder_ok(*v),
        r matches Some(n) ==> str_field(*v, "name"@) == Some(n@),
{
    let name = match string_field(v, "name") {
        Some(n) => n,
        None => {
            return None;
        },
    };
    if optional_acl(v.get("acl")) {
        Some(name)
    } else {
        None
    }
}

/// The file of a listing that `v` describes, if it is one.
fn decode_file(v: &JsonValue) -> (r: Option<FileItem>)
    ensures
        r is Some <==> file_ok(*v),
        r matches Some(f) ==> file_entry_of(f, *v),
{
    let filename = match string_field(v, "filename") {
        Some(n) => n,
        None => {
            return None;
        },
    };
    let size = match v.get("size") {
        Some(JsonValue::Number(JsonNumber::PosInt(n))) => *n,
        _ => {
            return None;
        },
    };
    let t = match string_field(v, "last_modified") {
        Some(t) => t,
        None => {
            return None;
        },
    };
    match parse_datetime(t.as_str()) {
        Some(last_modified) => Some(FileItem { filename, size, last_modified }),
        None => None,
    }
}

/// A page of a directory listing: folder names, files and the marker of the
/// next page.
#[derive(Debug)]
pub struct ListingPage {
    pub folders: Vec<String>,
    pub files: Vec<FileItem>,
    pub marker: Option<String>,
}

/// `p` is the page that `v` describes.
pub open spec fn page_of(p: ListingPage, v: JsonValue) -> bool {
    &&& text::views(p.folders@) == page_folders(v)
    &&& files_of(p.files@, page_files(v))
    &&& match p.marker {
        Some(m) => page_marker(v) == Some(m@),
        None => page_marker(v) is None,
    }
}

/// Decodes a page of a directory listing, if `v` is one.
#[verifier::loop_isolation(false)]
pub fn decode_listing(v: &JsonValue) -> (r: Option<ListingPage>)
    ensures
        r is Some <==> listing_ok(*v),
        r matches Some(p) ==> page_of(p, *v),
{
    match v {
        JsonValue::Object(_) => {},
        _ => {
            return None;
        },
    }
    if !optional_acl(v.get("acl")) {
        return None;
    }
    let mut folders: Vec<String> = Vec::new();
    match v.get("folders") {
        None => {},
        Some(JsonValue::Null) => {},
        Some(JsonValue::Array(a)) => {
            let n = a.len();
            let mut i: usize = 0;
            while i < n
                invariant
                    n == a@.len(),
                    i <= n,
                    folders@.len() == i,
                    forall|j: int| 0 <= j < i ==> #[trigger] folder_ok(a@[j]),
                    forall|j: int| 0 <= j < i ==> Some(#[trigger] folders@[j]@) == str_field(a@[j], "name"@),
                decreases n - i,
            {
                match decode_folder(&a[i]) {
                    Some(name) => {
                        folders.push(name);
                    },
                    None => {
                        return None;
                    },
                }
                i = i + 1;
            }
            assert(text::views(folders@) =~= page_folders(*v));
        },
        Some(_) => {
            return None;
        },
    }
    let mut files: Vec<FileItem> = Vec::new();
    match v.get("files") {
        None => {},
        Some(JsonValue::Null) => {},
        Some(JsonValue::Array(a)) => {
            let n = a.len();
            let mut i: usize = 0;
            while i < n
                invariant
                    n == a@.len(),
                    i <= n,
                    files@.len() == i,
                    forall|j: int| 0 <= j < i ==> #[trigger] file_ok(a@[j]),
                    forall|j: int| 0 <= j < i ==> file_entry_of(#[trigger] files@[j], a@[j]),
                decreases n - i,
            {
                match decode_file(&a[i]) {
                    Some(f) => {
                        files.push(f);
                    },
                    None => {
                        return None;
                    },
                }
                i = i + 1;
            }
        },
        Some(_) => {
            return None;
        },
    }
    let marker = match v.get("marker") {
        None => None,
        Some(JsonValue::Null) => None,
        Some(JsonValue::String(m)) => Some(m.clone()),
        Some(_) => {
            return None;
        },
    };
    assert(text::views(folders@) =~= page_folders(*v));
    Some(ListingPage { folders, files, marker })
}

/// What the walk over a listing does next.
#[derive(Debug)]
pub enum ListingStep {
    /// Yield the next folder or file.
    Item(DataItem),
    /// Ask for the next page: send the request and hand its response to
    /// `receive_page`; an error here is yielded as it is.
    Fetch(Result<HttpRequest, Error>),
    /// The listing is over.
    Done,
}

/// Iterator over the listing of a `DataDir`
#[derive(Debug)]
pub struct DirectoryListing<'a> {
    /// ACL indicates permissions for this `DataDir`
    pub acl: Option<DataAcl>,
    dir: &'a DataDir,
    folders: Vec<String>,
    folder_pos: usize,
    files: Vec<FileItem>,
    file_pos: usize,
    marker: Option<String>,
    queried: bool,
}

/// The views of an optional string.
pub open spec fn opt_chars(o: Option<String>) -> Option<Seq<char>> {
    match o {
        Some(s) => Some(s@),
        None => None,
    }
}

/// `r` is the request for the page of the listing of `d` after `marker`: a
/// GET of its URL with the marker in the query, or the error of its URL.
pub open spec fn page_request_outcome(
    r: Result<HttpRequest, Error>,
    d: DataDir,
    marker: Option<Seq<char>>,
) -> bool {
    match client::spec_join_url(d.dir_client().base_url@, object::data_api_path(d.dir_path())) {
        Ok(u) => r matches Ok(req) && req.method == client::Method::Get && req.url@ == (match marker {
            Some(m) => client::spec_append_query_pair(u, "marker"@, m),
            None => u,
        }) && client::header_views(req.headers@) == client::request_headers(
            d.dir_client().user_agent@,
            d.dir_client().api_auth,
        ) && req.body is None,
        Err(m) => error::is_inner_error(r, m, object::invalid_data_uri_text(d.dir_path())),
    }
}

impl<'a> DirectoryListing<'a> {
    /// The positions are within the lists.
    pub closed spec fn wf(&self) -> bool {
        self.folder_pos <= self.folders@.len() && self.file_pos <= self.files@.len()
    }

    /// The directory listed.
    pub closed spec fn listed_dir(&self) -> DataDir {
        *self.dir
    }

    /// The ACL of the listing.
    pub closed spec fn acl_spec(&self) -> Option<DataAcl> {
        self.acl
    }

    /// The folder names of the current page not yet yielded.
    pub closed spec fn folders_left(&self) -> Seq<Seq<char>> {
        text::views(self.folders@.subrange(self.folder_pos as int, self.folders@.len() as int))
    }

    /// The files of the current page not yet yielded.
    pub closed spec fn files_left(&self) -> Seq<FileItem> {
        self.files@.subrange(self.file_pos as int, self.files@.len() as int)
    }

    /// The marker of the next page.
    pub closed spec fn next_marker(&self) -> Option<Seq<char>> {
        opt_chars(self.marker)
    }

    /// A page has been asked for.
    pub closed spec fn has_queried(&self) -> bool {
        self.queried
    }

    /// The two listings are at the same place.
    pub open spec fn same_place(&self, other: &Self) -> bool {
        &&& self.folders_left() == other.folders_left()
        &&& self.files_left() == other.files_left()
        &&& self.next_marker() == other.next_marker()
        &&& self.has_queried() == other.has_queried()
    }

    /// What `next_step` does: yield the next folder, else the next file, else
    /// ask for the first page or the page after the marker, else stop.
    pub open spec fn step_outcome(&self, after: &Self, r: ListingStep) -> bool {
        let d = self.listed_dir();
        if self.folders_left().len() > 0 {
            &&& r matches ListingStep::Item(DataItem::Dir(di)) && di.dir.dir_path()
                == datapath::data_uri_to_path(datapath::child_data_uri(d.dir_path(), self.folders_left()[0]))
                && di.dir.dir_client() == d.dir_client()
            &&& after.folders_left() == self.folders_left().drop_first()
            &&& after.files_left() == self.files_left()
            &&& after.next_marker() == self.next_marker()
            &&& after.has_queried() == self.has_queried()
        } else if self.files_left().len() > 0 {
            let f = self.files_left()[0];
            &&& r matches ListingStep::Item(DataItem::File(fi)) && fi.size == f.size && fi.last_modified
                == f.last_modified && fi.file.file_path() == datapath::data_uri_to_path(
                datapath::child_data_uri(d.dir_path(), f.filename@),
            ) && fi.file.file_client() == d.dir_client()
            &&& after.folders_left() == self.folders_left()
            &&& after.files_left() == self.files_left().drop_first()
            &&& after.next_marker() == self.next_marker()
            &&& after.has_queried() == self.has_queried()
        } else if !self.has_queried() || self.next_marker() is Some {
            &&& r matches ListingStep::Fetch(res) && page_request_outcome(res, d, self.next_marker())
            &&& after.folders_left() == self.folders_left()
            &&& after.files_left() == self.files_left()
            &&& after.next_marker() == self.next_marker()
            &&& after.has_queried()
        } else {
            r is Done && after.same_place(self)
        }
    }
}

/// The message for a listing whose response names another data type.
pub open spec fn unexpected_dir_text(t: Seq<char>) -> Seq<char> {
    "expected API response with data type 'directory', received '"@ + t + "'"@
}

/// The context of an error decoding a listing.
pub open spec fn listing_ctx() -> Seq<char> {
    "failed to decode directory listing json"@
}

/// The message for JSON that is not a page of a listing.
pub open spec fn not_listing_text() -> Seq<char> {
    "JSON is not a directory listing"@
}

/// The response names a data type other than a directory.
pub open spec fn names_other_type(resp: HttpResponse) -> bool {
    match client::header_get(resp.headers@, "x-data-type"@) {
        Some(t) => t != "directory"@,
        None => false,
    }
}

impl<'a> DirectoryListing<'a> {
    /// What `receive_page` does with the response `resp`: a successful page
    /// becomes the current page; anything else is an error, with the
    /// listing where it was.
    pub open spec fn page_outcome(&self, after: &Self, resp: HttpResponse, r: Result<(), Error>) -> bool {
        let d = self.listed_dir();
        let ok = client::is_success(resp.status);
        if ok && names_other_type(resp) {
            error::is_client_error(
                r,
                unexpected_dir_text(client::header_get(resp.headers@, "x-data-type"@)->0),
            ) && after.same_place(self)
        } else if !vstd::utf8::valid_utf8(resp.body@) {
            error::is_inner_error(
                r,
                "stream did not contain valid UTF-8"@,
                crate::data::dir::io_ctx("listing"@, d.dir_path()),
            ) && after.same_place(self)
        } else if !ok {
            (r matches Err(e) && crate::data::dir::failure_of_text(
                vstd::utf8::decode_utf8(resp.body@),
                e,
            )) && after.same_place(self)
        } else {
            match json::spec_parse_json(vstd::utf8::decode_utf8(resp.body@)) {
                Err(m) => error::is_inner_error(r, m, listing_ctx()) && after.same_place(self),
                Ok(v) => self.listing_value_outcome(after, v, r),
            }
        }
    }

    /// What reading the JSON value `v` of a page does: a page of a listing
    /// becomes the current page; anything else is an error, and the listing
    /// stays where it is.
    pub open spec fn listing_value_outcome(&self, after: &Self, v: JsonValue, r: Result<(), Error>) -> bool {
        if listing_ok(v) {
            &&& r is Ok
            &&& after.folders_left() == page_folders(v)
            &&& files_of(after.files_left(), page_files(v))
            &&& after.next_marker() == page_marker(v)
            &&& after.has_queried() == self.has_queried()
        } else {
            error::is_inner_error(r, not_listing_text(), listing_ctx()) && after.same_place(self)
        }
    }
}

impl DataDir {
    /// Display Directory details if it exists: a walk over the folders and
    /// files of this directory, page by page.
    pub fn list(&self) -> (r: DirectoryListing)
        ensures
            r.wf(),
            r.listed_dir() == *self,
            r.acl_spec() is None,
            r.folders_left().len() == 0,
            r.files_left().len() == 0,
            r.next_marker() is None,
            !r.has_queried(),
    {
        let r = DirectoryListing {
            acl: None,
            dir: self,
            folders: Vec::new(),
            folder_pos: 0,
            files: Vec::new(),
            file_pos: 0,
            marker: None,
            queried: false,
        };
        assert(r.folders_left() =~= Seq::<Seq<char>>::empty());
        assert(r.files_left() =~= Seq::<FileItem>::empty());
        r
    }
}

impl<'a> DirectoryListing<'a> {
    /// The directory listed.
    pub fn dir(&self) -> (r: &DataDir)
        ensures
            *r == self.listed_dir(),
    {
        self.dir
    }

    /// The request for the next page.
    fn page_request(&self) -> (r: Result<HttpRequest, Error>)
        requires
            client::auth_valid(self.listed_dir().dir_client().api_auth),
        ensures
            page_request_outcome(r, self.listed_dir(), self.next_marker()),
    {
        let mut url = match self.dir.to_url() {
            Ok(u) => u,
            Err(e) => {
                return Err(e);
            },
        };
        match &self.marker {
            Some(m) => {
                url = append_query_pair(url.as_str(), "marker", m.as_str());
            },
            None => {},
        }
        Ok(self.dir.client().get(url))
    }

    /// The next step of the walk over the listing: the next folder, else the
    /// next file, else the request for the next page, else the end.
    pub fn next_step(&mut self) -> (r: ListingStep)
        requires
            old(self).wf(),
            client::auth_valid(old(self).listed_dir().dir_client().api_auth),
        ensures
            final(self).wf(),
            final(self).listed_dir() == old(self).listed_dir(),
            final(self).acl_spec() == old(self).acl_spec(),
            old(self).step_outcome(&*final(self), r),
    {
        let ghost before = *self;
        if self.folder_pos < self.folders.len() {
            let name = self.folders[self.folder_pos].clone();
            self.folder_pos = self.folder_pos + 1;
            let d: DataDir = self.dir.child(name.as_str());
            assert(self.folders_left() =~= before.folders_left().drop_first());
            return ListingStep::Item(DataItem::Dir(DataDirItem { dir: d }));
        }
        if self.file_pos < self.files.len() {
            let size = self.files[self.file_pos].size;
            let last_modified = self.files[self.file_pos].last_modified;
            let name = self.files[self.file_pos].filename.clone();
            self.file_pos = self.file_pos + 1;
            let f = self.dir.child(name.as_str());
            assert(self.files_left() =~= before.files_left().drop_first());
            return ListingStep::Item(DataItem::File(DataFileItem { size, last_modified, file: f }));
        }
        if !self.queried || self.marker.is_some() {
            self.queried = true;
            let req = self.page_request();
            return ListingStep::Fetch(req);
        }
        ListingStep::Done
    }

    /// Reads the response to the request of `next_step`: a page of the
    /// listing becomes the current page; else the error to yield.
    pub fn receive_page(&mut self, resp: HttpResponse) -> (r: Result<(), Error>)
        requires
            old(self).wf(),
        ensures
            final(self).wf(),
            final(self).listed_dir() == old(self).listed_dir(),
            final(self).acl_spec() == old(self).acl_spec(),
            old(self).page_outcome(&*final(self), resp, r),
    {
        proof {
            reveal_strlit("directory");
            reveal_strlit("listing");
        }
        let ok = 200 <= resp.status && resp.status <= 299;
        if ok {
            match get_header(&resp.headers, "x-data-type") {
                Some(t) => {
                    if !str_eq(t.as_str(), "directory") {
                        let mut msg = String::from_str(
                            "expected API response with data type 'directory', received '",
                        );
                        msg.append(t.as_str());
                        msg.append("'");
                        return Err(Error::from_message(msg));
                    }
                },
                None => {},
            }
        }
        let text = match self.dir.body_text(&resp.body, "listing") {
            Ok(t) => t,
            Err(e) => {
                return Err(e);
            },
        };
        if !ok {
            return Err(Error::from_json(text.as_str()));
        }
        match value_from_str(text.as_str()) {
            Ok(v) => self.receive_listing(v),
            Err(m) => Err(Error::inner(m, "failed to decode directory listing json")),
        }
    }

    /// Reads the JSON value of a page of the listing: a page becomes the
    /// current page; else the error to yield.
    pub fn receive_listing(&mut self, v: JsonValue) -> (r: Result<(), Error>)
        requires
            old(self).wf(),
        ensures
            final(self).wf(),
            final(self).listed_dir() == old(self).listed_dir(),
            final(self).acl_spec() == old(self).acl_spec(),
            old(self).listing_value_outcome(&*final(self), v, r),
    {
        match decode_listing(&v) {
            Some(page) => {
                self.folders = page.folders;
                self.folder_pos = 0;
                self.files = page.files;
                self.file_pos = 0;
                self.marker = page.marker;
                assert(self.folders@.subrange(0, self.folders@.len() as int) =~= self.folders@);
                assert(self.files@.subrange(0, self.files@.len() as int) =~= self.files@);
                Ok(())
            },
            None => Err(
                Error::inner(
                    String::from_str("JSON is not a directory listing"),
                    "failed to decode directory listing json",
                ),
            ),
        }
    }
}

/// A page read without error becomes the current page as its JSON fields
/// give it: each folder by its `name`, each file by its `filename`, `size`
/// and `last_modified` time, in order (none for a missing or null list), and
/// the `marker` of the next page (none for a missing or null marker).
pub proof fn law_listing_page_read(before: DirectoryListing, after: DirectoryListing, v: JsonValue, r: Result<(), Error>)
    requires
        before.listing_value_outcome(&after, v, r),
        r is Ok,
    ensures
        after.has_queried() == before.has_queried(),
        match json::json_field(v, "folders"@) {
            Some(JsonValue::Array(a)) => after.folders_left().len() == a@.len() && forall|i: int|
                0 <= i < a@.len() ==> (json::json_field(#[trigger] a@[i], "name"@) matches Some(
                    JsonValue::String(s),
                ) && s@ == after.folders_left()[i]),
            Some(JsonValue::Null) => after.folders_left().len() == 0,
            None => after.folders_left().len() == 0,
            _ => false,
        },
        match json::json_field(v, "files"@) {
            Some(JsonValue::Array(a)) => after.files_left().len() == a@.len() && forall|i: int|
                0 <= i < a@.len() ==> {
                    let f = after.files_left()[i];
                    &&& json::json_field(#[trigger] a@[i], "filename"@) matches Some(JsonValue::String(s))
                        && s@ == f.filename@
                    &&& json::json_field(a@[i], "size"@) == Some(
                        JsonValue::Number(JsonNumber::PosInt(f.size)),
                    )
                    &&& json::json_field(a@[i], "last_modified"@) matches Some(JsonValue::String(t))
                        && headers::spec_parse_datetime(t@) == Some(
                        (f.last_modified.secs, f.last_modified.nanos),
                    )
                },
            Some(JsonValue::Null) => after.files_left().len() == 0,
            None => after.files_left().len() == 0,
            _ => false,
        },
        match json::json_field(v, "marker"@) {
            Some(JsonValue::String(m)) => after.next_marker() == Some(m@),
            Some(JsonValue::Null) => after.next_marker() is None,
            None => after.next_marker() is None,
            _ => false,
        },
{
    assert(listing_ok(v));
    match json::json_field(v, "folders"@) {
        Some(JsonValue::Array(a)) => {
            assert forall|i: int| 0 <= i < a@.len() implies (json::json_field(#[trigger] a@[i], "name"@)
                matches Some(JsonValue::String(s)) && s@ == after.folders_left()[i]) by {
                assert(folder_ok(a@[i]));
                assert(after.folders_left()[i] == page_folders(v)[i]);
            }
        },
        _ => {},
    }
    match json::json_field(v, "files"@) {
        Some(JsonValue::Array(a)) => {
            assert(files_of(after.files_left(), a@));
            assert forall|i: int| 0 <= i < a@.len() implies {
                let f = after.files_left()[i];
                &&& json::json_field(#[trigger] a@[i], "filename"@) matches Some(JsonValue::String(s))
                    && s@ == f.filename@
                &&& json::json_field(a@[i], "size"@) == Some(JsonValue::Number(JsonNumber::PosInt(f.size)))
                &&& json::json_field(a@[i], "last_modified"@) matches Some(JsonValue::String(t))
                    && headers::spec_parse_datetime(t@) == Some((f.last_modified.secs, f.last_modified.nanos))
            } by {
                assert(file_ok(a@[i]));
                assert(file_entry_of(after.files_left()[i], a@[i]));
            }
        },
        _ => {},
    }
}

/// A page of a listing whose folders each have a string `name` and an ACL
/// that is missing, null or `{"read": [strings]}` (other fields of a folder
/// are ignored) is read as the current page: the walk then has exactly those
/// folders, in order, by name.
pub proof fn law_listing_folders(
    before: DirectoryListing,
    after: DirectoryListing,
    v: JsonValue,
    folders: Vec<JsonValue>,
    r: Result<(), Error>,
)
    requires
        before.listing_value_outcome(&after, v, r),
        v is Object,
        optional_acl_ok(json::json_field(v, "acl"@)),
        items_ok(json::json_field(v, "files"@), |x: JsonValue| file_ok(x)),
        optional_str_ok(json::json_field(v, "marker"@)),
        json::json_field(v, "folders"@) == Some(JsonValue::Array(folders)),
        forall|i: int|
            0 <= i < folders@.len() ==> ((json::json_field(#[trigger] folders@[i], "name"@) matches Some(
                JsonValue::String(_),
            )) && (json::json_field(folders@[i], "acl"@) matches Some(acl) ==> (acl is Null || (
            json::json_field(acl, "read"@) matches Some(JsonValue::Array(rd)) && forall|k: int|
                0 <= k < rd@.len() ==> #[trigger] rd@[k] is String)))),
    ensures
        r is Ok,
        after.folders_left().len() == folders@.len(),
        forall|i: int|
            0 <= i < folders@.len() ==> json::json_str(json::json_field(#[trigger] folders@[i], "name"@)->0)
                == Some(after.folders_left()[i]),
{
    assert forall|i: int| 0 <= i < folders@.len() implies folder_ok(#[trigger] folders@[i]) by {
        let f = folders@[i];
        match json::json_field(f, "acl"@) {
            Some(acl) => {
                if !(acl is Null) {
                    assert(is_acl_json(acl));
                }
            },
            None => {},
        }
    }
    assert(listing_ok(v));
}

/// A listing ends once the last page asked for is used up: with no folder
/// or file left and no marker of a next page, `next_step` is `Done` and the
/// listing stays where it is.
pub proof fn law_listing_ends(l: DirectoryListing, after: DirectoryListing, r: ListingStep)
    requires
        l.has_queried(),
        l.next_marker() is None,
        l.folders_left().len() == 0,
        l.files_left().len() == 0,
        l.step_outcome(&after, r),
    ensures
        r is Done,
        after.same_place(&l),
{
}

/// A fresh listing first asks for the first page, with no marker.
pub proof fn law_listing_starts_with_first_page(l: DirectoryListing, after: DirectoryListing, r: ListingStep)
    requires
        !l.has_queried(),
        l.next_marker() is None,
        l.folders_left().len() == 0,
        l.files_left().len() == 0,
        l.step_outcome(&after, r),
    ensures
        r matches ListingStep::Fetch(res) && page_request_outcome(res, l.listed_dir(), None),
        after.has_queried(),
{
}

/// `r` yields the folder `name` of the directory `d`.
pub open spec fn yields_folder(d: DataDir, name: Seq<char>, r: ListingStep) -> bool {
    r matches ListingStep::Item(DataItem::Dir(di)) && di.dir.dir_path() == datapath::data_uri_to_path(
        datapath::child_data_uri(d.dir_path(), name),
    ) && di.dir.dir_client() == d.dir_client()
}

/// `r` yields the file `f` of the directory `d`, with its size and time.
pub open spec fn yields_file(d: DataDir, f: FileItem, r: ListingStep) -> bool {
    r matches ListingStep::Item(DataItem::File(fi)) && fi.size == f.size && fi.last_modified
        == f.last_modified && fi.file.file_path() == datapath::data_uri_to_path(
        datapath::child_data_uri(d.dir_path(), f.filename@),
    ) && fi.file.file_client() == d.dir_client()
}

/// `states` and `steps` are a run of `next_step`: each step goes from one
/// state to the next, on the same directory.
pub open spec fn is_run<'a>(states: Seq<DirectoryListing<'a>>, steps: Seq<ListingStep>) -> bool {
    &&& states.len() == steps.len() + 1
    &&& forall|i: int|
        0 <= i < steps.len() ==> #[trigger] states[i].step_outcome(&states[i + 1], steps[i])
            && states[i + 1].listed_dir() == states[i].listed_dir()
}

/// Where a run stands after `i` steps within the current page.
proof fn lemma_walk_state<'a>(states: Seq<DirectoryListing<'a>>, steps: Seq<ListingStep>, i: int)
    requires
        is_run(states, steps),
        0 <= i <= steps.len(),
        i <= states[0].folders_left().len() + states[0].files_left().len(),
    ensures
        ({
            let s0 = states[0];
            let nf = s0.folders_left().len() as int;
            let ng = s0.files_left().len() as int;
            &&& states[i].folders_left() == s0.folders_left().subrange(
                if i < nf { i } else { nf },
                nf,
            )
            &&& states[i].files_left() == s0.files_left().subrange(
                if i < nf { 0 } else { i - nf },
                ng,
            )
            &&& states[i].next_marker() == s0.next_marker()
            &&& states[i].has_queried() == s0.has_queried()
            &&& states[i].listed_dir() == s0.listed_dir()
        }),
    decreases i,
{
    let s0 = states[0];
    let nf = s0.folders_left().len() as int;
    let ng = s0.files_left().len() as int;
    if i == 0 {
        assert(s0.folders_left().subrange(0, nf) =~= s0.folders_left());
        assert(s0.files_left().subrange(0, ng) =~= s0.files_left());
    } else {
        let j = i - 1;
        lemma_walk_state(states, steps, j);
        let prev = states[j];
        assert(prev.step_outcome(&states[j + 1], steps[j]));
        assert(states[j + 1] == states[i]);
        if j < nf {
            assert(prev.folders_left() == s0.folders_left().subrange(j, nf));
            assert(prev.folders_left().len() > 0);
            assert(prev.folders_left().drop_first() =~= s0.folders_left().subrange(i, nf));
        } else {
            assert(prev.folders_left() == s0.folders_left().subrange(nf, nf));
            assert(prev.folders_left().len() == 0);
            assert(prev.files_left() == s0.files_left().subrange(j - nf, ng));
            assert(prev.files_left().len() > 0);
            assert(prev.files_left().drop_first() =~= s0.files_left().subrange(i - nf, ng));
        }
    }
}

/// Walking a page of a listing: from a listing with the folders `F` and the
/// files `G` left, the steps yield each folder of `F` in order, then each file
/// of `G` in order; the step after them asks for the page after the marker
/// (or the first page, if none was asked for yet), and otherwise the walk
/// ends.
pub proof fn law_listing_walk<'a>(states: Seq<DirectoryListing<'a>>, steps: Seq<ListingStep>)
    requires
        is_run(states, steps),
    ensures
        ({
            let s0 = states[0];
            let d = s0.listed_dir();
            let folders = s0.folders_left();
            let files = s0.files_left();
            let k = (folders.len() + files.len()) as int;
            &&& forall|i: int|
                0 <= i < steps.len() && i < folders.len() ==> yields_folder(
                    d,
                    folders[i],
                    #[trigger] steps[i],
                )
            &&& forall|i: int|
                folders.len() <= i < steps.len() && i < k ==> yields_file(
                    d,
                    files[i - folders.len()],
                    #[trigger] steps[i],
                )
            &&& steps.len() > k ==> if !s0.has_queried() || s0.next_marker() is Some {
                steps[k] matches ListingStep::Fetch(res) && page_request_outcome(res, d, s0.next_marker())
            } else {
                steps[k] is Done
            }
        }),
{
    let s0 = states[0];
    let d = s0.listed_dir();
    let folders = s0.folders_left();
    let files = s0.files_left();
    let nf = folders.len() as int;
    let k = (folders.len() + files.len()) as int;
    assert forall|i: int| 0 <= i < steps.len() && i < folders.len() implies yields_folder(
        d,
        folders[i],
        #[trigger] steps[i],
    ) by {
        lemma_walk_state(states, steps, i);
        assert(states[i].step_outcome(&states[i + 1], steps[i]));
        assert(states[i].folders_left()[0] == folders[i]);
    }
    assert forall|i: int| folders.len() <= i < steps.len() && i < k implies yields_file(
        d,
        files[i - folders.len()],
        #[trigger] steps[i],
    ) by {
        lemma_walk_state(states, steps, i);
        assert(states[i].step_outcome(&states[i + 1], steps[i]));
        assert(states[i].folders_left().len() == 0);
        assert(states[i].files_left()[0] == files[i - nf]);
    }
    if steps.len() > k {
        lemma_walk_state(states, steps, k);
        assert(states[k].step_outcome(&states[k + 1], steps[k]));
        assert(states[k].folders_left().len() == 0);
        assert(states[k].files_left().len() == 0);
    }
}

/// A page as the walk sees it: folder names, files, and the marker of the
/// page after it.
pub type PageView = (Seq<Seq<char>>, Seq<FileItem>, Option<Seq<char>>);

/// The steps a page takes in a walk: asking for it, then one per folder and file.
pub open spec fn block_len(p: PageView) -> int {
    1 + p.0.len() as int + p.1.len() as int
}

/// The step at which the walk asks for page `j`.
pub open spec fn block_start(pages: Seq<PageView>, j: int) -> int
    decreases j,
{
    if j <= 0 {
        0
    } else {
        block_start(pages, j - 1) + block_len(pages[j - 1])
    }
}

/// The marker with which page `j` is asked for.
pub open spec fn marker_before(pages: Seq<PageView>, j: int) -> Option<Seq<char>> {
    if j <= 0 {
        None
    } else {
        pages[j - 1].2
    }
}

/// The number of page requests among the first `k` steps.
pub open spec fn fetches_before(steps: Seq<ListingStep>, k: int) -> int
    decreases k,
{
    if k <= 0 {
        0
    } else {
        fetches_before(steps, k - 1) + if steps[k - 1] is Fetch {
            1int
        } else {
            0int
        }
    }
}

/// `after` is `before` once the page `p` has been received.
pub open spec fn received(before: DirectoryListing, after: DirectoryListing, p: PageView) -> bool {
    &&& after.folders_left() == p.0
    &&& after.files_left() == p.1
    &&& after.next_marker() == p.2
    &&& after.has_queried() == before.has_queried()
    &&& after.listed_dir() == before.listed_dir()
}

/// A walk over a listing, page by page: `states[k]` is the listing before
/// step `k`, `steps[k]` what `next_step` gave and `afters[k]` the listing it
/// left; after the `j`-th request for a page, `pages[j]` was received.
pub open spec fn is_paged_run<'a>(
    states: Seq<DirectoryListing<'a>>,
    afters: Seq<DirectoryListing<'a>>,
    steps: Seq<ListingStep>,
    pages: Seq<PageView>,
) -> bool {
    &&& states.len() == steps.len() + 1
    &&& afters.len() == steps.len()
    &&& forall|k: int|
        0 <= k < steps.len() ==> #[trigger] states[k].step_outcome(&afters[k], steps[k])
            && afters[k].listed_dir() == states[k].listed_dir()
    &&& forall|k: int|
        0 <= k < steps.len() ==> if #[trigger] steps[k] is Fetch {
            fetches_before(steps, k) < pages.len() && received(
                afters[k],
                states[k + 1],
                pages[fetches_before(steps, k)],
            )
        } else {
            states[k + 1].same_place(&afters[k]) && states[k + 1].listed_dir()
                == afters[k].listed_dir()
        }
}

/// Where a walk stands at step `i` of page `j` (step 0: before asking for it).
pub open spec fn at_position(s: DirectoryListing, d: DataDir, pages: Seq<PageView>, j: int, i: int) -> bool {
    &&& s.listed_dir() == d
    &&& if i == 0 {
        &&& s.folders_left().len() == 0
        &&& s.files_left().len() == 0
        &&& s.next_marker() == marker_before(pages, j)
        &&& s.has_queried() == (j > 0)
    } else {
        let f = pages[j].0;
        let g = pages[j].1;
        &&& s.folders_left() == f.subrange(if i - 1 < f.len() { i - 1 } else { f.len() as int }, f.len() as int)
        &&& s.files_left() == g.subrange(if i - 1 < f.len() { 0 } else { i - 1 - f.len() }, g.len() as int)
        &&& s.next_marker() == pages[j].2
        &&& s.has_queried()
    }
}

/// Step `i` of page `j`: the request for the page, then its folders, then its files.
pub open spec fn step_as_expected(d: DataDir, pages: Seq<PageView>, j: int, i: int, r: ListingStep) -> bool {
    let f = pages[j].0;
    if i == 0 {
        r matches ListingStep::Fetch(res) && page_request_outcome(res, d, marker_before(pages, j))
    } else if i <= f.len() {
        yields_folder(d, f[i - 1], r)
    } else {
        yields_file(d, pages[j].1[i - 1 - f.len()], r)
    }
}

/// Where a page-by-page walk stands at step `i` of page `j`, and how many
/// pages it has asked for by then.
proof fn lemma_paged_state<'a>(
    states: Seq<DirectoryListing<'a>>,
    afters: Seq<DirectoryListing<'a>>,
    steps: Seq<ListingStep>,
    pages: Seq<PageView>,
    j: int,
    i: int,
)
    requires
        is_paged_run(states, afters, steps, pages),
        !states[0].has_queried(),
        states[0].next_marker() is None,
        states[0].folders_left().len() == 0,
        states[0].files_left().len() == 0,
        forall|p: int| 0 <= p < pages.len() - 1 ==> (#[trigger] pages[p]).2 is Some,
        0 <= j <= pages.len(),
        j < pages.len() ==> 0 <= i < block_len(pages[j]),
        j == pages.len() ==> i == 0,
        block_start(pages, j) + i <= steps.len(),
    ensures
        at_position(states[block_start(pages, j) + i], states[0].listed_dir(), pages, j, i),
        fetches_before(steps, block_start(pages, j) + i) == j + if i > 0 {
            1int
        } else {
            0int
        },
    decreases j, i,
{
    let d = states[0].listed_dir();
    let k = block_start(pages, j) + i;
    if j == 0 && i == 0 {
        return;
    }
    let pj = if i > 0 { j } else { j - 1 };
    let pi = if i > 0 { i - 1 } else { block_len(pages[j - 1]) - 1 };
    lemma_paged_state(states, afters, steps, pages, pj, pi);
    let km = k - 1;
    assert(block_start(pages, pj) + pi == km);
    let s = states[km];
    let a = afters[km];
    let r = steps[km];
    assert(s.step_outcome(&a, r));
    assert(a.listed_dir() == s.listed_dir());
    if r is Fetch {
        assert(received(a, states[k], pages[fetches_before(steps, km)]));
    } else {
        assert(states[k].same_place(&a));
    }
    let f = pages[pj].0;
    let g = pages[pj].1;
    if pi == 0 {
        // Before asking for page pj: the walk asks for it.
        if pj > 0 {
            assert(pages[pj - 1].2 is Some);
        }
        assert(r is Fetch);
        if i == 0 {
            assert(f.len() == 0 && g.len() == 0);
        } else {
            assert(f.subrange(0, f.len() as int) =~= f);
            assert(g.subrange(0, g.len() as int) =~= g);
        }
    } else if pi - 1 < f.len() {
        assert(s.folders_left().len() > 0);
        assert(s.folders_left().drop_first() =~= f.subrange(pi, f.len() as int));
        if i == 0 {
            assert(g.len() == 0);
        }
    } else {
        assert(s.folders_left() =~= f.subrange(f.len() as int, f.len() as int));
        assert(s.files_left().len() > 0);
        assert(s.files_left().drop_first() =~= g.subrange(pi - f.len(), g.len() as int));
    }
}

/// Once every page is used up, the walk stays where it is and each step is `Done`.
proof fn lemma_paged_end<'a>(
    states: Seq<DirectoryListing<'a>>,
    afters: Seq<DirectoryListing<'a>>,
    steps: Seq<ListingStep>,
    pages: Seq<PageView>,
    k: int,
)
    requires
        is_paged_run(states, afters, steps, pages),
        !states[0].has_queried(),
        states[0].next_marker() is None,
        states[0].folders_left().len() == 0,
        states[0].files_left().len() == 0,
        forall|p: int| 0 <= p < pages.len() - 1 ==> (#[trigger] pages[p]).2 is Some,
        block_start(pages, pages.len() as int) <= k <= steps.len(),
    ensures
        at_position(states[k], states[0].listed_dir(), pages, pages.len() as int, 0),
        fetches_before(steps, k) == pages.len(),
        k < steps.len() ==> steps[k] is Done,
    decreases k - block_start(pages, pages.len() as int),
{
    let n = pages.len() as int;
    if k == block_start(pages, n) {
        lemma_paged_state(states, afters, steps, pages, n, 0);
    } else {
        lemma_paged_end(states, afters, steps, pages, k - 1);
        let s = states[k - 1];
        assert(s.step_outcome(&afters[k - 1], steps[k - 1]));
        assert(steps[k - 1] is Done);
        assert(states[k].same_place(&afters[k - 1]));
    }
    if k < steps.len() {
        assert(states[k].step_outcome(&afters[k], steps[k]));
        if steps[k] is Fetch {
            assert(fetches_before(steps, k) < pages.len());
        }
    }
}

/// Walking a listing page by page: from a fresh listing, where each request
/// for a page is answered by the next of `pages` (each but the last with a
/// marker), the walk asks for page `j` with the marker of page `j - 1` (none
/// for the first), then yields its folders in order, then its files in order;
/// after the last page every step is `Done`.
pub proof fn law_listing_pages<'a>(
    states: Seq<DirectoryListing<'a>>,
    afters: Seq<DirectoryListing<'a>>,
    steps: Seq<ListingStep>,
    pages: Seq<PageView>,
)
    requires
        is_paged_run(states, afters, steps, pages),
        !states[0].has_queried(),
        states[0].next_marker() is None,
        states[0].folders_left().len() == 0,
        states[0].files_left().len() == 0,
        forall|p: int| 0 <= p < pages.len() - 1 ==> (#[trigger] pages[p]).2 is Some,
    ensures
        forall|j: int, i: int|
            0 <= j < pages.len() && 0 <= i < block_len(pages[j]) && block_start(pages, j) + i
                < steps.len() ==> step_as_expected(
                states[0].listed_dir(),
                pages,
                j,
                i,
                #[trigger] steps[block_start(pages, j) + i],
            ),
        forall|k: int|
            block_start(pages, pages.len() as int) <= k < steps.len() ==> #[trigger] steps[k] is Done,
{
    let d = states[0].listed_dir();
    assert forall|j: int, i: int|
        0 <= j < pages.len() && 0 <= i < block_len(pages[j]) && block_start(pages, j) + i
            < steps.len() implies step_as_expected(
        d,
        pages,
        j,
        i,
        #[trigger] steps[block_start(pages, j) + i],
    ) by {
        let k = block_start(pages, j) + i;
        lemma_paged_state(states, afters, steps, pages, j, i);
        assert(states[k].step_outcome(&afters[k], steps[k]));
        let f = pages[j].0;
        let g = pages[j].1;
        if i == 0 {
            if j > 0 {
                assert(pages[j - 1].2 is Some);
            }
        } else if i - 1 < f.len() {
            assert(states[k].folders_left()[0] == f[i - 1]);
        } else {
            assert(states[k].folders_left() =~= f.subrange(f.len() as int, f.len() as int));
            assert(states[k].files_left()[0] == g[i - 1 - f.len()]);
        }
    }
    assert forall|k: int| block_start(pages, pages.len() as int) <= k < steps.len() implies #[trigger] steps[k] is Done by {
        lemma_paged_end(states, afters, steps, pages, k);
    }
}

/// A page received without error is the page the response's JSON describes:
/// its folders, its files and its marker, as `law_listing_pages` takes them.
pub proof fn law_received_page(before: DirectoryListing, after: DirectoryListing, resp: HttpResponse)
    requires
        before.page_outcome(&after, resp, Ok(())),
        after.listed_dir() == before.listed_dir(),
    ensures
        json::spec_parse_json(vstd::utf8::decode_utf8(resp.body@)) matches Ok(v) && listing_ok(v)
            && files_of(after.files_left(), page_files(v)) && received(
            before,
            after,
            (page_folders(v), after.files_left(), page_marker(v)),
        ),
{
}

} // verus!

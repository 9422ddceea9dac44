use algorithmia::client::{HttpResponse, Method};
use algorithmia::data::dir::{DataAcl, DataDir, ReadAcl};
use algorithmia::data::file::DataFile;
use algorithmia::data::headers::{parse_headers, DataType, Timestamp};
use algorithmia::data::listing::ListingStep;
use algorithmia::data::object::{DataItem, HasDataPath};
use algorithmia::error::ErrorKind;
use algorithmia::Algorithmia;

fn client() -> Algorithmia {
    Algorithmia::client("simKey", None).unwrap()
}

fn headers(pairs: &[(&str, &str)]) -> Vec<(String, String)> {
    pairs.iter().map(|(k, v)| (k.to_string(), v.to_string())).collect()
}

fn response(status: u16, pairs: &[(&str, &str)], body: &[u8]) -> HttpResponse {
    HttpResponse { status, headers: headers(pairs), body: body.to_vec() }
}

#[test]
fn headers_of_a_file() {
    let h = headers(&[
        ("x-data-type", "file"),
        ("content-length", "42"),
        ("date", "Sun, 02 Oct 2016 14:44:14 GMT"),
    ]);
    let d = parse_headers(&h).unwrap().unwrap();
    assert_eq!(d.data_type, DataType::File);
    assert_eq!(d.content_length, Some(42));
    let secs: i64 = 1475419454;
    let nanos = ((secs as u128 * 1_000_000_000) % (1u128 << 32)) as u32;
    assert_eq!(nanos, 576646144);
    assert_eq!(d.last_modified, Some(Timestamp { secs, nanos }));
    let epoch = parse_headers(&headers(&[("x-data-type", "file"), ("date", "Thu, 01 Jan 1970 00:00:00 GMT")]))
        .unwrap()
        .unwrap();
    assert_eq!(epoch.last_modified, Some(Timestamp { secs: 0, nanos: 0 }));
}

#[test]
fn headers_with_unrepresentable_date() {
    // The nanoseconds of this date, cut to 32 bits, are more than a second.
    let h = headers(&[("x-data-type", "file"), ("date", "Sun, 02 Oct 2016 14:44:11 GMT")]);
    assert!(parse_headers(&h).is_none());
}

#[test]
fn headers_of_a_directory() {
    let d = parse_headers(&headers(&[("x-data-type", "directory")])).unwrap().unwrap();
    assert_eq!(d.data_type, DataType::Dir);
    assert_eq!(d.content_length, None);
    assert_eq!(d.last_modified, None);
}

#[test]
fn header_errors() {
    let e = parse_headers(&headers(&[("x-error-message", "nope"), ("x-data-type", "file")]))
        .unwrap()
        .unwrap_err();
    assert_eq!(e.api_error().unwrap().message, "nope");
    let e = parse_headers(&headers(&[])).unwrap().unwrap_err();
    assert_eq!(e.to_display_string(), "API response missing data type");
    let e = parse_headers(&headers(&[("x-data-type", "link")])).unwrap().unwrap_err();
    assert_eq!(e.to_display_string(), "API responded with invalid data type: 'link'");
    assert!(parse_headers(&headers(&[("x-data-type", "file"), ("content-length", "x")])).is_none());
    assert!(parse_headers(&headers(&[("x-data-type", "file"), ("date", "yesterday")])).is_none());
}

#[test]
fn object_type_and_existence() {
    let c = client();
    let obj = c.data("data://.my/thing");
    let req = obj.type_request().unwrap();
    assert_eq!(req.method, Method::Head);
    assert_eq!(req.url, "https://api.algorithmia.com/v1/connector/data/.my/thing");
    let ok = response(200, &[("x-data-type", "directory")], b"");
    assert_eq!(obj.get_type(&ok).unwrap().unwrap(), DataType::Dir);
    let missing = response(404, &[], b"");
    assert_eq!(
        obj.get_type(&missing).unwrap().unwrap_err().to_display_string(),
        "404 Not Found (https://api.algorithmia.com/v1/connector/data/.my/thing)"
    );
    let broken = response(500, &[], b"");
    let e = obj.get_type(&broken).unwrap().unwrap_err();
    assert_eq!(e.api_error().unwrap().message, "500 Internal Server Error");
    assert_eq!(obj.data_exists(&ok).unwrap(), true);
    assert_eq!(obj.data_exists(&missing).unwrap(), false);
    let denied = response(403, &[("x-error-message", "no access")], b"");
    assert_eq!(obj.data_exists(&denied).unwrap_err().api_error().unwrap().message, "403 Forbidden: no access");
}

#[test]
fn object_into_type() {
    let c = client();
    let file = response(200, &[("x-data-type", "file"), ("content-length", "7")], b"");
    match c.data("data://.my/dir/f.txt").into_type(&file).unwrap().unwrap() {
        DataItem::File(f) => {
            assert_eq!(f.size, 7);
            assert_eq!(f.last_modified, Timestamp { secs: 1426320000, nanos: 0 });
            assert_eq!(f.file.to_data_uri(), "data://.my/dir/f.txt");
        }
        DataItem::Dir(_) => panic!("expected a file"),
    }
    let dir = response(200, &[("x-data-type", "directory")], b"");
    match c.data("dropbox://stuff").into_type(&dir).unwrap().unwrap() {
        DataItem::Dir(d) => assert_eq!(d.dir.to_data_uri(), "dropbox://stuff"),
        DataItem::File(_) => panic!("expected a directory"),
    }
}

#[test]
fn file_put_get_delete() {
    let c = client();
    let f = c.file(".my/my_dir/sample.txt");
    let put = f.put_request(b"file_contents".to_vec()).unwrap();
    assert_eq!(put.method, Method::Put);
    assert_eq!(put.body, Some(b"file_contents".to_vec()));
    assert!(f.put(&response(200, &[], b"")).is_ok());
    let e = f
        .put(&response(400, &[], br#"{"error":{"message":"bad path"}}"#))
        .unwrap_err();
    assert_eq!(e.status(), Some(400));
    assert_eq!(e.api_error().unwrap().message, "bad path");
    assert_eq!(e.to_display_string(), "400 Bad Request: response error writing file 'data://.my/my_dir/sample.txt'");
    let got = f
        .get(response(200, &[("x-data-type", "file"), ("content-length", "5")], b"hello"))
        .unwrap()
        .unwrap();
    assert_eq!(got.size, 5);
    assert_eq!(got.into_string().unwrap(), "hello");
    let e = f.get(response(200, &[("x-data-type", "directory")], b"")).unwrap().unwrap_err();
    assert_eq!(e.to_display_string(), "expected API response with data type 'file', received 'directory'");
    let e = f.get(response(404, &[("x-error-message", "gone")], b"")).unwrap().unwrap_err();
    assert_eq!(e.api_error().unwrap().message, "gone");
    assert!(f.delete(&response(204, &[], b"")).is_ok());
    assert_eq!(f.delete_request().unwrap().method, Method::Delete);
}

#[test]
fn dir_create_and_delete() {
    let c = client();
    let d = c.dir("data://.my/my_dir");
    let req = d.create_request(ReadAcl::Public.into()).unwrap();
    assert_eq!(req.method, Method::Post);
    assert_eq!(req.url, "https://api.algorithmia.com/v1/connector/data/.my");
    assert!(req.headers.contains(&("content-type".to_string(), "application/json".to_string())));
    let body: serde_json::Value = serde_json::from_slice(req.body.as_ref().unwrap()).unwrap();
    assert_eq!(body["name"], "my_dir");
    assert_eq!(body["acl"]["read"][0], "user://*");
    assert!(d.create(&response(200, &[], b"")).is_ok());
    let e = d.create(&response(409, &[], br#"{"error":{"message":"exists"}}"#)).unwrap_err();
    assert_eq!(e.api_error().unwrap().message, "exists");
    assert!(c.dir("data://").create_request(DataAcl::default()).is_err());

    let del = d.delete_request(true).unwrap();
    assert_eq!(del.url, "https://api.algorithmia.com/v1/connector/data/.my/my_dir?force=true");
    let n = d.delete(&response(200, &[], br#"{"result":{"deleted":3}}"#)).unwrap();
    assert_eq!(n.deleted, 3);
    let e = d.delete(&response(200, &[], br#"{"result":{}}"#)).unwrap_err();
    assert!(matches!(e.kind, ErrorKind::Inner(_)));
    assert_eq!(e.to_display_string(), "failed to decode directory deletion response json");
    let e = d.delete(&response(200, &[], &[0xff])).unwrap_err();
    assert_eq!(e.to_display_string(), "I/O error deleting directory 'data://.my/my_dir'");
}

#[test]
fn dir_listing_pages() {
    let c = client();
    let d: DataDir = c.dir("data://.my/photos");
    let mut listing = d.list();
    let req = match listing.next_step() {
        ListingStep::Fetch(r) => r.unwrap(),
        _ => panic!("expected a request"),
    };
    assert_eq!(req.url, "https://api.algorithmia.com/v1/connector/data/.my/photos");
    let page1 = br#"{"folders":[{"name":"2019"}],"files":[{"filename":"a.jpg","size":10,"last_modified":"2016-10-02T14:44:11Z"}],"marker":"m1"}"#;
    listing.receive_page(response(200, &[("x-data-type", "directory")], page1)).unwrap();
    match listing.next_step() {
        ListingStep::Item(DataItem::Dir(sub)) => assert_eq!(sub.dir.to_data_uri(), "data://.my/photos/2019"),
        _ => panic!("expected a folder"),
    }
    match listing.next_step() {
        ListingStep::Item(DataItem::File(f)) => {
            assert_eq!(f.size, 10);
            assert_eq!(f.last_modified, Timestamp { secs: 1475419451, nanos: 0 });
            assert_eq!(f.file.to_data_uri(), "data://.my/photos/a.jpg");
        }
        _ => panic!("expected a file"),
    }
    let req = match listing.next_step() {
        ListingStep::Fetch(r) => r.unwrap(),
        _ => panic!("expected a request"),
    };
    assert_eq!(req.url, "https://api.algorithmia.com/v1/connector/data/.my/photos?marker=m1");
    listing.receive_page(response(200, &[], br#"{"files":null}"#)).unwrap();
    assert!(matches!(listing.next_step(), ListingStep::Done));
    let mut other = d.list();
    let _ = other.next_step();
    let e = other
        .receive_page(response(200, &[("x-data-type", "file")], b"{}"))
        .unwrap_err();
    assert_eq!(e.to_display_string(), "expected API response with data type 'directory', received 'file'");
    let e = other.receive_page(response(200, &[], b"[]")).unwrap_err();
    assert_eq!(e.to_display_string(), "failed to decode directory listing json");
    assert!(matches!(other.next_step(), ListingStep::Done));
}

#[test]
fn put_file_into_dir() {
    let c = client();
    let d = c.dir("data://.my/up");
    let req = d.put_file("notes.txt", b"abc".to_vec()).unwrap();
    assert_eq!(req.url, "https://api.algorithmia.com/v1/connector/data/.my/up/notes.txt");
    assert_eq!(req.method, Method::Put);
    let f: DataFile = d.child("notes.txt");
    assert_eq!(f.path(), "data/.my/up/notes.txt");
}

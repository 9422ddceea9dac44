use algorithmia::data::listing::ListingStep;
use algorithmia::data::object::DataItem;
use algorithmia::data::dir::{DataAcl, DataDir, ReadAcl};
use algorithmia::data::file::DataFile;
use algorithmia::data::object::HasDataPath;
use algorithmia::Algorithmia;

fn mock_client() -> Algorithmia {
    Algorithmia::client("", None).unwrap()
}

fn url_path(url: &str) -> String {
    url::Url::parse(url).unwrap().path().to_string()
}

#[test]
fn dir_test_to_url() {
    let dir = mock_client().dir("data://anowell/foo");
    assert_eq!(url_path(&dir.to_url().unwrap()), "/v1/connector/data/anowell/foo");
}

#[test]
fn test_to_data_uri() {
    let dir = mock_client().dir("/anowell/foo");
    assert_eq!(dir.to_data_uri(), "data://anowell/foo".to_string());
}

#[test]
fn dir_test_parent() {
    let dir = mock_client().dir("data://anowell/foo");
    let expected = mock_client().dir("data://anowell");
    assert_eq!(dir.parent().unwrap().path(), expected.path());

    let dir = mock_client().dir("dropbox://anowell/foo");
    let expected = mock_client().dir("dropbox://anowell");
    assert_eq!(dir.parent().unwrap().path(), expected.path());

    let dir = mock_client().dir("data://anowell");
    let expected = mock_client().dir("data://");
    assert_eq!(dir.parent().unwrap().path(), expected.path());

    let dir = mock_client().dir("data://");
    assert!(dir.parent().is_none());
}

#[test]
fn test_default_acl() {
    let acl: DataAcl = DataAcl::default();
    assert_eq!(acl.read, vec!["algo://.my/*".to_string()]);
}

#[test]
fn test_private_acl() {
    let acl: DataAcl = ReadAcl::Private.into();
    assert!(acl.read.is_empty());
}

#[test]
fn test_public_acl() {
    let acl: DataAcl = ReadAcl::Public.into();
    assert_eq!(acl.read, vec!["user://*".to_string()]);
}

#[test]
fn test_myalgos_acl() {
    let acl: DataAcl = ReadAcl::MyAlgorithms.into();
    assert_eq!(acl.read, vec!["algo://.my/*".to_string()]);
}

#[test]
fn dir_data_uri_of_my_dir() {
    let client = mock_client();
    let my_dir = client.dir(".my/my_dir");
    assert_eq!(my_dir.to_data_uri(), "data://.my/my_dir");
}

#[test]
fn file_parent_data_uri() {
    let client = mock_client();
    let my_file = client.file("data://.my/my_dir/my_file");
    assert_eq!(my_file.parent().unwrap().to_data_uri(), "data://.my/my_dir");
}

#[test]
fn dir_basename() {
    let client = mock_client();
    let my_dir = client.dir("data:///.my/my_dir");
    assert_eq!(my_dir.basename().unwrap(), "my_dir");
}

#[test]
fn dir_basename_ignores_trailing_slash() {
    let client = mock_client();
    let my_dir = client.dir("data://.my/my_dir/");
    assert_eq!(my_dir.basename().unwrap(), "my_dir");
}

#[test]
fn child_then_parent_is_dir() {
    let client = mock_client();
    let dir = client.dir("data://.my/photos");
    let file: DataFile = dir.child("cat.jpg");
    assert_eq!(file.to_data_uri(), "data://.my/photos/cat.jpg");
    assert_eq!(file.parent().unwrap().path(), dir.path());
    let slashed = client.dir("data://.my/photos/");
    let sub: DataDir = slashed.child("2019");
    assert_eq!(sub.to_data_uri(), "data://.my/photos/2019");
}

fn page_response(body: &str) -> algorithmia::client::HttpResponse {
    algorithmia::client::HttpResponse {
        status: 200,
        headers: vec![("x-data-type".to_string(), "directory".to_string())],
        body: body.as_bytes().to_vec(),
    }
}

#[test]
fn listing_walks_pages_in_order() {
    let client = mock_client();
    let dir = client.dir("data://.my/photos");
    let mut listing = dir.list();
    match listing.next_step() {
        ListingStep::Fetch(Ok(req)) => {
            assert_eq!(url_path(&req.url), "/v1/connector/data/.my/photos");
            assert!(!req.url.contains("marker"));
        }
        other => panic!("expected the first page request, got {:?}", other),
    }
    listing
        .receive_page(page_response(
            r#"{"folders":[{"name":"a"},{"name":"b"}],"files":[{"filename":"f.txt","size":3,"last_modified":"2016-01-01T00:00:00.000Z"}],"marker":"m1"}"#,
        ))
        .unwrap();
    for name in ["a", "b"] {
        match listing.next_step() {
            ListingStep::Item(DataItem::Dir(d)) => {
                assert_eq!(d.dir.to_data_uri(), format!("data://.my/photos/{}", name))
            }
            other => panic!("expected folder {}, got {:?}", name, other),
        }
    }
    match listing.next_step() {
        ListingStep::Item(DataItem::File(f)) => {
            assert_eq!(f.size, 3);
            assert_eq!(f.file.to_data_uri(), "data://.my/photos/f.txt");
        }
        other => panic!("expected the file, got {:?}", other),
    }
    match listing.next_step() {
        ListingStep::Fetch(Ok(req)) => assert!(req.url.ends_with("marker=m1")),
        other => panic!("expected the next page request, got {:?}", other),
    }
    listing.receive_page(page_response(r#"{"folders":[],"files":[]}"#)).unwrap();
    assert!(matches!(listing.next_step(), ListingStep::Done));
    assert!(matches!(listing.next_step(), ListingStep::Done));
}

#[test]
fn listing_reads_page_values() {
    let client = mock_client();
    let dir = client.dir("data://.my/photos");
    let mut listing = dir.list();
    let bad = algorithmia::json::value_from_str("[1]").unwrap();
    assert!(listing.receive_listing(bad).is_err());
    let page = algorithmia::json::value_from_str(r#"{"folders":[{"name":"x"}]}"#).unwrap();
    listing.receive_listing(page).unwrap();
    match listing.next_step() {
        ListingStep::Item(DataItem::Dir(d)) => assert_eq!(d.dir.to_data_uri(), "data://.my/photos/x"),
        other => panic!("expected folder x, got {:?}", other),
    }
}

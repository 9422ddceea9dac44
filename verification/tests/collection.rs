use algorithmia::client::{ApiAuth, HttpClient, Method};
use algorithmia::collection::{Collection, CollectionCreated, CollectionShow};

fn collection(path: &str) -> Collection {
    let client = HttpClient::new(ApiAuth::from_str_key("key"), "https://api.algorithmia.com").unwrap();
    Collection::new(client, path)
}

#[test]
fn collection_test_to_url() {
    let collection = collection("anowell/foo");
    assert_eq!(collection.to_url().unwrap(), "https://api.algorithmia.com/data/anowell/foo");
}

#[test]
fn collection_test_parent() {
    let collection = collection("anowell/foo");
    assert_eq!(collection.parent(), "anowell");
}

#[test]
fn collection_parent_and_basename() {
    let my_dir = collection("my_user/my_dir");
    assert_eq!(my_dir.parent(), "my_user");
    assert_eq!(my_dir.basename(), "my_dir");
    let flat = collection("solo");
    assert_eq!(flat.parent(), ".");
    assert_eq!(flat.basename(), "solo");
}

#[test]
fn collection_paths_as_unix_names() {
    let trailing = collection("my_user/my_dir/");
    assert_eq!(trailing.parent(), "my_user");
    assert_eq!(trailing.basename(), "my_dir");
    let rooted = collection("/foo");
    assert_eq!(rooted.parent(), "/");
    assert_eq!(rooted.basename(), "foo");
    let root = collection("///");
    assert_eq!(root.parent(), "/");
    assert_eq!(root.basename(), "/");
    let doubled = collection("a//b");
    assert_eq!(doubled.parent(), "a");
    assert_eq!(doubled.basename(), "b");
    let empty = collection("");
    assert_eq!(empty.parent(), ".");
    assert_eq!(empty.basename(), "");
}

#[test]
fn collection_requests() {
    let c = collection("my_user/my_dir");
    let create = c.create_request().unwrap();
    assert_eq!(create.method, Method::Post);
    assert_eq!(create.url, "https://api.algorithmia.com/data/my_user");
    assert_eq!(create.body, Some(b"my_dir".to_vec()));
    let write = c.write_file("some_filename", b"file_contents".to_vec()).unwrap();
    assert_eq!(write.url, "https://api.algorithmia.com/data/my_user/my_dir/some_filename");
    assert_eq!(write.body, Some(b"file_contents".to_vec()));
    let del = c.delete_file("some_filename").unwrap();
    assert_eq!(del.method, Method::Delete);
    assert_eq!(c.show_request().unwrap().method, Method::Get);
}

#[test]
fn collection_responses() {
    let show = CollectionShow::from_response(r#"{"username":"u","collection_name":"c","files":["a","b"]}"#).unwrap();
    assert_eq!(show.files, vec!["a".to_string(), "b".to_string()]);
    let created = CollectionCreated::from_response(
        r#"{"collection_id":7,"object_id":"o","collection_name":"c","username":"u","acl":{"read_w":false,"read_g":false,"read_u":true,"read_a":true}}"#,
    )
    .unwrap();
    assert_eq!(created.collection_id, 7);
    assert!(created.acl.read_u && !created.acl.read_w);
    let e = CollectionShow::from_response(r#"{"error":{"message":"no such collection"}}"#).unwrap_err();
    assert_eq!(e.api_error().unwrap().message, "no such collection");
    let text = r#"{"username":"u"}"#;
    let e = CollectionShow::from_response(text).unwrap_err();
    assert_eq!(e.to_display_string(), text);
    let c = collection("u/c");
    assert_eq!(c.file_added(&br#"{"result":"data://u/c/f"}"#.to_vec()).unwrap().result, "data://u/c/f");
    assert_eq!(c.file_deleted(&br#"{"result":"ok"}"#.to_vec()).unwrap().result, "ok");
    assert_eq!(c.delete(&br#"{"unknown":"?"}"#.to_vec()).unwrap().unknown, "?");
    assert!(c.show(&vec![0xff]).is_err());
}

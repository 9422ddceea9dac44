use algorithmia::data::path::{basename_of, parent_uri, parse_data_uri, to_data_uri};

#[test]
fn test_parse_protocol() {
    assert_eq!(parse_data_uri("data://"), "data");
    assert_eq!(parse_data_uri("data://foo"), "data/foo");
    assert_eq!(parse_data_uri("data://foo/"), "data/foo/");
    assert_eq!(parse_data_uri("data://foo/bar"), "data/foo/bar");
    assert_eq!(parse_data_uri("dropbox://"), "dropbox");
    assert_eq!(parse_data_uri("dropbox://foo"), "dropbox/foo");
    assert_eq!(parse_data_uri("dropbox://foo/"), "dropbox/foo/");
    assert_eq!(parse_data_uri("dropbox://foo/bar"), "dropbox/foo/bar");
}

#[test]
fn test_parse_leading_slash() {
    assert_eq!(parse_data_uri("/foo"), "data/foo");
    assert_eq!(parse_data_uri("/foo/"), "data/foo/");
    assert_eq!(parse_data_uri("/foo/bar"), "data/foo/bar");
}

#[test]
fn test_parse_unprefixed() {
    assert_eq!(parse_data_uri("foo"), "data/foo");
    assert_eq!(parse_data_uri("foo/"), "data/foo/");
    assert_eq!(parse_data_uri("foo/bar"), "data/foo/bar");
}

#[test]
fn data_uri_of_path() {
    assert_eq!(to_data_uri("data/foo/bar"), "data://foo/bar");
    assert_eq!(to_data_uri("data"), "data://");
    assert_eq!(to_data_uri("dropbox/foo"), "dropbox://foo");
}

#[test]
fn data_uri_round_trip() {
    for uri in ["data://foo/bar", "dropbox://foo", "data://.my/dir/file", "s3://"] {
        assert_eq!(to_data_uri(&parse_data_uri(uri)), uri);
    }
}

#[test]
fn parent_and_basename_of_paths() {
    assert_eq!(parent_uri("data/anowell/foo"), Some("data://anowell".to_string()));
    assert_eq!(parent_uri("data/anowell"), Some("data://".to_string()));
    assert_eq!(parent_uri("data"), None);
    assert_eq!(parent_uri("data/a/b/c/"), Some("data://a/b".to_string()));
    assert_eq!(basename_of("data/.my/my_dir"), "my_dir");
    assert_eq!(basename_of("data/.my/my_dir/"), "my_dir");
    assert_eq!(basename_of("data//"), "data");
    assert_eq!(basename_of("///"), "/");
}

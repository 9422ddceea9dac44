use algorithmia::algo::version::Version;

#[test]
fn version_test_latest_string() {
    let version = Version::Latest;
    assert_eq!(version.to_string(), "latest".to_string());
    assert_eq!(&*version.to_string(), "latest");
}

#[test]
fn version_test_revision_string() {
    let version = Version::Revision(1, 2, 3);
    assert_eq!(version.to_string(), "1.2.3".to_string());
    assert_eq!(&*version.to_string(), "1.2.3");
}

#[test]
fn version_test_minor_string() {
    let version = Version::Minor(1, 2);
    assert_eq!(version.to_string(), "1.2".to_string());
    assert_eq!(&*version.to_string(), "1.2");
}

#[test]
fn algorithm_test_latest_string() {
    let version = Version::Latest;
    assert_eq!(version.to_string(), "latest".to_string());
    assert_eq!(&*version.to_string(), "latest");
}

#[test]
fn algorithm_test_revision_string() {
    let version = Version::Revision(1, 2, 3);
    assert_eq!(version.to_string(), "1.2.3".to_string());
    assert_eq!(&*version.to_string(), "1.2.3");
}

#[test]
fn algorithm_test_minor_string() {
    let version = Version::Minor(1, 2);
    assert_eq!(version.to_string(), "1.2".to_string());
    assert_eq!(&*version.to_string(), "1.2");
}

#[test]
fn version_hash_string() {
    let version = Version::Hash("abcdef123456");
    assert_eq!(&*version.to_string(), "abcdef123456");
}

#[test]
fn version_text_round_trip() {
    for text in ["latest", "1.2", "0.1.0", "abcdef123456"] {
        assert_eq!(Version::from_str(text).to_string(), text.to_string());
    }
    assert!(matches!(Version::from_str("1.2"), Version::Minor(1, 2)));
    assert!(matches!(Version::from_str("0.1.0"), Version::Revision(0, 1, 0)));
    assert!(matches!(Version::from_str("latest"), Version::Hash("latest")));
    assert!(matches!(Version::from_str("abcdef"), Version::Hash("abcdef")));
}

#[test]
fn version_from_str_examples() {
    assert_eq!(Version::from_str("1.2").to_string(), Version::Minor(1, 2).to_string());
    assert_eq!(Version::from_str("1.2.3").to_string(), Version::Revision(1, 2, 3).to_string());
    assert_eq!(Version::from_str("abc123").to_string(), Version::Hash("abc123").to_string());
}

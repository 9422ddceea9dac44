use algorithmia::algo::bytevec::ByteVec;
use algorithmia::algo::uri::AlgoOptions;

#[test]
fn bytevec_default_clone_and_eq() {
    let empty = ByteVec::new();
    assert_eq!(empty.len(), 0);
    assert_eq!(empty, ByteVec::default());
    let b = ByteVec::from(vec![1u8, 2, 3]);
    let c = b.clone();
    assert_eq!(b, c);
    assert!(empty < b);
    assert_eq!(Vec::<u8>::from(c), vec![1u8, 2, 3]);
}

#[test]
fn bytevec_from_anything_into_bytes() {
    assert_eq!(ByteVec::from("ab").as_slice(), b"ab");
    assert_eq!(ByteVec::from("ab".to_string()), ByteVec::from(vec![b'a', b'b']));
    let v: ByteVec = vec![7u8].into();
    assert_eq!(v.len(), 1);
    assert_eq!(ByteVec::with_capacity(8), ByteVec::new());
    let bytes: &[u8] = &[1, 2];
    assert_eq!(ByteVec::from(bytes).as_slice(), &[1u8, 2][..]);
    assert_eq!(ByteVec::from("é").len(), 2);
}

#[test]
fn options_timeout_adds_then_replaces() {
    let mut opts = AlgoOptions::new();
    opts.insert("output".to_string(), "raw".to_string());
    opts.timeout(3);
    assert_eq!(opts.len(), 2);
    assert_eq!(opts.get("timeout"), Some(&"3".to_string()));
    opts.timeout(7);
    assert_eq!(opts.len(), 2);
    assert_eq!(opts.get("timeout"), Some(&"7".to_string()));
    assert_eq!(opts.get("output"), Some(&"raw".to_string()));
    assert_eq!(opts.pair_at(0), ("output", "raw"));
    assert_eq!(opts.pair_at(1), ("timeout", "7"));
}

#[test]
fn options_stdout_switches() {
    let mut opts = AlgoOptions::new();
    opts.stdout(false);
    assert_eq!(opts.get("stdout"), Some(&"false".to_string()));
    opts.enable_stdout();
    assert_eq!(opts.len(), 1);
    assert_eq!(opts.get("stdout"), Some(&"true".to_string()));
}

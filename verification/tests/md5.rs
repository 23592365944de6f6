use fscan::hashing::hash_field;

// Hash of empty string
#[test]
fn md5() {
    let x = md5::Context::new();
    assert_eq!("d41d8cd98f00b204e9800998ecf8427e", format!("{:?}", x.compute()));
}

// A file that could not be read hashes like an empty input: the digest of
// nothing, truncated to the configured width.
#[test]
fn unreadable_file_hashes_empty_input() {
    let chunks: Vec<Vec<u8>> = Vec::new();
    let field: String = hash_field(3, 8, 10, &chunks).into_iter().collect();
    assert_eq!("d41d8cd9", field);
}

// A hash width beyond the digest yields the whole digest; the sentinel
// always follows the configured width.
#[test]
fn hash_width_clamps_to_digest() {
    let chunks = vec![b"abc".to_vec()];
    let field: String = hash_field(3, 64, 3, &chunks).into_iter().collect();
    assert_eq!(field, hex::encode(md5::compute(b"abc").0));
    let empty: String = hash_field(3, 64, 0, &Vec::new()).into_iter().collect();
    assert_eq!(empty, "-".repeat(64));
}

// The digest is independent of how the content was chunked.
#[test]
fn chunking_does_not_change_hash() {
    let whole = vec![b"hello world".to_vec()];
    let split = vec![b"hello ".to_vec(), b"world".to_vec()];
    let a: String = hash_field(3, 8, 11, &whole).into_iter().collect();
    let b: String = hash_field(3, 8, 11, &split).into_iter().collect();
    assert_eq!(a, b);
    assert_eq!(a, hex::encode(md5::compute(b"hello world").0)[..8].to_string());
}

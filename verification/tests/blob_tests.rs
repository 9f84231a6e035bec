use oci_registry_client::blob::Blob;
use sha2::Digest as _;

fn sha256_hex(data: &[u8]) -> String {
    let mut h = sha2::Sha256::new();
    h.update(data);
    let out = h.finalize();
    let mut hex = String::new();
    for byte in out.as_slice() {
        hex.push_str(&format!("{:02x}", byte));
    }
    hex
}

#[test]
fn verified_stream_digest_matches_sha256_of_the_whole() {
    let mut b = Blob::new(Some(4), None, true);
    b.push_chunk(b"ab");
    b.push_chunk(b"cd");
    b.finish();
    let d = b.digest();
    assert_eq!(d.algorithm, "sha256");
    assert_eq!(d.hash, sha256_hex(b"abcd"));
}

#[test]
fn chunking_does_not_change_the_digest() {
    let mut one = Blob::new(None, None, true);
    one.push_chunk(b"hello world");
    one.finish();
    let mut many = Blob::new(None, None, true);
    many.push_chunk(b"hel");
    many.push_chunk(b"lo ");
    many.push_chunk(b"world");
    many.finish();
    assert_eq!(one.digest(), many.digest());
}

#[test]
fn empty_stream_digest_is_sha256_of_nothing() {
    let mut b = Blob::new(Some(0), None, true);
    b.finish();
    let d = b.digest();
    assert_eq!(d.hash, sha256_hex(b""));
}

#[test]
fn headers_are_reported_back() {
    let b = Blob::new(Some(1024), Some(String::from("application/octet-stream")), false);
    assert_eq!(b.len(), Some(1024));
    assert_eq!(b.content_type().as_deref(), Some("application/octet-stream"));
    let unknown = Blob::new(None, None, false);
    assert_eq!(unknown.len(), None);
    assert_eq!(unknown.content_type(), &None);
}

#[test]
fn byte_count_follows_the_chunks() {
    let mut b = Blob::new(None, None, false);
    b.push_chunk(b"ab");
    b.push_chunk(b"");
    b.push_chunk(b"cde");
    assert_eq!(b.downloaded, 5);
}

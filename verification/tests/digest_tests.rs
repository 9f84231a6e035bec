use oci_registry_client::digest::{Digest, ParseDigestError};

#[test]
fn parse_valid_digest() {
    let d = Digest::parse("sha256:6c3c624b58dbbcd3c0dd82b4c53f04194d1247c6eebdaab7c610cf7d66709b3b")
        .unwrap();
    assert_eq!(d.algorithm, "sha256");
    assert_eq!(d.hash, "6c3c624b58dbbcd3c0dd82b4c53f04194d1247c6eebdaab7c610cf7d66709b3b");
}

#[test]
fn parse_splits_on_first_colon() {
    let d = Digest::parse("sha256:ab:cd").unwrap();
    assert_eq!(d.algorithm, "sha256");
    assert_eq!(d.hash, "ab:cd");
}

#[test]
fn parse_without_colon_fails() {
    assert_eq!(Digest::parse("sha256abcdef"), Err(ParseDigestError));
    assert_eq!(Digest::parse(""), Err(ParseDigestError));
}

#[test]
fn parse_with_an_empty_field_fails() {
    assert_eq!(Digest::parse(":abc123"), Err(ParseDigestError));
    assert_eq!(Digest::parse("sha256:"), Err(ParseDigestError));
    assert_eq!(Digest::parse(":"), Err(ParseDigestError));
    assert_eq!(Digest::parse("::"), Err(ParseDigestError));
}

#[test]
fn parse_error_message() {
    assert_eq!(ParseDigestError.message(), "invalid digest format");
}

#[test]
fn to_string_renders_algorithm_colon_hash() {
    let d = Digest { algorithm: String::from("sha256"), hash: String::from("abc123") };
    assert_eq!(d.to_string(), "sha256:abc123");
}

#[test]
fn round_trip_string_to_digest_to_string() {
    for s in ["sha256:abc123", "sha512:00ff", "a:b", "md5:x:y:z", "x::"] {
        let d = Digest::parse(s).unwrap();
        assert!(!d.algorithm.is_empty());
        assert!(!d.hash.is_empty());
        assert_eq!(d.to_string(), s);
    }
}

#[test]
fn round_trip_digest_to_string_to_digest() {
    let d = Digest { algorithm: String::from("sha256"), hash: String::from("deadbeef") };
    let parsed = Digest::parse(&d.to_string()).unwrap();
    assert_eq!(parsed, d);
}

#[test]
fn digest_equality_is_structural() {
    let a = Digest { algorithm: String::from("sha256"), hash: String::from("aa") };
    let b = Digest { algorithm: String::from("sha256"), hash: String::from("aa") };
    let c = Digest { algorithm: String::from("sha256"), hash: String::from("AA") };
    assert_eq!(a, b);
    assert_ne!(a, c);
    assert_eq!(a.clone(), a);
}

#[test]
fn from_sha256_renders_lowercase_hex() {
    let d = Digest::from_sha256(&vec![0x00, 0x01, 0xab, 0xff]);
    assert_eq!(d.algorithm, "sha256");
    assert_eq!(d.hash, "0001abff");
}

#[test]
fn from_sha256_of_empty_bytes() {
    let d = Digest::from_sha256(&Vec::new());
    assert_eq!(d.algorithm, "sha256");
    assert_eq!(d.hash, "");
}

use knowledge_index::fingerprint::{content_fingerprint, ContentHasher};
use knowledge_index::text::hex_lower_string;

#[test]
fn fingerprint_is_lowercase_sha256_hex() {
    assert_eq!(
        content_fingerprint(b"abc"),
        "ba7816bf8f01cfea414140de5dae2223b00361a396177a9cb410ff61f20015ad"
    );
    assert_eq!(
        content_fingerprint(b""),
        "e3b0c44298fc1c149afbf4c8996fb92427ae41e4649b934ca495991b7852b855"
    );
}

#[test]
fn chunked_fingerprint_equals_whole_fingerprint() {
    let mut hasher = ContentHasher::new();
    hasher.update(b"a");
    hasher.update(b"");
    hasher.update(b"bc");
    assert_eq!(hasher.finish(), content_fingerprint(b"abc"));
}

#[test]
fn hex_has_two_digits_per_byte() {
    assert_eq!(hex_lower_string(&[0x00, 0xff, 0x1a, 0x09]), "00ff1a09");
    assert_eq!(hex_lower_string(&[]), "");
}

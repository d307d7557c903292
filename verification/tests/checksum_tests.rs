use thermorawfilereader::checksum::checksum_hex;

#[test]
fn test_checksum_known_digest() {
    // SHA-1 of "abc", a published reference value.
    assert_eq!(checksum_hex(b"abc"), "a9993e364706816aba3e25717850c26c9cd0d89d");
}

#[test]
fn test_checksum_empty_input() {
    // SHA-1 of the empty message, a published reference value.
    assert_eq!(checksum_hex(b""), "da39a3ee5e6b4b0d3255bfef95601890afd80709");
}

#[test]
fn test_checksum_is_forty_lower_hex_chars() {
    let hex = checksum_hex(b"The quick brown fox jumps over the lazy dog");
    assert_eq!(hex, "2fd4e1c67a2d28fced849ee1bb76e7391b93eb12");
    assert_eq!(hex.len(), 40);
    assert!(hex.chars().all(|c| c.is_ascii_hexdigit() && !c.is_ascii_uppercase()));
}

#[test]
fn test_checksum_distinguishes_inputs() {
    assert_ne!(checksum_hex(b"abc"), checksum_hex(b"abd"));
}

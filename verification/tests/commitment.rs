use rng_attester::commitment::compute_commitment;

#[test]
fn commitment_is_deterministic() {
    let value = vec![0x01u8, 0x02, 0x03, 0x04];
    let salt = vec![0xAAu8; 32];
    let d1 = compute_commitment(&value, &salt);
    let d2 = compute_commitment(&value, &salt);
    assert_eq!(d1, d2);
    assert_eq!(d1.len(), 32);
}

#[test]
fn commitment_matches_sha256_of_concatenation() {
    // SHA-256 of the ASCII bytes "abc".
    let expected = vec![
        0xbau8, 0x78, 0x16, 0xbf, 0x8f, 0x01, 0xcf, 0xea, 0x41, 0x41, 0x40, 0xde, 0x5d, 0xae,
        0x22, 0x23, 0xb0, 0x03, 0x61, 0xa3, 0x96, 0x17, 0x7a, 0x9c, 0xb4, 0x10, 0xff, 0x61,
        0xf2, 0x00, 0x15, 0xad,
    ];
    let d = compute_commitment(b"a", b"bc");
    assert_eq!(d, expected);
    // The same bytes split differently concatenate to the same input.
    let d2 = compute_commitment(b"ab", b"c");
    assert_eq!(d2, expected);
}

#[test]
fn commitment_depends_on_order() {
    // hash(value || salt) must differ from hash(salt || value) here.
    let d_forward = compute_commitment(b"bc", b"a");
    let d_joined = compute_commitment(b"a", b"bc");
    assert_ne!(d_forward, d_joined);
}

#[test]
fn commitment_changes_with_salt() {
    let value = vec![0x42u8; 8];
    let salt_a = vec![0x00u8; 32];
    let salt_b = vec![0x01u8; 32];
    assert_ne!(
        compute_commitment(&value, &salt_a),
        compute_commitment(&value, &salt_b)
    );
}

#[test]
fn commitment_of_empty_input_is_sha256_of_empty() {
    // SHA-256 of the empty byte string.
    let expected = vec![
        0xe3u8, 0xb0, 0xc4, 0x42, 0x98, 0xfc, 0x1c, 0x14, 0x9a, 0xfb, 0xf4, 0xc8, 0x99, 0x6f,
        0xb9, 0x24, 0x27, 0xae, 0x41, 0xe4, 0x64, 0x9b, 0x93, 0x4c, 0xa4, 0x95, 0x99, 0x1b,
        0x78, 0x52, 0xb8, 0x55,
    ];
    assert_eq!(compute_commitment(b"", b""), expected);
}

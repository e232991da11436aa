use poit::digest::{hash_matches, hex_lower_string, sha256_hex};

#[test]
fn sha256_of_known_inputs() {
    assert_eq!(
        sha256_hex(b"abc"),
        "ba7816bf8f01cfea414140de5dae2223b00361a396177a9cb410ff61f20015ad"
    );
    assert_eq!(
        sha256_hex(b""),
        "e3b0c44298fc1c149afbf4c8996fb92427ae41e4649b934ca495991b7852b855"
    );
}

#[test]
fn hex_is_lowercase_two_digits_per_byte() {
    assert_eq!(hex_lower_string(&[0x00, 0xff, 0x1a, 0x9b]), "00ff1a9b");
    assert_eq!(hex_lower_string(&[]), "");
}

#[test]
fn checksum_comparison_ignores_surrounding_white_space() {
    let h = sha256_hex(b"package");
    assert!(hash_matches(&h, &h));
    assert!(hash_matches(&h, &format!("{h}\n")));
    assert!(hash_matches(&format!(" {h}"), &format!("{h}\r\n")));
    assert!(!hash_matches(&h, &sha256_hex(b"other")));
    assert!(!hash_matches(&h, ""));
}

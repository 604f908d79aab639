use maintenance_core::digest::{hex_encode_upper, password_digest, same_digest};

#[test]
fn hex_of_nothing_is_empty() {
    assert_eq!(hex_encode_upper(&[]), "");
}

#[test]
fn hex_has_two_upper_case_digits_per_byte() {
    assert_eq!(hex_encode_upper(&[0xbe, 0xef]), "BEEF");
    assert_eq!(hex_encode_upper(&[0x00, 0x0f, 0xf0, 0xff]), "000FF0FF");
    assert_eq!(hex_encode_upper(&[0x09, 0x0a, 0x10, 0x9a, 0xa9]), "090A109AA9");
}

#[test]
fn hex_covers_every_digit() {
    let bytes: Vec<u8> = vec![0x01, 0x23, 0x45, 0x67, 0x89, 0xab, 0xcd, 0xef];
    assert_eq!(hex_encode_upper(&bytes), "0123456789ABCDEF");
}

#[test]
fn digest_of_empty_password() {
    assert_eq!(
        password_digest(""),
        "E3B0C44298FC1C149AFBF4C8996FB92427AE41E4649B934CA495991B7852B855"
    );
}

#[test]
fn digest_of_known_passwords() {
    assert_eq!(
        password_digest("abc"),
        "BA7816BF8F01CFEA414140DE5DAE2223B00361A396177A9CB410FF61F20015AD"
    );
    assert_eq!(
        password_digest("pw1"),
        "C592DF4A86933B92ADDC9842402DDF198C638EA9BE58916EE6E3734E1E3152F8"
    );
}

#[test]
fn digest_is_taken_of_the_utf8_bytes() {
    assert_eq!(
        password_digest("p\u{e4}ssword"),
        "3478267B5612791B40988906B3A7897EB6AB501E04B95ED32F99D0AFDF669D9C"
    );
}

#[test]
fn digest_is_not_the_password() {
    let digest = password_digest("pw1");
    assert_ne!(digest, "pw1");
    assert_eq!(digest.len(), 64);
    assert!(digest.chars().all(|c| c.is_ascii_digit() || ('A'..='F').contains(&c)));
}

#[test]
fn digests_are_compared_in_full() {
    assert!(same_digest("", ""));
    assert!(same_digest("BA78", "BA78"));
    assert!(!same_digest("BA78", "BA79"));
    assert!(!same_digest("BA78", "CA78"));
    assert!(!same_digest("BA78", "BA7"));
    assert!(!same_digest("BA78", "BA788"));
    assert!(!same_digest("", "0"));
    assert!(!same_digest("ba78", "BA78"));
    assert!(same_digest(&password_digest("pw1"), &password_digest("pw1")));
    assert!(!same_digest(&password_digest("pw1"), &password_digest("pw2")));
}

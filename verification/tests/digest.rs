use orca::digest::{sha1_hex_of, to_hex};

#[test]
fn hex_is_lowercase_two_digits_per_byte() {
    assert_eq!(to_hex(&[]), "");
    assert_eq!(to_hex(&[0x00]), "00");
    assert_eq!(to_hex(&[0x0f, 0xf0, 0xab, 0x09, 0x9a, 0xff]), "0ff0ab099aff");
    assert_eq!(to_hex(&[0xbe, 0xef]), "beef");
}

#[test]
fn sha1_of_known_texts() {
    assert_eq!(
        sha1_hex_of("abc").unwrap(),
        "a9993e364706816aba3e25717850c26c9cd0d89d"
    );
    assert_eq!(
        sha1_hex_of("").unwrap(),
        "da39a3ee5e6b4b0d3255bfef95601890afd80709"
    );
    assert_eq!(
        sha1_hex_of("hello world").unwrap(),
        "2aae6c35c94fcfb415dbe95f408b9ce91ee846ed"
    );
}

#[test]
fn sha1_is_taken_of_utf8_bytes() {
    let mut hasher = <sha1::Sha1 as sha1::Digest>::new();
    sha1::Digest::update(&mut hasher, "zürich 日本".as_bytes());
    let expected: String = sha1::Digest::finalize(hasher)
        .iter()
        .map(|b| format!("{:02x}", b))
        .collect();
    assert_eq!(sha1_hex_of("zürich 日本").unwrap(), expected);
    assert_eq!(expected.len(), 40);
}

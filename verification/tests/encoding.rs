use kroki::encoding::{decode_text, encode_text};

#[test]
fn unit_encode_decode_roundtrip() {
    let text = "digraph G { A -> B; }";
    let encoded = encode_text(text).unwrap();
    let output = decode_text(&encoded).unwrap();
    assert_eq!(output, text);
}

#[test]
fn encoded_text_is_url_safe_without_padding() {
    let encoded = encode_text("a?b/c+d==\u{e9}\u{1f600}").unwrap();
    assert!(encoded
        .chars()
        .all(|c| c.is_ascii_alphanumeric() || c == '-' || c == '_'));
    assert_eq!(decode_text(&encoded).unwrap(), "a?b/c+d==\u{e9}\u{1f600}");
}

#[test]
fn known_encoding_of_a_graph() {
    // zlib header for the default level is 0x78 0x9c, which base64 writes as "eJ".
    let encoded = encode_text("digraph G { A -> B; }").unwrap();
    assert!(encoded.starts_with("eJ"));
}

#[test]
fn padded_and_standard_base64_are_accepted() {
    let encoded = encode_text("x").unwrap();
    let mut padded = encoded.clone();
    while padded.len() % 4 != 0 {
        padded.push('=');
    }
    assert_eq!(decode_text(&padded).unwrap(), "x");
    let standard: String = padded
        .chars()
        .map(|c| match c {
            '-' => '+',
            '_' => '/',
            other => other,
        })
        .collect();
    assert_eq!(decode_text(&standard).unwrap(), "x");
}

#[test]
fn invalid_base64_is_reported() {
    let err = decode_text("not base64 at all!").unwrap_err();
    assert!(err.starts_with("invalid base64: "), "{err}");
}

#[test]
fn base64_of_non_zlib_data_is_an_error() {
    // "aGVsbG8" is "hello" in base64, which is no zlib stream.
    assert!(decode_text("aGVsbG8").is_err());
}

#[test]
fn empty_text_roundtrips() {
    let encoded = encode_text("").unwrap();
    assert_eq!(decode_text(&encoded).unwrap(), "");
}

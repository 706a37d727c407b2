use rcli::{process_decode, process_encode, Base64Format, ProcessError};

#[test]
fn test_process_encode() {
    let input = "Hello World";
    let format = Base64Format::Standard;
    assert_eq!(process_encode(input, format), "SGVsbG8gV29ybGQ=");
}

#[test]
fn test_process_decode() {
    let input = "SGVsbG8gV29ybGQ";
    let format = Base64Format::UrlSafe;
    assert_eq!(
        process_decode(input, format),
        Ok(b"Hello World".to_vec())
    );
}

#[test]
fn test_encode_url_safe_no_padding() {
    // URL-safe output uses `-` and `_` and carries no `=` padding
    let data = "\u{00fb}\u{00ff}";
    let encoded = process_encode(data, Base64Format::UrlSafe);
    assert!(!encoded.contains('='));
    assert!(!encoded.contains('+'));
    assert!(!encoded.contains('/'));
}

#[test]
fn test_encode_decode_round_trip() {
    for data in ["", "a", "ab", "abc", "abcd", "Hello World"] {
        for format in [Base64Format::Standard, Base64Format::UrlSafe] {
            let encoded = process_encode(data, format);
            assert_eq!(process_decode(&encoded, format), Ok(data.as_bytes().to_vec()));
        }
    }
}

#[test]
fn test_decode_rejects_bad_text() {
    assert_eq!(
        process_decode("not base64!!!", Base64Format::Standard),
        Err(ProcessError::DecodeError)
    );
    assert_eq!(
        process_decode("####", Base64Format::UrlSafe),
        Err(ProcessError::DecodeError)
    );
}

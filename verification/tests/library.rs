use ettac::error::Error;
use ettac::library::{base64_decode, base64_encode};

#[test]
fn base64_encode_standard_alphabet_with_padding() {
    assert_eq!(base64_encode("hello"), "aGVsbG8=");
    assert_eq!(base64_encode(""), "");
    assert_eq!(base64_encode("é"), "w6k=");
}

#[test]
fn base64_decode_gives_text() {
    assert_eq!(base64_decode("aGVsbG8="), Ok("hello".to_string()));
}

#[test]
fn base64_round_trip() {
    for text in ["", "a", "deploy", "pässwörd", "line\nbreak"] {
        assert_eq!(base64_decode(&base64_encode(text)), Ok(text.to_string()));
    }
}

#[test]
fn base64_decode_rejects_bad_alphabet() {
    assert_eq!(base64_decode("!!!"), Err(Error::InvalidBase64("!!!".to_string())));
}

#[test]
fn base64_decode_rejects_non_utf8() {
    assert_eq!(base64_decode("/w=="), Err(Error::InvalidBase64("/w==".to_string())));
}

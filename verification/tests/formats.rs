use backend::format::AudioFormat;
use backend::ids::{decimal_text, hyphenated_text, RecordingId, TokenId};

#[test]
fn from_str_parses_container_and_codec() {
    let f = AudioFormat::from_str("ogg/opus").expect("parse ogg/opus");
    assert_eq!(f.container, "ogg");
    assert_eq!(f.codec, "opus");
}

#[test]
fn from_str_keeps_empty_halves() {
    let f = AudioFormat::from_str("/").expect("parse lone delimiter");
    assert_eq!(f.container, "");
    assert_eq!(f.codec, "");
}

#[test]
fn from_str_rejects_missing_delimiter() {
    assert!(AudioFormat::from_str("oggopus").is_err());
    assert!(AudioFormat::from_str("").is_err());
}

#[test]
fn from_str_rejects_extra_delimiters() {
    assert!(AudioFormat::from_str("a/b/c").is_err());
    assert!(AudioFormat::from_str("//").is_err());
}

#[test]
fn serialized_then_parsed_is_identity() {
    let f = AudioFormat::new("matroska".to_string(), "vorbis".to_string());
    let text = f.serialized();
    assert_eq!(text, "matroska/vorbis");
    let back = AudioFormat::from_str(&text).expect("parse serialized form");
    assert_eq!(back.container, f.container);
    assert_eq!(back.codec, f.codec);
}

#[test]
fn decimal_text_renders_digits() {
    assert_eq!(decimal_text(0), "0");
    assert_eq!(decimal_text(7), "7");
    assert_eq!(decimal_text(1234), "1234");
    assert_eq!(decimal_text(1000000), "1000000");
}

#[test]
fn hyphenated_text_renders_canonical_form() {
    assert_eq!(hyphenated_text(0), "00000000-0000-0000-0000-000000000000");
    assert_eq!(
        hyphenated_text(0x12345678_9abc_def0_1234_56789abcdef0),
        "12345678-9abc-def0-1234-56789abcdef0"
    );
    let id = RecordingId::new(0xffff_ffff_ffff_ffff_ffff_ffff_ffff_ffff);
    assert_eq!(id.text(), "ffffffff-ffff-ffff-ffff-ffffffffffff");
    let token = TokenId::new(1);
    assert_eq!(token.text(), "00000000-0000-0000-0000-000000000001");
}

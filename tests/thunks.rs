use dash_rs::{Base64Decoder, PercentDecoder, ProcessError, Thunk, ThunkProcessor};
use std::borrow::Cow;

const SONG_LINK: &str =
    "https%3A%2F%2Faudio.ngfiles.com%2F771000%2F771277_Creo---Dune.mp3%3Ff1508708604";
const SONG_LINK_DECODED: &str =
    "https://audio.ngfiles.com/771000/771277_Creo---Dune.mp3?f1508708604";

#[test]
fn base64_decodes_test() {
    let decoded = Base64Decoder::from_unprocessed("dGVzdA==").unwrap();
    assert_eq!(decoded, "test");
}

#[test]
fn base64_encodes_test() {
    let encoded = Base64Decoder::as_unprocessed(&Cow::Borrowed("test")).unwrap();
    assert_eq!(encoded, "dGVzdA==");
}

#[test]
fn base64_uses_url_safe_alphabet() {
    let encoded = Base64Decoder::as_unprocessed(&Cow::Borrowed("\u{3ff}\u{3ff}>?")).unwrap();
    assert_eq!(encoded, "z7_Pvz4_");
    let decoded = Base64Decoder::from_unprocessed("z7_Pvz4_").unwrap();
    assert_eq!(decoded, "\u{3ff}\u{3ff}>?");
}

#[test]
fn base64_round_trip() {
    for text in ["", "a", "ab", "abc", "please rate and like  8-9 stars mabye?", "\u{e9}t\u{e9} ~"] {
        let value = Cow::Borrowed(text);
        let encoded = Base64Decoder::as_unprocessed(&value).unwrap();
        let decoded = Base64Decoder::from_unprocessed(&encoded).unwrap();
        assert_eq!(decoded, text);
    }
}

#[test]
fn base64_invalid_alphabet() {
    let result = Base64Decoder::from_unprocessed("dGV*zdA=");
    assert!(matches!(result, Err(ProcessError::Base64(_))));
}

#[test]
fn base64_invalid_length() {
    let result = Base64Decoder::from_unprocessed("dGVzd");
    assert!(matches!(result, Err(ProcessError::Base64(_))));
}

#[test]
fn base64_invalid_utf8() {
    let result = Base64Decoder::from_unprocessed("_w==");
    assert!(matches!(result, Err(ProcessError::FromUtf8(_))));
}

#[test]
fn percent_decodes_song_link() {
    let decoded = PercentDecoder::from_unprocessed(SONG_LINK).unwrap();
    assert_eq!(decoded, SONG_LINK_DECODED);
}

#[test]
fn percent_encodes_song_link() {
    let encoded = PercentDecoder::as_unprocessed(&Cow::Borrowed(SONG_LINK_DECODED)).unwrap();
    assert_eq!(encoded, SONG_LINK);
}

#[test]
fn percent_escapes_only_its_set() {
    let encoded = PercentDecoder::as_unprocessed(&Cow::Borrowed("a b~c\n&=%#")).unwrap();
    assert_eq!(encoded, "a%20b%7Ec%0A&=%#");
}

#[test]
fn percent_keeps_non_ascii_characters() {
    let encoded = PercentDecoder::as_unprocessed(&Cow::Borrowed("\u{e9}t\u{e9} \u{1f600}")).unwrap();
    assert_eq!(encoded, "\u{e9}t\u{e9}%20\u{1f600}");
    let decoded = PercentDecoder::from_unprocessed("%c3%a9").unwrap();
    assert_eq!(decoded, "\u{e9}");
    let decoded = PercentDecoder::from_unprocessed(&encoded).unwrap();
    assert_eq!(decoded, "\u{e9}t\u{e9} \u{1f600}");
}

#[test]
fn percent_escapes_delete_and_controls() {
    let encoded = PercentDecoder::as_unprocessed(&Cow::Borrowed("\u{7f}\t\u{0}")).unwrap();
    assert_eq!(encoded, "%7F%09%00");
}

#[test]
fn percent_value_with_escape_sequence_is_normalized_once() {
    let value = Cow::Borrowed("%41");
    let written = PercentDecoder::as_unprocessed(&value).unwrap();
    assert_eq!(written, "%41");
    let reread = PercentDecoder::from_unprocessed(&written).unwrap();
    assert_eq!(reread, "A");
}

#[test]
fn percent_keeps_incomplete_escapes() {
    let decoded = PercentDecoder::from_unprocessed("100%-%4").unwrap();
    assert_eq!(decoded, "100%-%4");
}

#[test]
fn percent_invalid_utf8() {
    let result = PercentDecoder::from_unprocessed("%FF");
    assert!(matches!(result, Err(ProcessError::Utf8(_))));
}

#[test]
fn percent_round_trip_of_escaped_set() {
    let raw = "%3A%2F%3F%7E%20%0A";
    let decoded = PercentDecoder::from_unprocessed(raw).unwrap();
    assert_eq!(decoded, ":/?~ \n");
    let encoded = PercentDecoder::as_unprocessed(&decoded).unwrap();
    let again = PercentDecoder::from_unprocessed(&encoded).unwrap();
    assert_eq!(again, decoded);
}

#[test]
fn process_twice_gives_same_value() {
    let mut thunk: Thunk<Base64Decoder> = Thunk::Unprocessed("dGVzdA==");
    let first = thunk.process().unwrap().clone();
    assert_eq!(first, "test");
    assert!(matches!(thunk, Thunk::Processed(_)));
    let second = thunk.process().unwrap().clone();
    assert_eq!(first, second);
}

#[test]
fn process_on_processed_does_not_decode() {
    // this value would not decode as base64, so processing it again would fail
    let mut thunk: Thunk<Base64Decoder> = Thunk::Processed(Cow::Borrowed("***"));
    assert_eq!(thunk.process().unwrap(), "***");
}

#[test]
fn failed_process_keeps_raw_text() {
    let mut thunk: Thunk<PercentDecoder> = Thunk::Unprocessed("a%FFb");
    assert!(matches!(thunk.process(), Err(ProcessError::Utf8(_))));
    assert_eq!(thunk, Thunk::Unprocessed("a%FFb"));
    assert!(matches!(thunk.as_unprocessed().unwrap(), Cow::Borrowed("a%FFb")));
    assert_eq!(thunk.as_unprocessed().unwrap(), "a%FFb");
}

#[test]
fn as_unprocessed_of_raw_text() {
    let thunk: Thunk<Base64Decoder> = Thunk::Unprocessed("not base64 at all");
    assert_eq!(thunk.as_unprocessed().unwrap(), "not base64 at all");
}

#[test]
fn as_unprocessed_of_processed_value() {
    let thunk: Thunk<PercentDecoder> = Thunk::Processed(Cow::Borrowed("a:b"));
    assert_eq!(thunk.as_unprocessed().unwrap(), "a%3Ab");
}

#[test]
fn into_processed_decodes() {
    let thunk: Thunk<PercentDecoder> = Thunk::Unprocessed("a%3Ab");
    assert_eq!(thunk.into_processed().unwrap(), "a:b");
    let thunk: Thunk<PercentDecoder> = Thunk::Processed(Cow::Borrowed("x"));
    assert_eq!(thunk.into_processed().unwrap(), "x");
    let thunk: Thunk<Base64Decoder> = Thunk::Unprocessed("%%");
    assert!(matches!(thunk.into_processed(), Err(ProcessError::Base64(_))));
}

#[test]
fn thunk_equality_compares_like_with_like() {
    let raw: Thunk<Base64Decoder> = Thunk::Unprocessed("dGVzdA==");
    let same_raw: Thunk<Base64Decoder> = Thunk::Unprocessed("dGVzdA==");
    let other_raw: Thunk<Base64Decoder> = Thunk::Unprocessed("dGVzdA");
    let processed: Thunk<Base64Decoder> = Thunk::Processed(Cow::Borrowed("test"));
    let same_processed: Thunk<Base64Decoder> = Thunk::Processed(Cow::Owned(String::from("test")));
    assert_eq!(raw, same_raw);
    assert_ne!(raw, other_raw);
    assert_eq!(processed, same_processed);
    assert_ne!(raw, processed);
    assert_ne!(processed, raw);
}

#[test]
fn write_read_write_is_fixed() {
    let mut thunk: Thunk<PercentDecoder> = Thunk::Unprocessed("a%3ab%2f");
    thunk.process().unwrap();
    let written = thunk.as_unprocessed().unwrap().into_owned();
    assert_eq!(written, "a%3Ab%2F");
    let mut reread: Thunk<PercentDecoder> = Thunk::Unprocessed(&written);
    reread.process().unwrap();
    let rewritten = reread.as_unprocessed().unwrap().into_owned();
    assert_eq!(rewritten, written);
}

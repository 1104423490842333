//! The two processors of the record format: percent-escaped text and URL-safe base64 text.

use crate::percent::{
    encoded_byte, has_escape_sequence, is_escaped, lemma_encode_push, lemma_encode_valid,
    lemma_percent_encoded_decodes, percent_decode_bytes, percent_decoded, percent_encode_bytes,
    percent_encoded, upper_hex_digit,
};
use crate::thunk::{ProcessError, ThunkProcessor};
use std::borrow::Cow;
use vstd::prelude::*;
use vstd::string::StringSliceAdditionalSpecFns;
use vstd::utf8::{
    decode_utf8, encode_utf8, encode_utf8_decode_utf8, encode_utf8_valid_utf8, valid_utf8,
};

verus! {

/// The text that `base64::encode_config` writes, with the URL-safe configuration, for `bytes`.
pub uninterp spec fn base64_url_encoding(bytes: Seq<u8>) -> Seq<char>;

/// What `base64::decode_config`, with the URL-safe configuration, makes of `text`: the decoded
/// bytes, or `None` when it reports an error.
pub uninterp spec fn base64_url_decoding(text: Seq<char>) -> Option<Seq<u8>>;

/// Relies on `percent_encoding::percent_decode_str` and `PercentDecode::decode_utf8`: each `%`
/// followed by two hexadecimal digits becomes the byte they spell, other bytes stay, and the
/// bytes are then read as UTF-8, failing when they are not well-formed.
#[verifier::external_body]
fn percent_decode_utf8<'a>(raw: &'a str) -> (r: Result<Cow<'a, str>, std::str::Utf8Error>)
    ensures
        match r {
            Ok(text) => valid_utf8(percent_decode_bytes(encode_utf8(raw@))) && text@ == decode_utf8(
                percent_decode_bytes(encode_utf8(raw@)),
            ),
            Err(_) => !valid_utf8(percent_decode_bytes(encode_utf8(raw@))),
        },
{
    percent_encoding::percent_decode_str(raw).decode_utf8()
}

/// The upper-case hexadecimal digit for `n`.
fn upper_hex(n: u8) -> (r: u8)
    requires
        n < 16,
    ensures
        r == upper_hex_digit(n),
{
    if n < 10 {
        0x30 + n
    } else {
        0x41 + n - 10
    }
}

/// Relies on `String::from_utf8`: the bytes as a string when they are well-formed UTF-8, an
/// error otherwise.
#[verifier::external_body]
fn string_from_utf8(bytes: Vec<u8>) -> (r: Result<String, std::string::FromUtf8Error>)
    ensures
        match r {
            Ok(s) => valid_utf8(bytes@) && s@ == decode_utf8(bytes@),
            Err(_) => !valid_utf8(bytes@),
        },
{
    String::from_utf8(bytes)
}

/// Relies on `base64::encode_config` with `base64::URL_SAFE`. What it writes is a function of the
/// bytes alone, and `base64::decode_config` with the same configuration reads it back as those
/// bytes.
#[verifier::external_body]
fn base64_url_encode(bytes: &[u8]) -> (r: String)
    ensures
        r@ == base64_url_encoding(bytes@),
        base64_url_decoding(r@) == Some(bytes@),
{
    base64::encode_config(bytes, base64::URL_SAFE)
}

/// Relies on `base64::decode_config` with `base64::URL_SAFE`: the result is a function of the
/// text alone.
#[verifier::external_body]
fn base64_url_decode(text: &str) -> (r: Result<Vec<u8>, base64::DecodeError>)
    ensures
        match r {
            Ok(bytes) => base64_url_decoding(text@) == Some(bytes@),
            Err(_) => base64_url_decoding(text@) is None,
        },
{
    base64::decode_config(text, base64::URL_SAFE)
}

/// The text a copy-on-write string holds.
fn cow_text<'b>(c: &'b Cow<'_, str>) -> (r: &'b str)
    ensures
        r@ == c@,
{
    match c {
        Cow::Borrowed(s) => s,
        Cow::Owned(o) => o.as_str(),
    }
}

/// Whether the byte `b` is written escaped.
fn should_escape(b: u8) -> (r: bool)
    ensures
        r == is_escaped(b),
{
    b < 0x20 || b == 0x7f || b == 0x20 || b == 0x3a || b == 0x2f || b == 0x3f || b == 0x7e
}

/// Processor for percent-escaped text.
#[derive(Debug, Eq, PartialEq, Clone, Copy)]
pub struct PercentDecoder;

impl ThunkProcessor for PercentDecoder {
    type Error = ProcessError;

    type Output<'a> = Cow<'a, str>;

    type Value = Seq<char>;

    open spec fn value_of(out: Cow<'_, str>) -> Seq<char> {
        out@
    }

    open spec fn decoded(raw: Seq<char>) -> Option<Seq<char>> {
        percent_decoded(raw)
    }

    open spec fn rejects(raw: Seq<char>, e: ProcessError) -> bool {
        e is Utf8
    }

    open spec fn encodable(value: Seq<char>) -> bool {
        true
    }

    open spec fn encodes(value: Seq<char>, raw: Seq<char>) -> bool {
        raw == percent_encoded(value)
    }

    fn from_unprocessed<'a>(unprocessed: &'a str) -> (r: Result<Cow<'a, str>, ProcessError>) {
        match percent_decode_utf8(unprocessed) {
            Ok(text) => Ok(text),
            Err(e) => Err(ProcessError::Utf8(e)),
        }
    }

    fn as_unprocessed<'a, 'b>(processed: &'b Cow<'a, str>) -> (r: Result<
        Cow<'b, str>,
        ProcessError,
    >) {
        let text = cow_text(processed);
        let bytes = text.as_bytes();
        let mut out: Vec<u8> = Vec::new();
        let mut i: usize = 0;
        while i < bytes.len()
            invariant
                i <= bytes@.len(),
                bytes@ == encode_utf8(processed@),
                out@ == percent_encode_bytes(bytes@.subrange(0, i as int)),
            decreases bytes.len() - i,
        {
            let b = bytes[i];
            proof {
                lemma_encode_push(bytes@.subrange(0, i as int), b);
                assert(bytes@.subrange(0, i + 1) =~= bytes@.subrange(0, i as int).push(b));
            }
            if should_escape(b) {
                out.push(0x25);
                out.push(upper_hex(b / 16));
                out.push(upper_hex(b % 16));
            } else {
                out.push(b);
            }
            assert(out@ =~= percent_encode_bytes(bytes@.subrange(0, i as int)) + encoded_byte(b));
            i = i + 1;
        }
        proof {
            assert(bytes@.subrange(0, i as int) =~= bytes@);
            lemma_encode_valid(processed@);
        }
        match string_from_utf8(out) {
            Ok(s) => Ok(Cow::Owned(s)),
            Err(e) => Err(ProcessError::FromUtf8(e)),
        }
    }
}

/// The text that URL-safe base64 `raw` decodes to, or `None` when it is not valid base64 or the
/// decoded bytes are not UTF-8.
pub open spec fn base64_decoded(raw: Seq<char>) -> Option<Seq<char>> {
    match base64_url_decoding(raw) {
        Some(bytes) => if valid_utf8(bytes) {
            Some(decode_utf8(bytes))
        } else {
            None
        },
        None => None,
    }
}

/// Processor for URL-safe base64 encoded text.
#[derive(Debug, Eq, PartialEq, Clone, Copy)]
pub struct Base64Decoder;

impl ThunkProcessor for Base64Decoder {
    type Error = ProcessError;

    type Output<'a> = Cow<'a, str>;

    type Value = Seq<char>;

    open spec fn value_of(out: Cow<'_, str>) -> Seq<char> {
        out@
    }

    open spec fn decoded(raw: Seq<char>) -> Option<Seq<char>> {
        base64_decoded(raw)
    }

    /// Invalid base64 is reported as such; valid base64 whose bytes are not UTF-8 as a UTF-8
    /// error.
    open spec fn rejects(raw: Seq<char>, e: ProcessError) -> bool {
        if base64_url_decoding(raw) is None {
            e is Base64
        } else {
            e is FromUtf8
        }
    }

    open spec fn encodable(value: Seq<char>) -> bool {
        true
    }

    /// The encoding is the URL-safe base64 text of the value's UTF-8 bytes, which decodes back to
    /// those bytes.
    open spec fn encodes(value: Seq<char>, raw: Seq<char>) -> bool {
        &&& raw == base64_url_encoding(encode_utf8(value))
        &&& base64_url_decoding(raw) == Some(encode_utf8(value))
    }

    fn from_unprocessed<'a>(unprocessed: &'a str) -> (r: Result<Cow<'a, str>, ProcessError>) {
        match base64_url_decode(unprocessed) {
            Ok(bytes) => match string_from_utf8(bytes) {
                Ok(s) => Ok(Cow::Owned(s)),
                Err(e) => Err(ProcessError::FromUtf8(e)),
            },
            Err(e) => Err(ProcessError::Base64(e)),
        }
    }

    fn as_unprocessed<'a, 'b>(processed: &'b Cow<'a, str>) -> (r: Result<
        Cow<'b, str>,
        ProcessError,
    >) {
        let text = cow_text(processed);
        Ok(Cow::Owned(base64_url_encode(text.as_bytes())))
    }
}

/// Percent-encoding a decoded value and decoding the result again gives the value back, unless
/// the value holds a `%` followed by two hexadecimal digits (which a value without `%` never
/// does, see [`crate::percent::lemma_no_percent_sign`]).
pub proof fn lemma_percent_processor_round_trip(raw: Seq<char>, value: Seq<char>, text: Seq<char>)
    requires
        PercentDecoder::decoded(raw) == Some(value),
        PercentDecoder::encodes(value, text),
        !has_escape_sequence(encode_utf8(value)),
    ensures
        PercentDecoder::decoded(text) == PercentDecoder::decoded(raw),
{
    lemma_percent_encoded_decodes(value);
}

/// Any text encoded as base64 decodes back to that same text.
pub proof fn lemma_base64_processor_round_trip(value: Seq<char>, text: Seq<char>)
    requires
        Base64Decoder::encodes(value, text),
    ensures
        Base64Decoder::decoded(text) == Some(value),
{
    encode_utf8_valid_utf8(value);
    encode_utf8_decode_utf8(value);
}

/// Writing a base64 value, reading the text back and writing again gives the same text: one
/// pass reaches the fixed point.
pub proof fn lemma_base64_write_read_write(
    value: Seq<char>,
    written: Seq<char>,
    reread: Seq<char>,
    rewritten: Seq<char>,
)
    requires
        Base64Decoder::encodes(value, written),
        Base64Decoder::decoded(written) == Some(reread),
        Base64Decoder::encodes(reread, rewritten),
    ensures
        reread == value,
        rewritten == written,
{
    lemma_base64_processor_round_trip(value, written);
}

/// Writing a percent-escaped value, reading the text back and writing again gives the same text,
/// unless the value holds a `%` followed by two hexadecimal digits.
pub proof fn lemma_percent_write_read_write(
    value: Seq<char>,
    written: Seq<char>,
    reread: Seq<char>,
    rewritten: Seq<char>,
)
    requires
        PercentDecoder::encodes(value, written),
        PercentDecoder::decoded(written) == Some(reread),
        PercentDecoder::encodes(reread, rewritten),
        !has_escape_sequence(encode_utf8(value)),
    ensures
        reread == value,
        rewritten == written,
{
    lemma_percent_encoded_decodes(value);
}

} // verus!

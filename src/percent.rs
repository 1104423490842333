//! Percent-escaping as the record format writes it: only control characters, space, `:`, `/`,
//! `?` and `~` are escaped; every other character is written as it is.

use vstd::prelude::*;
use vstd::utf8::{
    char_u32_cast, decode_utf8, decode_utf8_encode_utf8, encode_scalar, encode_utf8, encode_utf8_decode_utf8,
    encode_utf8_valid_utf8, is_ascii_chars, is_ascii_chars_encode_utf8, valid_utf8,
    valid_utf8_concat,
};

verus! {

/// Whether `b` is an ASCII hexadecimal digit, in either case.
pub open spec fn is_hex_digit(b: u8) -> bool {
    (0x30 <= b <= 0x39) || (0x41 <= b <= 0x46) || (0x61 <= b <= 0x66)
}

/// The value of the hexadecimal digit `b`.
pub open spec fn hex_value(b: u8) -> u8 {
    if b <= 0x39 {
        (b - 0x30) as u8
    } else if b <= 0x46 {
        (b - 0x41 + 10) as u8
    } else {
        (b - 0x61 + 10) as u8
    }
}

/// The upper-case hexadecimal digit for `n`, which is below 16.
pub open spec fn upper_hex_digit(n: u8) -> u8 {
    if n < 10 {
        (0x30 + n) as u8
    } else {
        (0x41 + n - 10) as u8
    }
}

/// Percent-decoding of bytes: each `%` followed by two hexadecimal digits becomes the byte they
/// spell; every other byte stays as it is.
pub open spec fn percent_decode_bytes(b: Seq<u8>) -> Seq<u8>
    decreases b.len(),
{
    if b.len() == 0 {
        seq![]
    } else if b[0] == 0x25 && b.len() >= 3 && is_hex_digit(b[1]) && is_hex_digit(b[2]) {
        seq![(hex_value(b[1]) * 16 + hex_value(b[2])) as u8] + percent_decode_bytes(
            b.subrange(3, b.len() as int),
        )
    } else {
        seq![b[0]] + percent_decode_bytes(b.subrange(1, b.len() as int))
    }
}

/// Whether the byte `b` is written escaped: an ASCII control character, space, `:`, `/`, `?` or
/// `~`.
pub open spec fn is_escaped(b: u8) -> bool {
    b < 0x20 || b == 0x7f || b == 0x20 || b == 0x3a || b == 0x2f || b == 0x3f || b == 0x7e
}

/// The escape of byte `b`: `%` and its two upper-case hexadecimal digits.
pub open spec fn escape_bytes(b: u8) -> Seq<u8> {
    seq![0x25u8, upper_hex_digit(b / 16), upper_hex_digit(b % 16)]
}

/// How byte `b` is written.
pub open spec fn encoded_byte(b: u8) -> Seq<u8> {
    if is_escaped(b) {
        escape_bytes(b)
    } else {
        seq![b]
    }
}

/// Percent-encoding of bytes with the escaped set above.
pub open spec fn percent_encode_bytes(b: Seq<u8>) -> Seq<u8>
    decreases b.len(),
{
    if b.len() == 0 {
        seq![]
    } else {
        encoded_byte(b[0]) + percent_encode_bytes(b.subrange(1, b.len() as int))
    }
}

/// The characters of the ASCII bytes `b`.
pub open spec fn ascii_text(b: Seq<u8>) -> Seq<char> {
    b.map_values(|x: u8| x as char)
}

/// The text that percent-decoding `raw` gives, or `None` when the decoded bytes are not UTF-8.
pub open spec fn percent_decoded(raw: Seq<char>) -> Option<Seq<char>> {
    let b = percent_decode_bytes(encode_utf8(raw));
    if valid_utf8(b) {
        Some(decode_utf8(b))
    } else {
        None
    }
}

/// The percent-encoding of the text `text`. Escaped characters are all ASCII, so the encoded
/// bytes are UTF-8 again (see [`lemma_encode_valid`]).
pub open spec fn percent_encoded(text: Seq<char>) -> Seq<char> {
    decode_utf8(percent_encode_bytes(encode_utf8(text)))
}

/// Whether `b` holds a `%` followed by two hexadecimal digits.
pub open spec fn has_escape_sequence(b: Seq<u8>) -> bool {
    exists|i: int|
        0 <= i && i + 2 < b.len() && #[trigger] b[i] == 0x25 && is_hex_digit(b[i + 1])
            && is_hex_digit(b[i + 2])
}

/// Encoding one more byte appends its encoding.
pub proof fn lemma_encode_push(b: Seq<u8>, x: u8)
    ensures
        percent_encode_bytes(b.push(x)) == percent_encode_bytes(b) + encoded_byte(x),
    decreases b.len(),
{
    let bx = b.push(x);
    assert(bx[0] == if b.len() == 0 { x } else { b[0] });
    if b.len() == 0 {
        assert(bx.subrange(1, 1) =~= Seq::<u8>::empty());
        assert(percent_encode_bytes(Seq::<u8>::empty()) =~= Seq::<u8>::empty());
        assert(encoded_byte(x) + Seq::<u8>::empty() =~= encoded_byte(x));
        assert(Seq::<u8>::empty() + encoded_byte(x) =~= encoded_byte(x));
    } else {
        let rest = b.subrange(1, b.len() as int);
        lemma_encode_push(rest, x);
        assert(b.push(x).subrange(1, b.len() + 1 as int) =~= rest.push(x));
        assert(encoded_byte(b[0]) + (percent_encode_bytes(rest) + encoded_byte(x))
            =~= (encoded_byte(b[0]) + percent_encode_bytes(rest)) + encoded_byte(x));
    }
}

/// Encoding a concatenation concatenates the encodings.
pub proof fn lemma_encode_concat(a: Seq<u8>, b: Seq<u8>)
    ensures
        percent_encode_bytes(a + b) == percent_encode_bytes(a) + percent_encode_bytes(b),
    decreases a.len(),
{
    if a.len() == 0 {
        assert(a + b =~= b);
        assert(percent_encode_bytes(a) =~= Seq::<u8>::empty());
        assert(Seq::<u8>::empty() + percent_encode_bytes(b) =~= percent_encode_bytes(b));
    } else {
        let rest = a.subrange(1, a.len() as int);
        lemma_encode_concat(rest, b);
        assert((a + b)[0] == a[0]);
        assert((a + b).subrange(1, (a + b).len() as int) =~= rest + b);
        assert(encoded_byte(a[0]) + (percent_encode_bytes(rest) + percent_encode_bytes(b))
            =~= (encoded_byte(a[0]) + percent_encode_bytes(rest)) + percent_encode_bytes(b));
    }
}

/// Bytes outside ASCII are written as they are.
pub proof fn lemma_encode_high_bytes(b: Seq<u8>)
    requires
        forall|i: int| 0 <= i < b.len() ==> #[trigger] b[i] >= 0x80,
    ensures
        percent_encode_bytes(b) == b,
    decreases b.len(),
{
    if b.len() > 0 {
        let rest = b.subrange(1, b.len() as int);
        assert forall|i: int| 0 <= i < rest.len() implies #[trigger] rest[i] >= 0x80 by {
            assert(rest[i] == b[i + 1]);
        }
        lemma_encode_high_bytes(rest);
        assert(b =~= seq![b[0]] + rest);
    }
}

/// The UTF-8 encoding of a character is its own single byte when it is ASCII, and is made of
/// bytes outside ASCII otherwise.
pub proof fn lemma_scalar_bytes(c: char)
    ensures
        (c as u32) < 0x80 ==> encode_scalar(c as u32) == seq![(c as u32) as u8],
        (c as u32) >= 0x80 ==> forall|i: int|
            0 <= i < encode_scalar(c as u32).len() ==> #[trigger] encode_scalar(c as u32)[i] >= 0x80,
{
    let v = c as u32;
    if v < 0x80 {
        assert((v & 0x7F) as u8 == v as u8) by (bit_vector)
            requires
                v < 0x80,
        ;
    } else {
        assert(forall|x: u8|
            #![trigger (0x80u8 | x)]
            #![trigger (0xC0u8 | x)]
            #![trigger (0xE0u8 | x)]
            #![trigger (0xF0u8 | x)]
            (0x80u8 | x) >= 0x80 && (0xC0u8 | x) >= 0x80 && (0xE0u8 | x) >= 0x80 && (0xF0u8 | x)
                >= 0x80) by (bit_vector);
    }
}

/// Percent-encoding the UTF-8 encoding of a text gives valid UTF-8.
pub proof fn lemma_encode_valid(text: Seq<char>)
    ensures
        valid_utf8(percent_encode_bytes(encode_utf8(text))),
    decreases text.len(),
{
    if text.len() == 0 {
        assert(percent_encode_bytes(encode_utf8(text)) =~= Seq::<u8>::empty());
    } else {
        let c = text[0];
        let rest = text.drop_first();
        let head = encode_scalar(c as u32);
        lemma_encode_valid(rest);
        lemma_encode_concat(head, encode_utf8(rest));
        lemma_scalar_bytes(c);
        if (c as u32) < 0x80 {
            let x = (c as u32) as u8;
            assert(x < 0x80);
            assert(head[0] == x);
            assert(head.subrange(1, 1) =~= Seq::<u8>::empty());
            assert(percent_encode_bytes(Seq::<u8>::empty()) =~= Seq::<u8>::empty());
            assert(encoded_byte(x) + Seq::<u8>::empty() =~= encoded_byte(x));
            assert(percent_encode_bytes(head) =~= encoded_byte(x));
            assert forall|i: int| 0 <= i < encoded_byte(x).len() implies #[trigger] encoded_byte(
                x,
            )[i] < 0x80 by {
                if is_escaped(x) {
                    assert(x / 16 < 16 && x % 16 < 16);
                }
            }
            lemma_ascii_utf8(encoded_byte(x));
        } else {
            lemma_encode_high_bytes(head);
            assert(head == encode_utf8(seq![c])) by {
                assert(seq![c].drop_first() =~= Seq::<char>::empty());
                assert(seq![c][0] == c);
                assert(encode_utf8(Seq::<char>::empty()) =~= Seq::<u8>::empty());
                assert(head + Seq::<u8>::empty() =~= head);
            }
            encode_utf8_valid_utf8(seq![c]);
        }
        valid_utf8_concat(percent_encode_bytes(head), percent_encode_bytes(encode_utf8(rest)));
    }
}

/// A text without `%` has no byte `%` in its UTF-8 encoding.
pub proof fn lemma_no_percent_byte(text: Seq<char>)
    requires
        forall|i: int| 0 <= i < text.len() ==> #[trigger] text[i] != '%',
    ensures
        forall|j: int| 0 <= j < encode_utf8(text).len() ==> #[trigger] encode_utf8(text)[j] != 0x25,
    decreases text.len(),
{
    if text.len() > 0 {
        let c = text[0];
        let rest = text.drop_first();
        let head = encode_scalar(c as u32);
        assert forall|i: int| 0 <= i < rest.len() implies #[trigger] rest[i] != '%' by {
            assert(rest[i] == text[i + 1]);
        }
        lemma_no_percent_byte(rest);
        lemma_scalar_bytes(c);
        assert forall|j: int| 0 <= j < encode_utf8(text).len() implies #[trigger] encode_utf8(
            text,
        )[j] != 0x25 by {
            if j < head.len() {
                assert(encode_utf8(text)[j] == head[j]);
                if (c as u32) < 0x80 {
                    char_u32_cast(c, c as u32);
                    char_u32_cast('%', '%' as u32);
                    assert(((c as u32) as u8) != 0x25u8);
                }
            } else {
                assert(encode_utf8(text)[j] == encode_utf8(rest)[j - head.len()]);
            }
        }
    }
}

/// A text without `%` holds no `%` followed by two hexadecimal digits.
pub proof fn lemma_no_percent_sign(text: Seq<char>)
    requires
        forall|i: int| 0 <= i < text.len() ==> #[trigger] text[i] != '%',
    ensures
        !has_escape_sequence(encode_utf8(text)),
{
    lemma_no_percent_byte(text);
}

/// ASCII bytes are valid UTF-8, and they are the encoding of their own characters.
pub proof fn lemma_ascii_utf8(b: Seq<u8>)
    requires
        forall|i: int| 0 <= i < b.len() ==> #[trigger] b[i] < 0x80,
    ensures
        encode_utf8(ascii_text(b)) == b,
        valid_utf8(b),
        decode_utf8(b) == ascii_text(b),
{
    let t = ascii_text(b);
    assert(is_ascii_chars(t)) by {
        assert forall|i| 0 <= i < t.len() implies '\0' <= #[trigger] t[i] <= '\u{7f}' by {
            assert(b[i] < 0x80);
        }
    }
    is_ascii_chars_encode_utf8(t);
    assert forall|i| 0 <= i < b.len() implies #[trigger] encode_utf8(t)[i] == b[i] by {
        assert(t[i] as u8 == encode_utf8(t)[i]);
        assert(t[i] == b[i] as char);
    }
    assert(encode_utf8(t) =~= b);
    encode_utf8_valid_utf8(t);
    encode_utf8_decode_utf8(t);
}

/// The hexadecimal digit written for `n` reads back as `n`.
proof fn lemma_upper_hex_digit(n: u8)
    requires
        n < 16,
    ensures
        is_hex_digit(upper_hex_digit(n)),
        hex_value(upper_hex_digit(n)) == n,
{
}

/// Where the encoding starts with hexadecimal digits, they are the input's own first bytes.
proof fn lemma_encode_hex_prefix(b: Seq<u8>)
    ensures
        percent_encode_bytes(b).len() >= 1 && is_hex_digit(percent_encode_bytes(b)[0]) ==> b.len()
            >= 1 && b[0] == percent_encode_bytes(b)[0],
        percent_encode_bytes(b).len() >= 2 && is_hex_digit(percent_encode_bytes(b)[0])
            && is_hex_digit(percent_encode_bytes(b)[1]) ==> b.len() >= 2 && b[1]
            == percent_encode_bytes(b)[1],
    decreases b.len(),
{
    if b.len() > 0 {
        let rest = b.subrange(1, b.len() as int);
        if !is_escaped(b[0]) {
            lemma_encode_hex_prefix(rest);
            assert(rest.len() >= 1 ==> rest[0] == b[1]);
        }
    }
}

/// Decoding undoes encoding, unless the input itself holds a `%` followed by two hexadecimal
/// digits, which encoding leaves as it is and decoding then reads as an escape.
pub proof fn lemma_decode_encode_bytes(b: Seq<u8>)
    requires
        !has_escape_sequence(b),
    ensures
        percent_decode_bytes(percent_encode_bytes(b)) == b,
    decreases b.len(),
{
    if b.len() > 0 {
        let rest = b.subrange(1, b.len() as int);
        assert(!has_escape_sequence(rest)) by {
            if has_escape_sequence(rest) {
                let i = choose|i: int|
                    0 <= i && i + 2 < rest.len() && #[trigger] rest[i] == 0x25 && is_hex_digit(
                        rest[i + 1],
                    ) && is_hex_digit(rest[i + 2]);
                assert(b[i + 1] == 0x25);
            }
        }
        lemma_decode_encode_bytes(rest);
        let s = percent_encode_bytes(b);
        let x = b[0];
        if is_escaped(x) {
            lemma_upper_hex_digit(x / 16);
            lemma_upper_hex_digit(x % 16);
            assert(s.subrange(3, s.len() as int) =~= percent_encode_bytes(rest));
            assert((hex_value(s[1]) * 16 + hex_value(s[2])) as u8 == x);
        } else {
            assert(s.subrange(1, s.len() as int) =~= percent_encode_bytes(rest));
            if x == 0x25 {
                lemma_encode_hex_prefix(rest);
                assert(!(s.len() >= 3 && is_hex_digit(s[1]) && is_hex_digit(s[2]))) by {
                    if s.len() >= 3 && is_hex_digit(s[1]) && is_hex_digit(s[2]) {
                        assert(b[1] == s[1] && b[2] == s[2]);
                        assert(b[0] == 0x25);
                    }
                }
            }
        }
        assert(b =~= seq![x] + rest);
    }
}

/// Percent-encoding a text and decoding the result gives the text back, unless the text holds a
/// `%` followed by two hexadecimal digits.
pub proof fn lemma_percent_encoded_decodes(text: Seq<char>)
    requires
        !has_escape_sequence(encode_utf8(text)),
    ensures
        percent_decoded(percent_encoded(text)) == Some(text),
{
    let b = encode_utf8(text);
    let e = percent_encode_bytes(b);
    lemma_encode_valid(text);
    decode_utf8_encode_utf8(e);
    lemma_decode_encode_bytes(b);
    encode_utf8_valid_utf8(text);
    encode_utf8_decode_utf8(text);
}

} // verus!

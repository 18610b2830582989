//! Percent-encoding of the values substituted into a request body.
//!
//! A value is encoded byte by byte, from its UTF-8 form. ASCII letters, ASCII
//! digits and `-`, `.`, `_`, `~` stand for themselves; every other byte is
//! written as `%` and two upper-case hexadecimal digits.

use vstd::prelude::*;
use vstd::utf8::*;

verus! {

/// The bytes that percent-encoding leaves as they are: ASCII digits, ASCII
/// letters and `-`, `.`, `_`, `~`.
pub open spec fn is_unreserved(b: u8) -> bool {
    ||| 0x30 <= b <= 0x39
    ||| 0x41 <= b <= 0x5A
    ||| 0x61 <= b <= 0x7A
    ||| b == 0x2D
    ||| b == 0x2E
    ||| b == 0x5F
    ||| b == 0x7E
}

/// The characters that stand for themselves in an encoded value.
pub open spec fn is_unreserved_char(c: char) -> bool {
    c <= '\u{7f}' && is_unreserved(c as u8)
}

/// A text made of unreserved characters only.
pub open spec fn all_unreserved(value: Seq<char>) -> bool {
    forall|i: int| 0 <= i < value.len() ==> is_unreserved_char(#[trigger] value[i])
}

/// The upper-case hexadecimal digit for a value below sixteen.
pub open spec fn hex_digit(nibble: u8) -> char
    recommends
        nibble < 16,
{
    if nibble < 10 {
        ((0x30 + nibble) as u8) as char
    } else {
        ((0x41 + nibble - 10) as u8) as char
    }
}

/// A byte written out: `%`, then the hexadecimal digit of its high four bits,
/// then that of its low four bits.
pub open spec fn escaped(b: u8) -> Seq<char> {
    seq!['%', hex_digit(b / 16), hex_digit(b % 16)]
}

/// What one byte becomes: itself when unreserved, otherwise its escape.
pub open spec fn escape_byte(b: u8) -> Seq<char> {
    if is_unreserved(b) {
        seq![b as char]
    } else {
        escaped(b)
    }
}

/// What the bytes become, one after the other.
pub open spec fn escape_bytes(bytes: Seq<u8>) -> Seq<char>
    decreases bytes.len(),
{
    if bytes.len() == 0 {
        Seq::empty()
    } else {
        escape_byte(bytes[0]) + escape_bytes(bytes.drop_first())
    }
}

/// The percent-encoding of a text: what its UTF-8 bytes become.
pub open spec fn percent_encoded(value: Seq<char>) -> Seq<char> {
    escape_bytes(encode_utf8(value))
}

/// Percent-encodes `value` by a call of `urlencoding::encode`.
///
/// Trusted, not proved: the result is made from the UTF-8 bytes of `value`,
/// taken in order, where a byte that is an ASCII letter, an ASCII digit or one
/// of `-`, `.`, `_`, `~` stands for itself and every other byte is written as
/// `%` followed by the upper-case hexadecimal digits of its high and of its
/// low four bits.
#[verifier::external_body]
pub(crate) fn percent_encode(value: &str) -> (encoded: String)
    ensures
        encoded@ == percent_encoded(value@),
{
    urlencoding::encode(value).into_owned()
}

/// No character lies below `'\0'`. The solver knows this of a character
/// that it is handed, not of one that it finds in a sequence.
proof fn lemma_char_not_below_zero(c: char)
    ensures
        '\0' <= c,
{
}

/// What bytes become does not depend on where they are cut in two.
proof fn lemma_escape_bytes_concat(a: Seq<u8>, b: Seq<u8>)
    ensures
        escape_bytes(a + b) == escape_bytes(a) + escape_bytes(b),
    decreases a.len(),
{
    if a.len() > 0 {
        assert((a + b).drop_first() =~= a.drop_first() + b);
        lemma_escape_bytes_concat(a.drop_first(), b);
    }
}

/// The UTF-8 form of two texts put together is their UTF-8 forms put
/// together.
proof fn lemma_encode_utf8_concat(a: Seq<char>, b: Seq<char>)
    ensures
        encode_utf8(a + b) == encode_utf8(a) + encode_utf8(b),
    decreases a.len(),
{
    if a.len() > 0 {
        assert((a + b).drop_first() =~= a.drop_first() + b);
        lemma_encode_utf8_concat(a.drop_first(), b);
    }
}

/// Encoding goes piece by piece: the encoding of two texts put together is
/// the two encodings put together. So what a character becomes does not
/// depend on what stands around it.
pub proof fn lemma_percent_encoded_concat(a: Seq<char>, b: Seq<char>)
    ensures
        percent_encoded(a + b) == percent_encoded(a) + percent_encoded(b),
{
    lemma_encode_utf8_concat(a, b);
    lemma_escape_bytes_concat(encode_utf8(a), encode_utf8(b));
}

/// Unreserved bytes become the characters of the same code, one for one.
proof fn lemma_escape_bytes_unreserved(bytes: Seq<u8>)
    requires
        forall|i: int| 0 <= i < bytes.len() ==> is_unreserved(#[trigger] bytes[i]),
    ensures
        escape_bytes(bytes).len() == bytes.len(),
        forall|i: int|
            0 <= i < bytes.len() ==> #[trigger] escape_bytes(bytes)[i] == bytes[i] as char,
    decreases bytes.len(),
{
    if bytes.len() > 0 {
        lemma_escape_bytes_unreserved(bytes.drop_first());
    }
}

/// A text made of letters, digits, `-`, `.`, `_` and `~` is its own encoding.
pub proof fn lemma_unreserved_kept(value: Seq<char>)
    requires
        all_unreserved(value),
    ensures
        percent_encoded(value) == value,
{
    assert(is_ascii_chars(value)) by {
        assert forall|i: int| 0 <= i < value.len() implies '\0' <= #[trigger] value[i]
            <= '\u{7f}' by {
            lemma_char_not_below_zero(value[i]);
        }
    }
    is_ascii_chars_encode_utf8(value);
    lemma_escape_bytes_unreserved(encode_utf8(value));
}

/// The encoding of a single ASCII character: the character itself when it is
/// a letter, a digit or one of `-`, `.`, `_`, `~`, and otherwise `%` followed
/// by the two hexadecimal digits of its code.
pub proof fn lemma_ascii_char_encoded(c: char)
    requires
        c <= '\u{7f}',
    ensures
        is_unreserved_char(c) ==> percent_encoded(seq![c]) == seq![c],
        !is_unreserved_char(c) ==> percent_encoded(seq![c]) == escaped(c as u8),
{
    is_ascii_chars_encode_utf8(seq![c]);
    assert(escape_bytes(encode_utf8(seq![c]).drop_first()) =~= Seq::<char>::empty());
}

/// A space is written as `%20`.
pub proof fn lemma_space_encoded()
    ensures
        percent_encoded(seq![' ']) == seq!['%', '2', '0'],
{
    lemma_ascii_char_encoded(' ');
}

/// Bytes of which none is unreserved become their escapes, three characters
/// for each.
proof fn lemma_escape_bytes_reserved(bytes: Seq<u8>)
    requires
        forall|i: int| 0 <= i < bytes.len() ==> !is_unreserved(#[trigger] bytes[i]),
    ensures
        escape_bytes(bytes).len() == 3 * bytes.len(),
        forall|i: int|
            0 <= i < bytes.len() ==> escape_bytes(bytes).subrange(3 * i, 3 * i + 3) == escaped(
                #[trigger] bytes[i],
            ),
    decreases bytes.len(),
{
    if bytes.len() > 0 {
        let rest = bytes.drop_first();
        lemma_escape_bytes_reserved(rest);
        assert forall|i: int| 0 <= i < bytes.len() implies escape_bytes(bytes).subrange(
            3 * i,
            3 * i + 3,
        ) == escaped(#[trigger] bytes[i]) by {
            if i > 0 {
                assert(rest[i - 1] == bytes[i]);
            }
        }
    }
}

/// The UTF-8 form of a character outside ASCII holds no byte below `0x80`.
proof fn lemma_non_ascii_bytes(scalar: u32)
    requires
        !has_width_1_encoding(scalar),
    ensures
        forall|i: int|
            0 <= i < encode_scalar(scalar).len() ==> #[trigger] encode_scalar(scalar)[i] >= 0x80,
{
    assert((0xC0u8 | (((scalar >> 6) & 0x1F) as u8)) >= 0x80) by (bit_vector);
    assert((0xE0u8 | (((scalar >> 12) & 0x0F) as u8)) >= 0x80) by (bit_vector);
    assert((0xF0u8 | (((scalar >> 18) & 0x7) as u8)) >= 0x80) by (bit_vector);
    assert((0x80u8 | ((scalar & 0x3F) as u8)) >= 0x80) by (bit_vector);
    assert((0x80u8 | (((scalar >> 6) & 0x3F) as u8)) >= 0x80) by (bit_vector);
    assert((0x80u8 | (((scalar >> 12) & 0x3F) as u8)) >= 0x80) by (bit_vector);
}

/// The encoding of a single character outside ASCII: every byte of its UTF-8
/// form is written as `%` and two hexadecimal digits, so that nothing of the
/// character is left as it was.
pub proof fn lemma_non_ascii_char_encoded(c: char)
    requires
        c > '\u{7f}',
    ensures
        percent_encoded(seq![c]).len() == 3 * encode_scalar(c as u32).len(),
        forall|i: int|
            0 <= i < encode_scalar(c as u32).len() ==> percent_encoded(seq![c]).subrange(
                3 * i,
                3 * i + 3,
            ) == escaped(#[trigger] encode_scalar(c as u32)[i]),
{
    assert(encode_utf8(seq![c].drop_first()) =~= Seq::<u8>::empty());
    lemma_non_ascii_bytes(c as u32);
    lemma_escape_bytes_reserved(encode_scalar(c as u32));
}

/// Whatever the bytes, what they become is made of `%` and unreserved
/// characters.
proof fn lemma_escape_bytes_alphabet(bytes: Seq<u8>)
    ensures
        forall|i: int|
            0 <= i < escape_bytes(bytes).len() ==> {
                let c = #[trigger] escape_bytes(bytes)[i];
                c == '%' || is_unreserved_char(c)
            },
    decreases bytes.len(),
{
    if bytes.len() > 0 {
        lemma_escape_bytes_alphabet(bytes.drop_first());
        let head = escape_byte(bytes[0]);
        assert forall|i: int| 0 <= i < escape_bytes(bytes).len() implies {
            let c = #[trigger] escape_bytes(bytes)[i];
            c == '%' || is_unreserved_char(c)
        } by {
            if i >= head.len() {
                assert(escape_bytes(bytes)[i] == escape_bytes(bytes.drop_first())[i - head.len()]);
            }
        }
    }
}

/// An encoded value is made of letters, digits, `-`, `.`, `_`, `~` and `%`
/// only. Whatever the value holds, its encoding holds no `&`, `=`, `[` or
/// `]`: where a body shows one of these, it is a literal one.
pub proof fn lemma_encoded_alphabet(value: Seq<char>)
    ensures
        forall|i: int|
            0 <= i < percent_encoded(value).len() ==> {
                let c = #[trigger] percent_encoded(value)[i];
                c == '%' || is_unreserved_char(c)
            },
{
    lemma_escape_bytes_alphabet(encode_utf8(value));
}

} // verus!

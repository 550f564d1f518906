//! URLs, by way of the `url` crate: the normal form of a root endpoint, and
//! the encoding of values in a query.
use vstd::prelude::*;
use vstd::utf8::{encode_utf8, is_ascii_chars, is_ascii_chars_encode_utf8};
use crate::text::digit_char;

verus! {

/// What the `url` crate makes of a root endpoint: the serialization of the
/// URL that it parses, or the description of its parse error.
pub uninterp spec fn root_form(input: Seq<char>) -> Result<Seq<char>, Seq<char>>;

/// `Url::parse`, with the URL then turned into its serialization
/// (`into_string`) and a parse error into its description (`to_string`).
/// The contract names the outcome and claims nothing else of it.
#[verifier::external_body]
pub(crate) fn normalize(input: &str) -> (r: Result<String, String>)
    ensures
        match r {
            Ok(normal) => root_form(input@) == Ok::<Seq<char>, Seq<char>>(normal@),
            Err(description) => root_form(input@) == Err::<Seq<char>, Seq<char>>(description@),
        },
{
    match url::Url::parse(input) {
        Ok(parsed) => Ok(parsed.into_string()),
        Err(error) => Err(error.to_string()),
    }
}

/// Whether a byte is written unchanged in a query: an ASCII letter or digit,
/// or one of `*`, `-`, `.` and `_`.
pub open spec fn is_unreserved(byte: u8) -> bool {
    ||| byte == 0x2a
    ||| byte == 0x2d
    ||| byte == 0x2e
    ||| 0x30 <= byte <= 0x39
    ||| 0x41 <= byte <= 0x5a
    ||| byte == 0x5f
    ||| 0x61 <= byte <= 0x7a
}

/// The upper-case hexadecimal digit for a number below sixteen.
pub open spec fn hex_digit(n: int) -> char {
    if n < 10 {
        digit_char(n)
    } else if n == 10 {
        'A'
    } else if n == 11 {
        'B'
    } else if n == 12 {
        'C'
    } else if n == 13 {
        'D'
    } else if n == 14 {
        'E'
    } else {
        'F'
    }
}

/// How one byte is written in a query: unchanged, a space as `+`, and any
/// other byte as a percent sign and its two hexadecimal digits.
pub open spec fn form_byte(byte: u8) -> Seq<char> {
    if is_unreserved(byte) {
        seq![byte as char]
    } else if byte == 0x20 {
        seq!['+']
    } else {
        seq!['%', hex_digit(byte as int / 16), hex_digit(byte as int % 16)]
    }
}

/// The `application/x-www-form-urlencoded` form of a byte string.
pub open spec fn form_bytes(bytes: Seq<u8>) -> Seq<char>
    decreases bytes.len(),
{
    if bytes.len() == 0 {
        Seq::empty()
    } else {
        form_bytes(bytes.drop_last()) + form_byte(bytes.last())
    }
}

/// The form-urlencoded form of a text: that of its UTF-8 bytes.
pub open spec fn form_text(text: Seq<char>) -> Seq<char> {
    form_bytes(encode_utf8(text))
}

/// `url::form_urlencoded::byte_serialize` on the bytes of `text`, collected
/// into a string. The contract states what the serializer writes for every
/// byte: see [`form_byte`].
#[verifier::external_body]
pub(crate) fn byte_serialize(text: &str) -> (r: String)
    ensures
        r@ == form_text(text@),
{
    url::form_urlencoded::byte_serialize(text.as_bytes()).collect()
}

/// Whether every character of `text` is one that is written unchanged in a
/// query.
pub open spec fn is_plain(text: Seq<char>) -> bool {
    forall|i: int|
        0 <= i < text.len() ==> '\0' <= #[trigger] text[i] <= '\u{7f}' && is_unreserved(
            text[i] as u8,
        )
}

/// Bytes that are written unchanged make up their own form.
pub proof fn lemma_unreserved_bytes_are_unchanged(bytes: Seq<u8>)
    requires
        forall|i: int| 0 <= i < bytes.len() ==> is_unreserved(#[trigger] bytes[i]),
    ensures
        form_bytes(bytes) == Seq::new(bytes.len(), |i: int| bytes[i] as char),
    decreases bytes.len(),
{
    if bytes.len() > 0 {
        lemma_unreserved_bytes_are_unchanged(bytes.drop_last());
        assert(form_bytes(bytes) =~= Seq::new(bytes.len(), |i: int| bytes[i] as char));
    } else {
        assert(form_bytes(bytes) =~= Seq::new(bytes.len(), |i: int| bytes[i] as char));
    }
}

/// A text of letters, digits and `*`, `-`, `.`, `_` is its own form.
pub proof fn lemma_plain_text_is_unchanged(text: Seq<char>)
    requires
        is_plain(text),
    ensures
        form_text(text) == text,
{
    assert(is_ascii_chars(text));
    is_ascii_chars_encode_utf8(text);
    let bytes = encode_utf8(text);
    assert forall|i: int| 0 <= i < bytes.len() implies is_unreserved(#[trigger] bytes[i]) by {
        assert(bytes[i] == text[i] as u8);
    }
    lemma_unreserved_bytes_are_unchanged(bytes);
    assert forall|i: int| 0 <= i < text.len() implies (bytes[i] as char) == text[i] by {
        assert(bytes[i] == text[i] as u8);
        let c = text[i];
        assert('\0' <= c <= '\u{7f}');
        assert(((c as u8) as char) == c);
    }
    assert(form_text(text) =~= text);
}

} // verus!

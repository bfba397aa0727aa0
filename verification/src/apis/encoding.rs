//! Text that goes on the wire: percent-encoded path segments, form bodies
//! and decimal numbers.

use vstd::prelude::*;
use vstd::string::*;
use vstd::utf8::*;

verus! {

/// `String::push` appends the character to the end of the string.
pub assume_specification[ String::push ](text: &mut String, ch: char)
    ensures
        final(text)@ == old(text)@.push(ch),
;

/// The bytes that the `application/x-www-form-urlencoded` byte serializer
/// leaves as they are: ASCII letters, digits, `*`, `-`, `.` and `_`.
pub open spec fn is_unreserved(byte: u8) -> bool {
    ||| byte == 0x2A
    ||| byte == 0x2D
    ||| byte == 0x2E
    ||| byte == 0x5F
    ||| 0x30 <= byte <= 0x39
    ||| 0x41 <= byte <= 0x5A
    ||| 0x61 <= byte <= 0x7A
}

/// The upper-case hexadecimal digit for a value below sixteen.
pub open spec fn hex_digit(nibble: int) -> char {
    if nibble < 10 {
        (0x30 + nibble) as char
    } else {
        (0x37 + nibble) as char
    }
}

/// One byte as the serializer writes it: itself, `+` for a space, or `%`
/// and two hexadecimal digits.
pub open spec fn encoded_byte(byte: u8) -> Seq<char> {
    if is_unreserved(byte) {
        seq![byte as char]
    } else if byte == 0x20 {
        seq!['+']
    } else {
        seq!['%', hex_digit(byte as int / 16), hex_digit(byte as int % 16)]
    }
}

/// The encodings of the bytes, one after another.
pub open spec fn encoded_bytes(bytes: Seq<u8>) -> Seq<char>
    decreases bytes.len(),
{
    if bytes.len() == 0 {
        Seq::empty()
    } else {
        encoded_bytes(bytes.drop_last()) + encoded_byte(bytes.last())
    }
}

/// A text percent-encoded byte by byte over its UTF-8 form.
pub open spec fn urlencoded(text: Seq<char>) -> Seq<char> {
    encoded_bytes(encode_utf8(text))
}

/// The characters that can occur in encoded text.
pub open spec fn is_encoded_char(c: char) -> bool {
    ||| c == '%'
    ||| c == '+'
    ||| c == '*'
    ||| c == '-'
    ||| c == '.'
    ||| c == '_'
    ||| '0' <= c <= '9'
    ||| 'A' <= c <= 'Z'
    ||| 'a' <= c <= 'z'
}

fn hex_char(nibble: u8) -> (digit: char)
    requires
        nibble < 16,
    ensures
        digit == hex_digit(nibble as int),
{
    if nibble < 10 {
        (nibble + 0x30) as char
    } else {
        (nibble + 0x37) as char
    }
}

fn unreserved(byte: u8) -> (kept: bool)
    ensures
        kept == is_unreserved(byte),
{
    byte == 0x2A || byte == 0x2D || byte == 0x2E || byte == 0x5F || (0x30 <= byte && byte <= 0x39)
        || (0x41 <= byte && byte <= 0x5A) || (0x61 <= byte && byte <= 0x7A)
}

fn push_encoded_byte(text: &mut String, byte: u8)
    ensures
        final(text)@ == old(text)@ + encoded_byte(byte),
{
    if unreserved(byte) {
        text.push(byte as char);
    } else if byte == 0x20 {
        text.push('+');
    } else {
        text.push('%');
        text.push(hex_char(byte / 16));
        text.push(hex_char(byte % 16));
    }
}

/// Appends the percent-encoding of `segment` to `text`.
pub fn push_urlencoded(text: &mut String, segment: &str)
    ensures
        final(text)@ == old(text)@ + urlencoded(segment@),
{
    let ghost before = text@;
    let bytes = segment.as_bytes();
    let mut at: usize = 0;
    while at < bytes.len()
        invariant
            at <= bytes.len(),
            text@ == before + encoded_bytes(bytes@.take(at as int)),
        decreases bytes.len() - at,
    {
        assert(bytes@.take(at + 1).drop_last() == bytes@.take(at as int));
        push_encoded_byte(text, bytes[at]);
        at += 1;
    }
    assert(bytes@.take(at as int) == bytes@);
}

/// Percent-encodes one path segment or form value: every byte of its UTF-8
/// form but ASCII letters, digits, `*`, `-`, `.` and `_` is escaped.
pub fn urlencode(segment: &str) -> (encoded: String)
    ensures
        encoded@ == urlencoded(segment@),
{
    let mut encoded = String::new();
    push_urlencoded(&mut encoded, segment);
    encoded
}

/// An ASCII character that the encoding leaves as it is.
pub open spec fn is_plain_char(c: char) -> bool {
    '\0' <= c <= '\u{7f}' && is_unreserved(c as u8)
}

/// Text made of characters that the encoding leaves as they are.
pub open spec fn is_plain(text: Seq<char>) -> bool {
    forall|i: int| 0 <= i < text.len() ==> is_plain_char(#[trigger] text[i])
}

proof fn lemma_encoded_bytes_chars(bytes: Seq<u8>)
    ensures
        forall|i: int|
            0 <= i < encoded_bytes(bytes).len() ==> is_encoded_char(
                #[trigger] encoded_bytes(bytes)[i],
            ),
    decreases bytes.len(),
{
    if bytes.len() > 0 {
        lemma_encoded_bytes_chars(bytes.drop_last());
        let head = encoded_bytes(bytes.drop_last());
        assert forall|i: int| 0 <= i < encoded_bytes(bytes).len() implies is_encoded_char(
            #[trigger] encoded_bytes(bytes)[i],
        ) by {
            if i < head.len() {
                assert(encoded_bytes(bytes)[i] == head[i]);
            }
        }
    }
}

/// Encoded text holds nothing but `%`, `+` and unreserved characters: no
/// `/`, `?`, `#`, `&` or `=` of the input survives unescaped.
pub proof fn lemma_urlencoded_is_safe(text: Seq<char>)
    ensures
        forall|i: int|
            0 <= i < urlencoded(text).len() ==> is_encoded_char(#[trigger] urlencoded(text)[i]),
{
    lemma_encoded_bytes_chars(encode_utf8(text));
}

proof fn lemma_encoded_bytes_plain(bytes: Seq<u8>)
    requires
        forall|i: int| 0 <= i < bytes.len() ==> is_unreserved(#[trigger] bytes[i]),
    ensures
        encoded_bytes(bytes) == Seq::new(bytes.len(), |i: int| bytes[i] as char),
    decreases bytes.len(),
{
    if bytes.len() > 0 {
        lemma_encoded_bytes_plain(bytes.drop_last());
    }
}

/// Text of unreserved ASCII characters is its own encoding.
pub proof fn lemma_urlencoded_plain(text: Seq<char>)
    requires
        is_plain(text),
    ensures
        urlencoded(text) == text,
{
    is_ascii_chars_encode_utf8(text);
    let bytes = encode_utf8(text);
    assert forall|i: int| 0 <= i < bytes.len() implies is_unreserved(#[trigger] bytes[i]) by {
        assert(is_plain_char(text[i]));
    }
    lemma_encoded_bytes_plain(bytes);
    assert(urlencoded(text) =~= text);
}

/// The decimal digit for a value below ten.
pub open spec fn digit_char(digit: int) -> char {
    (0x30 + digit) as char
}

/// A natural number in decimal, without leading zeros.
pub open spec fn decimal_digits(value: nat) -> Seq<char>
    decreases value,
{
    if value < 10 {
        seq![digit_char(value as int)]
    } else {
        decimal_digits(value / 10).push(digit_char(value as int % 10))
    }
}

/// An integer in decimal, with `-` before a negative one.
pub open spec fn decimal(value: int) -> Seq<char> {
    if value < 0 {
        seq!['-'] + decimal_digits((-value) as nat)
    } else {
        decimal_digits(value as nat)
    }
}

proof fn lemma_decimal_digits_chars(value: nat)
    ensures
        forall|i: int|
            0 <= i < decimal_digits(value).len() ==> is_encoded_char(
                #[trigger] decimal_digits(value)[i],
            ),
    decreases value,
{
    if value >= 10 {
        lemma_decimal_digits_chars(value / 10);
        let head = decimal_digits(value / 10);
        assert forall|i: int| 0 <= i < decimal_digits(value).len() implies is_encoded_char(
            #[trigger] decimal_digits(value)[i],
        ) by {
            if i < head.len() {
                assert(decimal_digits(value)[i] == head[i]);
            }
        }
    }
}

/// A number in decimal holds digits and `-` only, so it needs no
/// escaping where it stands in a path or a form.
pub proof fn lemma_decimal_is_safe(value: int)
    ensures
        forall|i: int|
            0 <= i < decimal(value).len() ==> is_encoded_char(#[trigger] decimal(value)[i]),
{
    if value < 0 {
        lemma_decimal_digits_chars((-value) as nat);
    } else {
        lemma_decimal_digits_chars(value as nat);
    }
}

fn push_digits(text: &mut String, value: u32)
    ensures
        final(text)@ == old(text)@ + decimal_digits(value as nat),
    decreases value,
{
    if value >= 10 {
        push_digits(text, value / 10);
    }
    let digit: u8 = (value % 10) as u8;
    text.push((digit + 0x30) as char);
}

/// Appends `value` in decimal to `text`.
pub fn push_decimal(text: &mut String, value: i32)
    ensures
        final(text)@ == old(text)@ + decimal(value as int),
{
    if value < 0 {
        text.push('-');
        let magnitude: i64 = -(value as i64);
        push_digits(text, magnitude as u32);
    } else {
        push_digits(text, value as u32);
    }
}

/// `value` in decimal, as `i32::to_string` writes it.
pub fn decimal_string(value: i32) -> (text: String)
    ensures
        text@ == decimal(value as int),
{
    let mut text = String::new();
    push_decimal(&mut text, value);
    text
}

/// One form field on the wire: the encoded name, `=`, the encoded value.
pub open spec fn form_pair(name: Seq<char>, value: Seq<char>) -> Seq<char> {
    urlencoded(name) + seq!['='] + urlencoded(value)
}

/// The `application/x-www-form-urlencoded` body for the fields, in their
/// order, with `&` between one field and the next.
pub open spec fn form_urlencoded(fields: Seq<(Seq<char>, Seq<char>)>) -> Seq<char>
    decreases fields.len(),
{
    if fields.len() == 0 {
        Seq::empty()
    } else if fields.len() == 1 {
        form_pair(fields[0].0, fields[0].1)
    } else {
        form_urlencoded(fields.drop_last()) + seq!['&'] + form_pair(
            fields.last().0,
            fields.last().1,
        )
    }
}

/// Serializes form fields into a request body.
pub fn encode_form(fields: &Vec<(String, String)>) -> (body: String)
    ensures
        body@ == form_urlencoded(fields.deep_view()),
{
    let mut body = String::new();
    let mut at: usize = 0;
    while at < fields.len()
        invariant
            at <= fields.len(),
            body@ == form_urlencoded(fields.deep_view().take(at as int)),
        decreases fields.len() - at,
    {
        let ghost seen = fields.deep_view().take(at as int);
        let ghost next = fields.deep_view().take(at + 1);
        assert(next.drop_last() == seen);
        if at > 0 {
            body.push('&');
        }
        push_urlencoded(&mut body, fields[at].0.as_str());
        body.push('=');
        push_urlencoded(&mut body, fields[at].1.as_str());
        at += 1;
    }
    assert(fields.deep_view().take(at as int) == fields.deep_view());
    body
}

} // verus!

//! Text that goes into an address: percent-encoding and decimal numbers.

use vstd::prelude::*;
use vstd::utf8::encode_utf8;

verus! {

/// `String::push` appends one character to the end of the string.
pub assume_specification[ String::push ](text: &mut String, ch: char)
    ensures
        final(text)@ == old(text)@.push(ch),
;

/// The bytes that may stand in an address as they are: ASCII letters and
/// digits, `-`, `.`, `_` and `~`.
pub open spec fn unreserved(byte: u8) -> bool {
    ||| 0x30 <= byte <= 0x39
    ||| 0x41 <= byte <= 0x5a
    ||| 0x61 <= byte <= 0x7a
    ||| byte == 0x2d
    ||| byte == 0x2e
    ||| byte == 0x5f
    ||| byte == 0x7e
}

/// The upper-case hexadecimal digit of a value below sixteen.
pub open spec fn hex_digit(value: u8) -> char
    recommends
        value < 16,
{
    if value < 10 {
        (0x30 + value) as char
    } else {
        (0x37 + value) as char
    }
}

/// One byte as it stands in an address: itself where it is unreserved,
/// else `%` and its two hexadecimal digits.
pub open spec fn escape(byte: u8) -> Seq<char> {
    if unreserved(byte) {
        seq![byte as char]
    } else {
        seq!['%', hex_digit(byte / 16), hex_digit(byte % 16)]
    }
}

/// The escapes of a run of bytes, one after the other.
pub open spec fn escaped(bytes: Seq<u8>) -> Seq<char>
    decreases bytes.len(),
{
    if bytes.len() == 0 {
        Seq::empty()
    } else {
        escaped(bytes.drop_last()) + escape(bytes.last())
    }
}

/// A text as it stands in the query of an address: the escapes of its
/// UTF-8 bytes.
pub open spec fn percent_encoded(text: Seq<char>) -> Seq<char> {
    escaped(encode_utf8(text))
}

/// Whether a character is an ASCII letter or digit, `-`, `.`, `_` or `~`.
pub open spec fn unreserved_char(c: char) -> bool {
    ||| '0' <= c <= '9'
    ||| 'A' <= c <= 'Z'
    ||| 'a' <= c <= 'z'
    ||| c == '-'
    ||| c == '.'
    ||| c == '_'
    ||| c == '~'
}

/// Whether a character is one that percent-encoding produces.
pub open spec fn address_safe(c: char) -> bool {
    c == '%' || unreserved_char(c)
}

fn hex(value: u8) -> (c: char)
    requires
        value < 16,
    ensures
        c == hex_digit(value),
{
    if value < 10 {
        (0x30 + value) as char
    } else {
        (0x37 + value) as char
    }
}

fn is_unreserved(byte: u8) -> (r: bool)
    ensures
        r == unreserved(byte),
{
    (0x30 <= byte && byte <= 0x39) || (0x41 <= byte && byte <= 0x5a) || (0x61 <= byte && byte
        <= 0x7a) || byte == 0x2d || byte == 0x2e || byte == 0x5f || byte == 0x7e
}

/// Percent-encodes a text for the query of an address.
pub fn percent_encode(text: &str) -> (r: String)
    ensures
        r@ == percent_encoded(text@),
        forall|i: int| 0 <= i < r@.len() ==> address_safe(#[trigger] r@[i]),
{
    let bytes = text.as_bytes();
    let mut out = String::new();
    let mut i: usize = 0;
    while i < bytes.len()
        invariant
            i <= bytes.len(),
            bytes@ == encode_utf8(text@),
            out@ == escaped(bytes@.take(i as int)),
            forall|k: int| 0 <= k < out@.len() ==> address_safe(#[trigger] out@[k]),
        decreases bytes.len() - i,
    {
        let byte = bytes[i];
        proof {
            assert(bytes@.take(i + 1).drop_last() == bytes@.take(i as int));
            assert(bytes@.take(i + 1).last() == byte);
        }
        if is_unreserved(byte) {
            out.push(byte as char);
        } else {
            out.push('%');
            out.push(hex(byte / 16));
            out.push(hex(byte % 16));
        }
        i = i + 1;
    }
    proof {
        assert(bytes@.take(i as int) == bytes@);
    }
    out
}

/// The decimal digit of a value below ten.
pub open spec fn digit(value: nat) -> char
    recommends
        value < 10,
{
    (0x30 + value) as char
}

/// The decimal digits of a natural number, without leading zeros.
pub open spec fn digits(n: nat) -> Seq<char>
    decreases n,
{
    if n < 10 {
        seq![digit(n)]
    } else {
        digits(n / 10).push(digit(n % 10))
    }
}

/// A whole number in decimal, with `-` in front where it is negative.
pub open spec fn decimal(n: int) -> Seq<char> {
    if n < 0 {
        seq!['-'] + digits((-n) as nat)
    } else {
        digits(n as nat)
    }
}

fn push_digits(out: &mut String, n: u32)
    ensures
        final(out)@ == old(out)@ + digits(n as nat),
    decreases n,
{
    if n >= 10 {
        push_digits(out, n / 10);
    }
    let low: u8 = (n % 10) as u8;
    out.push((0x30 + low) as char);
}

/// Appends a number in decimal to a text.
pub fn push_decimal(out: &mut String, n: i32)
    ensures
        final(out)@ == old(out)@ + decimal(n as int),
{
    if n < 0 {
        out.push('-');
        let magnitude: u32 = if n == i32::MIN {
            0x8000_0000
        } else {
            (-n) as u32
        };
        push_digits(out, magnitude);
    } else {
        push_digits(out, n as u32);
    }
}

/// Whether a text is made of unreserved characters alone.
pub open spec fn plain(text: Seq<char>) -> bool {
    forall|i: int| 0 <= i < text.len() ==> unreserved_char(#[trigger] text[i])
}

proof fn lemma_escaped_plain(bytes: Seq<u8>)
    requires
        forall|i: int| 0 <= i < bytes.len() ==> unreserved(#[trigger] bytes[i]),
    ensures
        escaped(bytes) == Seq::new(bytes.len(), |i: int| bytes[i] as char),
    decreases bytes.len(),
{
    if bytes.len() > 0 {
        lemma_escaped_plain(bytes.drop_last());
    }
    assert(escaped(bytes) =~= Seq::new(bytes.len(), |i: int| bytes[i] as char));
}

/// Percent-encoding leaves a text of unreserved characters as it is.
pub proof fn lemma_plain_unchanged(text: Seq<char>)
    requires
        plain(text),
    ensures
        percent_encoded(text) == text,
{
    assert(vstd::utf8::is_ascii_chars(text)) by {
        assert forall|i: int| 0 <= i < text.len() implies '\0' <= #[trigger] text[i]
            <= '\u{7f}' by {
            assert(unreserved_char(text[i]));
        }
    }
    vstd::utf8::is_ascii_chars_encode_utf8(text);
    let bytes = encode_utf8(text);
    assert forall|i: int| 0 <= i < bytes.len() implies unreserved(#[trigger] bytes[i]) && (
    bytes[i] as char) == text[i] by {
        assert(unreserved_char(text[i]));
        assert(bytes[i] == text[i] as u8);
    }
    lemma_escaped_plain(bytes);
    assert(percent_encoded(text) =~= text);
}

/// Percent-encoding produces unreserved characters and escapes alone,
/// whatever the text.
pub proof fn lemma_encoded_safe(text: Seq<char>)
    ensures
        forall|i: int|
            0 <= i < percent_encoded(text).len() ==> address_safe(
                #[trigger] percent_encoded(text)[i],
            ),
{
    lemma_escaped_safe(encode_utf8(text));
}

proof fn lemma_escaped_safe(bytes: Seq<u8>)
    ensures
        forall|i: int| 0 <= i < escaped(bytes).len() ==> address_safe(#[trigger] escaped(bytes)[i]),
    decreases bytes.len(),
{
    if bytes.len() > 0 {
        let front = escaped(bytes.drop_last());
        let back = escape(bytes.last());
        lemma_escaped_safe(bytes.drop_last());
        assert forall|k: int| 0 <= k < back.len() implies address_safe(#[trigger] back[k]) by {
            let byte = bytes.last();
            assert(address_safe(hex_digit(byte / 16)));
            assert(address_safe(hex_digit(byte % 16)));
        }
        assert forall|i: int| 0 <= i < escaped(bytes).len() implies address_safe(
            #[trigger] escaped(bytes)[i],
        ) by {
            if i < front.len() {
                assert(escaped(bytes)[i] == front[i]);
            } else {
                assert(escaped(bytes)[i] == back[i - front.len()]);
            }
        }
    }
}

} // verus!

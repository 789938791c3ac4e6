//! Percent-encoding and percent-decoding of URL components.
//!
//! Encoding works on the UTF-8 bytes of the input: every byte outside the
//! unreserved set is written as `%XX` with upper-case hexadecimal digits.
//! Decoding maps `+` to a space and `%XX` (for values below 0x80) back to the
//! character; anything else passes through unchanged.

use vstd::prelude::*;
use vstd::string::*;

verus! {

/// The character for a single hexadecimal digit, upper case.
pub open spec fn spec_hex_digit(n: u8) -> char
    recommends
        n < 16,
{
    if n < 10 {
        (n + 0x30) as char
    } else {
        ((n - 10) + 0x41) as char
    }
}

/// Upper-case hexadecimal digit for a value below sixteen.
pub fn hex_digit(n: u8) -> (c: char)
    requires
        n < 16,
    ensures
        c == spec_hex_digit(n),
{
    if n < 10 {
        (n + 0x30) as char
    } else {
        ((n - 10) + 0x41) as char
    }
}

/// Bytes that stand for themselves in a URL: ASCII letters, digits,
/// `-`, `.`, `_` and `~`.
pub open spec fn is_url_unreserved(b: u8) -> bool {
    ||| 0x41 <= b <= 0x5A
    ||| 0x61 <= b <= 0x7A
    ||| 0x30 <= b <= 0x39
    ||| b == 0x2D
    ||| b == 0x2E
    ||| b == 0x5F
    ||| b == 0x7E
}

/// How one byte appears in a percent-encoded string.
pub open spec fn pct_of_byte(b: u8) -> Seq<char> {
    if is_url_unreserved(b) {
        seq![b as char]
    } else {
        seq!['%', spec_hex_digit(b / 16), spec_hex_digit(b % 16)]
    }
}

/// Percent-encoding of a byte sequence.
pub open spec fn pct_encoded_bytes(bs: Seq<u8>) -> Seq<char>
    decreases bs.len(),
{
    if bs.len() == 0 {
        Seq::empty()
    } else {
        pct_of_byte(bs[0]) + pct_encoded_bytes(bs.drop_first())
    }
}

/// Percent-encoding of a string: its UTF-8 bytes, each encoded.
pub open spec fn pct_encoded(s: Seq<char>) -> Seq<char> {
    pct_encoded_bytes(vstd::utf8::encode_utf8(s))
}

/// Encoding a sequence extended by one byte appends that byte's encoding.
proof fn lemma_pct_encoded_bytes_push(bs: Seq<u8>, b: u8)
    ensures
        pct_encoded_bytes(bs.push(b)) == pct_encoded_bytes(bs) + pct_of_byte(b),
    decreases bs.len(),
{
    if bs.len() == 0 {
        assert(bs.push(b)[0] == b);
        assert(bs.push(b).drop_first() =~= Seq::<u8>::empty());
        assert(pct_encoded_bytes(Seq::<u8>::empty()) == Seq::<char>::empty());
        assert(pct_encoded_bytes(bs.push(b)) =~= pct_of_byte(b) + Seq::<char>::empty());
        assert(pct_encoded_bytes(bs.push(b)) =~= pct_encoded_bytes(bs) + pct_of_byte(b));
    } else {
        assert(bs.push(b).drop_first() =~= bs.drop_first().push(b));
        lemma_pct_encoded_bytes_push(bs.drop_first(), b);
        assert(pct_encoded_bytes(bs.push(b)) =~= pct_encoded_bytes(bs) + pct_of_byte(b));
    }
}

/// Appends one character to a string.
/// Relies on `String::push`: the string grows by exactly that character.
#[verifier::external_body]
pub(crate) fn push_char(s: &mut String, c: char)
    ensures
        final(s)@ == old(s)@.push(c),
{
    s.push(c);
}

/// Percent-encodes a string, byte by byte over its UTF-8 form.
pub fn percent_encode(s: &str) -> (r: String)
    ensures
        r@ == pct_encoded(s@),
{
    let bytes: &[u8] = s.as_bytes();
    let mut out = String::new();
    let mut i: usize = 0;
    while i < bytes.len()
        invariant
            bytes@ == vstd::utf8::encode_utf8(s@),
            i <= bytes@.len(),
            out@ == pct_encoded_bytes(bytes@.take(i as int)),
        decreases bytes@.len() - i,
    {
        let b = bytes[i];
        if (0x41 <= b && b <= 0x5A) || (0x61 <= b && b <= 0x7A) || (0x30 <= b && b <= 0x39)
            || b == 0x2D || b == 0x2E || b == 0x5F || b == 0x7E {
            push_char(&mut out, b as char);
            assert(out@ =~= pct_encoded_bytes(bytes@.take(i as int)) + pct_of_byte(b));
        } else {
            push_char(&mut out, '%');
            let hi = hex_digit(b / 16);
            push_char(&mut out, hi);
            let lo = hex_digit(b % 16);
            push_char(&mut out, lo);
            assert(out@ =~= pct_encoded_bytes(bytes@.take(i as int)) + pct_of_byte(b));
        }
        proof {
            lemma_pct_encoded_bytes_push(bytes@.take(i as int), b);
            assert(bytes@.take(i + 1) =~= bytes@.take(i as int).push(bytes@[i as int]));
        }
        i = i + 1;
    }
    proof {
        assert(bytes@.take(bytes@.len() as int) =~= bytes@);
    }
    out
}

/// Characters that percent-encoding leaves in place.
pub open spec fn is_unreserved_char(c: char) -> bool {
    (c as u32) < 0x80 && is_url_unreserved((c as u32) as u8)
}

/// Unreserved bytes encode to themselves.
proof fn lemma_pct_encoded_bytes_identity(bs: Seq<u8>)
    requires
        forall|i: int| 0 <= i < bs.len() ==> is_url_unreserved(#[trigger] bs[i]),
    ensures
        pct_encoded_bytes(bs) == Seq::new(bs.len(), |i: int| bs[i] as char),
    decreases bs.len(),
{
    if bs.len() == 0 {
        assert(pct_encoded_bytes(bs) =~= Seq::new(bs.len(), |i: int| bs[i] as char));
    } else {
        lemma_pct_encoded_bytes_identity(bs.drop_first());
        assert(pct_encoded_bytes(bs) =~= seq![bs[0] as char] + pct_encoded_bytes(bs.drop_first()));
        assert(Seq::new(bs.len(), |i: int| bs[i] as char) =~= seq![bs[0] as char] + Seq::new(
            bs.drop_first().len(),
            |i: int| bs.drop_first()[i] as char,
        ));
    }
}

/// What the casts say of one unreserved character: it is ASCII, its byte
/// is unreserved, and the byte casts back to the character itself.
proof fn lemma_unreserved_char_byte(c: char)
    requires
        is_unreserved_char(c),
    ensures
        '\0' <= c <= '\u{7f}',
        c as u8 == (c as u32) as u8,
        is_url_unreserved(c as u8),
        (c as u8) as char == c,
{
}

/// A string of unreserved characters percent-encodes to itself.
pub proof fn lemma_encode_unreserved_identity(s: Seq<char>)
    ensures
        (forall|i: int| 0 <= i < s.len() ==> is_unreserved_char(#[trigger] s[i])) ==> pct_encoded(
            s,
        ) == s,
{
    if forall|i: int| 0 <= i < s.len() ==> is_unreserved_char(#[trigger] s[i]) {
        assert(vstd::utf8::is_ascii_chars(s)) by {
            assert forall|i: int| 0 <= i < s.len() implies '\0' <= #[trigger] s[i] <= '\u{7f}' by {
                lemma_unreserved_char_byte(s[i]);
            }
        }
        vstd::utf8::is_ascii_chars_encode_utf8(s);
        let bs = vstd::utf8::encode_utf8(s);
        assert forall|i: int| 0 <= i < bs.len() implies is_url_unreserved(#[trigger] bs[i]) by {
            lemma_unreserved_char_byte(s[i]);
        }
        lemma_pct_encoded_bytes_identity(bs);
        assert forall|i: int| 0 <= i < s.len() implies pct_encoded(s)[i] == s[i] by {
            lemma_unreserved_char_byte(s[i]);
        }
        assert(pct_encoded(s) =~= s);
    }
}

/// A string without `+` or `%` percent-decodes to itself.
pub proof fn lemma_decode_plain_identity(s: Seq<char>)
    ensures
        (forall|i: int| 0 <= i < s.len() ==> s[i] != '+' && s[i] != '%') ==> pct_decoded(s) == s,
    decreases s.len(),
{
    if forall|i: int| 0 <= i < s.len() ==> s[i] != '+' && s[i] != '%' {
        if s.len() == 0 {
            assert(pct_decoded(s) =~= s);
        } else {
            assert(forall|i: int|
                0 <= i < s.drop_first().len() ==> s.drop_first()[i] != '+' && s.drop_first()[i]
                    != '%');
            lemma_decode_plain_identity(s.drop_first());
            assert(pct_decoded(s) =~= seq![s[0]] + s.drop_first());
            assert(seq![s[0]] + s.drop_first() =~= s);
        }
    }
}

/// Whether a character is a hexadecimal digit.
pub open spec fn is_hex_char(c: char) -> bool {
    ||| 0x30 <= c as u32 <= 0x39
    ||| 0x41 <= c as u32 <= 0x46
    ||| 0x61 <= c as u32 <= 0x66
}

/// The value of a hexadecimal digit character.
pub open spec fn hex_char_val(c: char) -> int
    recommends
        is_hex_char(c),
{
    if 0x30 <= c as u32 <= 0x39 {
        c as u32 - 0x30
    } else if 0x41 <= c as u32 <= 0x46 {
        c as u32 - 0x41 + 10
    } else {
        c as u32 - 0x61 + 10
    }
}

/// Percent-decoding: `+` becomes a space; `%XX` with two hexadecimal digits
/// and a value below 0x80 becomes that character; everything else stands.
pub open spec fn pct_decoded(s: Seq<char>) -> Seq<char>
    decreases s.len(),
{
    if s.len() == 0 {
        Seq::empty()
    } else if s[0] == '+' {
        seq![' '] + pct_decoded(s.drop_first())
    } else if s[0] == '%' && s.len() >= 3 && is_hex_char(s[1]) && is_hex_char(s[2])
        && 16 * hex_char_val(s[1]) + hex_char_val(s[2]) < 0x80 {
        seq![((16 * hex_char_val(s[1]) + hex_char_val(s[2])) as u8) as char] + pct_decoded(
            s.skip(3),
        )
    } else {
        seq![s[0]] + pct_decoded(s.drop_first())
    }
}

/// The value of a hexadecimal digit character, executable form.
fn hex_char_value(c: char) -> (v: Option<u8>)
    ensures
        match v {
            Some(n) => is_hex_char(c) && n == hex_char_val(c) && n < 16,
            None => !is_hex_char(c),
        },
{
    let u = c as u32;
    if 0x30 <= u && u <= 0x39 {
        Some((u - 0x30) as u8)
    } else if 0x41 <= u && u <= 0x46 {
        Some((u - 0x41 + 10) as u8)
    } else if 0x61 <= u && u <= 0x66 {
        Some((u - 0x61 + 10) as u8)
    } else {
        None
    }
}

/// Percent-decodes a string.
pub fn percent_decode(s: &str) -> (r: String)
    ensures
        r@ == pct_decoded(s@),
{
    let n = s.unicode_len();
    let mut out = String::new();
    let mut i: usize = 0;
    proof {
        assert(s@.skip(0) =~= s@);
        assert(Seq::<char>::empty() + pct_decoded(s@) =~= pct_decoded(s@));
    }
    while i < n
        invariant
            n == s@.len(),
            i <= n,
            pct_decoded(s@) == out@ + pct_decoded(s@.skip(i as int)),
        decreases n - i,
    {
        let c = s.get_char(i);
        assert(s@.skip(i as int)[0] == c);
        if c == '+' {
            push_char(&mut out, ' ');
            proof {
                assert(s@.skip(i as int).drop_first() =~= s@.skip(i + 1));
                assert(out@ + pct_decoded(s@.skip(i + 1)) =~= pct_decoded(s@));
            }
            i = i + 1;
        } else if c == '%' && n - i > 2 {
            let h1 = s.get_char(i + 1);
            let h2 = s.get_char(i + 2);
            assert(s@.skip(i as int)[1] == h1 && s@.skip(i as int)[2] == h2);
            let v1 = hex_char_value(h1);
            let v2 = hex_char_value(h2);
            let mut decoded = false;
            match (v1, v2) {
                (Some(a), Some(b)) => {
                    if 16 * (a as u32) + (b as u32) < 0x80 {
                        let byte: u8 = 16 * a + b;
                        push_char(&mut out, byte as char);
                        proof {
                            assert(s@.skip(i as int).skip(3) =~= s@.skip(i + 3));
                            assert(out@ + pct_decoded(s@.skip(i + 3)) =~= pct_decoded(s@));
                        }
                        i = i + 3;
                        decoded = true;
                    }
                },
                _ => {},
            }
            if !decoded {
                push_char(&mut out, c);
                proof {
                    assert(s@.skip(i as int).drop_first() =~= s@.skip(i + 1));
                    assert(out@ + pct_decoded(s@.skip(i + 1)) =~= pct_decoded(s@));
                }
                i = i + 1;
            }
        } else {
            push_char(&mut out, c);
            proof {
                assert(s@.skip(i as int).drop_first() =~= s@.skip(i + 1));
                assert(out@ + pct_decoded(s@.skip(i + 1)) =~= pct_decoded(s@));
            }
            i = i + 1;
        }
    }
    proof {
        assert(s@.skip(n as int) =~= Seq::<char>::empty());
        assert(out@ =~= pct_decoded(s@));
    }
    out
}

} // verus!

//! Percent-encoding of untrusted path segments. A slug substituted into a
//! REST-API path is encoded so that reserved characters (space, `/`, ...)
//! travel unambiguously; the decoding specification below shows that an
//! encoded ASCII segment round-trips to the intended literal value.

use vstd::prelude::*;
use vstd::string::is_ascii;

use crate::textfmt::spec_hex_char;

verus! {

/// The code a character stands for on the wire.
pub open spec fn char_code(c: char) -> int {
    (c as u32) as int
}

/// Characters left as themselves by the encoder: ASCII alphanumerics and
/// `-`, `_`, `.`, `~`.
pub open spec fn is_unreserved(c: char) -> bool {
    ('0' <= c && c <= '9') || ('A' <= c && c <= 'Z') || ('a' <= c && c <= 'z') || c == '-' || c
        == '_' || c == '.' || c == '~'
}

/// How one ASCII character is transmitted: itself if unreserved, else a
/// `%`-escape of its code, upper-case hex.
pub open spec fn spec_encode_char(c: char) -> Seq<char> {
    if is_unreserved(c) {
        seq![c]
    } else {
        seq!['%', spec_hex_char(char_code(c) / 16), spec_hex_char(char_code(c) % 16)]
    }
}

/// The percent-encoding of an ASCII character sequence.
pub open spec fn spec_percent_encode(s: Seq<char>) -> Seq<char>
    decreases s.len(),
{
    if s.len() == 0 {
        Seq::empty()
    } else {
        spec_encode_char(s[0]) + spec_percent_encode(s.skip(1))
    }
}

/// Relies on urlencoding::encode: percent-encodes every byte of the UTF-8
/// form except ASCII alphanumerics and `-`, `_`, `.`, `~`, with upper-case
/// hex digits. On ASCII input the bytes are the characters, so the result
/// is the character-wise encoding.
#[verifier::external_body]
pub fn percent_encode(s: &str) -> (r: String)
    ensures
        is_ascii(s) ==> r@ == spec_percent_encode(s@),
{
    urlencoding::encode(s).into_owned()
}

pub open spec fn is_hex_digit(c: char) -> bool {
    ('0' <= c && c <= '9') || ('A' <= c && c <= 'F')
}

pub open spec fn spec_hex_val(c: char) -> int {
    if '0' <= c && c <= '9' {
        char_code(c) - char_code('0')
    } else {
        char_code(c) - char_code('A') + 10
    }
}

/// What the receiving side reads back from a percent-encoded segment: the
/// sequence of character codes, one per literal character or `%`-escape.
/// `None` where a `%` is not followed by two hex digits.
pub open spec fn spec_percent_decode(s: Seq<char>) -> Option<Seq<int>>
    decreases s.len(),
{
    if s.len() == 0 {
        Some(Seq::empty())
    } else if s[0] == '%' {
        if s.len() >= 3 && is_hex_digit(s[1]) && is_hex_digit(s[2]) {
            match spec_percent_decode(s.skip(3)) {
                Some(rest) => Some(seq![spec_hex_val(s[1]) * 16 + spec_hex_val(s[2])] + rest),
                None => None,
            }
        } else {
            None
        }
    } else {
        match spec_percent_decode(s.skip(1)) {
            Some(rest) => Some(seq![char_code(s[0])] + rest),
            None => None,
        }
    }
}

/// The character codes of a sequence, the value the decoder recovers.
pub open spec fn spec_char_codes(s: Seq<char>) -> Seq<int> {
    s.map_values(|c: char| char_code(c))
}

proof fn lemma_hex_char_is_digit(d: int)
    requires
        0 <= d < 16,
    ensures
        is_hex_digit(spec_hex_char(d)),
        spec_hex_val(spec_hex_char(d)) == d,
{
}

/// Percent-encoding is lossless: decoding the encoding of any ASCII
/// sequence succeeds and recovers exactly the original characters.
pub proof fn lemma_percent_round_trip(s: Seq<char>)
    requires
        forall|i: int| 0 <= i < s.len() ==> char_code(#[trigger] s[i]) < 128,
    ensures
        spec_percent_decode(spec_percent_encode(s)) == Some(spec_char_codes(s)),
    decreases s.len(),
{
    if s.len() == 0 {
        assert(spec_percent_encode(s).len() == 0);
        assert(spec_char_codes(s) =~= Seq::<int>::empty());
    } else {
        let c = s[0];
        let rest = s.skip(1);
        assert(forall|i: int| 0 <= i < rest.len() ==> char_code(#[trigger] rest[i]) < 128);
        lemma_percent_round_trip(rest);
        let enc = spec_percent_encode(s);
        let enc_rest = spec_percent_encode(rest);
        assert(enc == spec_encode_char(c) + enc_rest);
        if is_unreserved(c) {
            assert(enc[0] == c);
            assert(c != '%');
            assert(enc.skip(1) =~= enc_rest);
            assert(spec_percent_decode(enc) == Some(seq![char_code(c)] + spec_char_codes(rest)));
            assert(seq![char_code(c)] + spec_char_codes(rest) =~= spec_char_codes(s));
        } else {
            let code = char_code(c);
            assert(char_code(s[0]) < 128);
            assert(0 <= code < 128);
            lemma_hex_char_is_digit(code / 16);
            lemma_hex_char_is_digit(code % 16);
            assert(enc[0] == '%');
            assert(enc.len() >= 3);
            assert(enc[1] == spec_hex_char(code / 16));
            assert(enc[2] == spec_hex_char(code % 16));
            assert(enc.skip(3) =~= enc_rest);
            assert(spec_hex_val(enc[1]) * 16 + spec_hex_val(enc[2]) == code);
            assert(spec_percent_decode(enc) == Some(seq![code] + spec_char_codes(rest)));
            assert(seq![code] + spec_char_codes(rest) =~= spec_char_codes(s));
        }
    }
}

} // verus!

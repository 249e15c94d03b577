use vstd::prelude::*;
use vstd::utf8::{decode_utf8, encode_utf8, encode_utf8_decode_utf8};

verus! {

/// The bytes that percent-encoding leaves as they are: ASCII letters and
/// digits, and `-`, `.`, `_`, `~`.
pub open spec fn is_unreserved(b: u8) -> bool {
    ||| 48 <= b <= 57
    ||| 65 <= b <= 90
    ||| 97 <= b <= 122
    ||| b == 45
    ||| b == 46
    ||| b == 95
    ||| b == 126
}

/// The upper-case hexadecimal digit of `d` (0 to 15).
pub open spec fn hex_digit(d: int) -> char {
    if d < 10 {
        ((48 + d) as u32) as char
    } else {
        ((55 + d) as u32) as char
    }
}

/// The encoding of one byte: the byte itself where it is unreserved, else
/// `%` and its two upper-case hexadecimal digits.
pub open spec fn encode_byte(b: u8) -> Seq<char> {
    if is_unreserved(b) {
        seq![(b as u32) as char]
    } else {
        seq!['%', hex_digit((b / 16) as int), hex_digit((b % 16) as int)]
    }
}

/// The percent-encoding of a byte sequence, byte by byte.
pub open spec fn percent_encode(bytes: Seq<u8>) -> Seq<char>
    decreases bytes.len(),
{
    if bytes.len() == 0 {
        Seq::empty()
    } else {
        encode_byte(bytes[0]) + percent_encode(bytes.drop_first())
    }
}

/// The percent-encoding of the UTF-8 bytes of `s`.
pub open spec fn url_encoded(s: Seq<char>) -> Seq<char> {
    percent_encode(encode_utf8(s))
}

/// Calls `urlencoding::encode`, which percent-encodes every byte of the
/// UTF-8 text of `s` except ASCII letters, digits, `-`, `.`, `_` and `~`,
/// with upper-case hexadecimal digits. The contract restates that.
#[verifier::external_body]
pub(crate) fn url_encode(s: &str) -> (r: String)
    ensures
        r@ == url_encoded(s@),
{
    urlencoding::encode(s).into_owned()
}

/// The characters that a percent-encoded text is made of.
pub open spec fn is_encoded_char(c: char) -> bool {
    ||| '0' <= c <= '9'
    ||| 'A' <= c <= 'Z'
    ||| 'a' <= c <= 'z'
    ||| c == '-'
    ||| c == '.'
    ||| c == '_'
    ||| c == '~'
    ||| c == '%'
}

proof fn lemma_percent_encode_chars(bytes: Seq<u8>)
    ensures
        forall|i: int|
            0 <= i < percent_encode(bytes).len() ==> is_encoded_char(
                #[trigger] percent_encode(bytes)[i],
            ),
    decreases bytes.len(),
{
    if bytes.len() > 0 {
        lemma_percent_encode_chars(bytes.drop_first());
        let head = encode_byte(bytes[0]);
        let rest = percent_encode(bytes.drop_first());
        let b = bytes[0];
        assert(b / 16 < 16 && b % 16 < 16);
        assert forall|i: int| 0 <= i < head.len() implies is_encoded_char(#[trigger] head[i]) by {
            if !is_unreserved(b) {
                assert(head[0] == '%');
            }
        }
        assert forall|i: int| 0 <= i < (head + rest).len() implies is_encoded_char(
            #[trigger] (head + rest)[i],
        ) by {
            if i >= head.len() {
                assert((head + rest)[i] == rest[i - head.len()]);
            }
        }
    }
}

/// Percent-encoding a query leaves no character that could end the query
/// parameter or start another: every character of the encoding is an ASCII
/// letter or digit, `-`, `.`, `_`, `~` or `%` (so no `&`, `=`, `#`, `+`,
/// `?` or space).
pub proof fn law_url_encoded_stays_one_parameter(s: Seq<char>)
    ensures
        forall|i: int|
            0 <= i < url_encoded(s).len() ==> is_encoded_char(#[trigger] url_encoded(s)[i]),
        forall|i: int|
            0 <= i < url_encoded(s).len() ==> #[trigger] url_encoded(s)[i] != '&'
                && url_encoded(s)[i] != '=' && url_encoded(s)[i] != '#' && url_encoded(s)[i]
                != '?' && url_encoded(s)[i] != '+' && url_encoded(s)[i] != ' ',
{
    lemma_percent_encode_chars(encode_utf8(s));
}


/// The value of a hexadecimal digit (either case); 0 for any other character.
pub open spec fn hex_value(c: char) -> int {
    if '0' <= c <= '9' {
        c as int - 48
    } else if 'A' <= c <= 'F' {
        c as int - 55
    } else if 'a' <= c <= 'f' {
        c as int - 87
    } else {
        0
    }
}

/// Percent-decoding: each `%` followed by two more characters stands for the
/// byte that those two hexadecimal digits give; every other character stands
/// for the byte of its code.
pub open spec fn percent_decode(cs: Seq<char>) -> Seq<u8>
    decreases cs.len(),
{
    if cs.len() == 0 {
        Seq::empty()
    } else if cs[0] == '%' && cs.len() >= 3 {
        seq![(hex_value(cs[1]) * 16 + hex_value(cs[2])) as u8] + percent_decode(
            cs.subrange(3, cs.len() as int),
        )
    } else {
        seq![(cs[0] as u32) as u8] + percent_decode(cs.subrange(1, cs.len() as int))
    }
}

proof fn lemma_hex_roundtrip(d: int)
    requires
        0 <= d < 16,
    ensures
        hex_value(hex_digit(d)) == d,
{
}

proof fn lemma_decode_byte(b: u8, rest: Seq<char>)
    ensures
        percent_decode(encode_byte(b) + rest) == seq![b] + percent_decode(rest),
{
    let x = encode_byte(b) + rest;
    if is_unreserved(b) {
        assert(x[0] == (b as u32) as char);
        assert(x.subrange(1, x.len() as int) =~= rest);
        assert(((b as u32) as char) as u32 == b as u32);
    } else {
        lemma_hex_roundtrip((b / 16) as int);
        lemma_hex_roundtrip((b % 16) as int);
        assert(x[0] == '%');
        assert(x[1] == hex_digit((b / 16) as int));
        assert(x[2] == hex_digit((b % 16) as int));
        assert(x.subrange(3, x.len() as int) =~= rest);
        assert((b / 16) * 16 + b % 16 == b);
    }
}

proof fn lemma_decode_encode(bytes: Seq<u8>)
    ensures
        percent_decode(percent_encode(bytes)) == bytes,
    decreases bytes.len(),
{
    if bytes.len() > 0 {
        lemma_decode_encode(bytes.drop_first());
        lemma_decode_byte(bytes[0], percent_encode(bytes.drop_first()));
        assert(seq![bytes[0]] + bytes.drop_first() =~= bytes);
    }
}

/// Percent-decoding the encoding of a text gives back its UTF-8 bytes, and
/// these decode to the text: a search sends the query it was given.
pub proof fn law_url_encoding_round_trips(s: Seq<char>)
    ensures
        percent_decode(url_encoded(s)) == encode_utf8(s),
        decode_utf8(percent_decode(url_encoded(s))) == s,
{
    lemma_decode_encode(encode_utf8(s));
    encode_utf8_decode_utf8(s);
}

} // verus!

//! Hexadecimal encoding and decoding of key material.
//!
//! Keys travel as text in two encodings; hexadecimal is simple enough to
//! implement and verify directly. Encoding always produces lowercase digits;
//! decoding accepts both cases, and fails on odd-length input or any
//! non-digit character.

use vstd::prelude::*;

verus! {

/// The lowercase hexadecimal digit for a value below sixteen.
pub open spec fn hex_char(d: u8) -> char {
    if d == 0 {
        '0'
    } else if d == 1 {
        '1'
    } else if d == 2 {
        '2'
    } else if d == 3 {
        '3'
    } else if d == 4 {
        '4'
    } else if d == 5 {
        '5'
    } else if d == 6 {
        '6'
    } else if d == 7 {
        '7'
    } else if d == 8 {
        '8'
    } else if d == 9 {
        '9'
    } else if d == 10 {
        'a'
    } else if d == 11 {
        'b'
    } else if d == 12 {
        'c'
    } else if d == 13 {
        'd'
    } else if d == 14 {
        'e'
    } else {
        'f'
    }
}

/// The value of one hexadecimal digit, either case, or `None` for any other
/// character.
pub open spec fn hex_digit_value(c: char) -> Option<u8> {
    let v = c as u32;
    if '0' as u32 <= v && v <= '9' as u32 {
        Some((v - '0' as u32) as u8)
    } else if 'a' as u32 <= v && v <= 'f' as u32 {
        Some((v - 'a' as u32 + 10) as u8)
    } else if 'A' as u32 <= v && v <= 'F' as u32 {
        Some((v - 'A' as u32 + 10) as u8)
    } else {
        None
    }
}

/// The hexadecimal rendering of a byte sequence: two lowercase digits per
/// byte, high nibble first.
pub open spec fn hex_encode_chars(bytes: Seq<u8>) -> Seq<char>
    decreases bytes.len(),
{
    if bytes.len() == 0 {
        Seq::<char>::empty()
    } else {
        seq![hex_char(bytes.first() / 16), hex_char(bytes.first() % 16)]
            + hex_encode_chars(bytes.drop_first())
    }
}

/// The bytes a character sequence spells in hexadecimal, or `None` where the
/// length is odd or a character is no hexadecimal digit.
pub open spec fn hex_decode_chars(s: Seq<char>) -> Option<Seq<u8>>
    decreases s.len(),
{
    if s.len() == 0 {
        Some(Seq::<u8>::empty())
    } else if s.len() == 1 {
        None::<Seq<u8>>
    } else {
        match (hex_digit_value(s[0]), hex_digit_value(s[1])) {
            (Some(h), Some(l)) => match hex_decode_chars(s.skip(2)) {
                Some(rest) => Some(seq![(h * 16 + l) as u8] + rest),
                None => None,
            },
            _ => None,
        }
    }
}

/// Appends the lowercase hexadecimal digit for `d` to `s`.
fn push_hex_digit(s: &mut String, d: u8)
    requires
        d < 16,
    ensures
        final(s)@ == old(s)@ + seq![hex_char(d)],
{
    if d == 0 {
        proof {
            reveal_strlit("0");
            assert("0"@ =~= seq![hex_char(0u8)]);
        }
        s.append("0");
    } else if d == 1 {
        proof {
            reveal_strlit("1");
            assert("1"@ =~= seq![hex_char(1u8)]);
        }
        s.append("1");
    } else if d == 2 {
        proof {
            reveal_strlit("2");
            assert("2"@ =~= seq![hex_char(2u8)]);
        }
        s.append("2");
    } else if d == 3 {
        proof {
            reveal_strlit("3");
            assert("3"@ =~= seq![hex_char(3u8)]);
        }
        s.append("3");
    } else if d == 4 {
        proof {
            reveal_strlit("4");
            assert("4"@ =~= seq![hex_char(4u8)]);
        }
        s.append("4");
    } else if d == 5 {
        proof {
            reveal_strlit("5");
            assert("5"@ =~= seq![hex_char(5u8)]);
        }
        s.append("5");
    } else if d == 6 {
        proof {
            reveal_strlit("6");
            assert("6"@ =~= seq![hex_char(6u8)]);
        }
        s.append("6");
    } else if d == 7 {
        proof {
            reveal_strlit("7");
            assert("7"@ =~= seq![hex_char(7u8)]);
        }
        s.append("7");
    } else if d == 8 {
        proof {
            reveal_strlit("8");
            assert("8"@ =~= seq![hex_char(8u8)]);
        }
        s.append("8");
    } else if d == 9 {
        proof {
            reveal_strlit("9");
            assert("9"@ =~= seq![hex_char(9u8)]);
        }
        s.append("9");
    } else if d == 10 {
        proof {
            reveal_strlit("a");
            assert("a"@ =~= seq![hex_char(10u8)]);
        }
        s.append("a");
    } else if d == 11 {
        proof {
            reveal_strlit("b");
            assert("b"@ =~= seq![hex_char(11u8)]);
        }
        s.append("b");
    } else if d == 12 {
        proof {
            reveal_strlit("c");
            assert("c"@ =~= seq![hex_char(12u8)]);
        }
        s.append("c");
    } else if d == 13 {
        proof {
            reveal_strlit("d");
            assert("d"@ =~= seq![hex_char(13u8)]);
        }
        s.append("d");
    } else if d == 14 {
        proof {
            reveal_strlit("e");
            assert("e"@ =~= seq![hex_char(14u8)]);
        }
        s.append("e");
    } else {
        proof {
            reveal_strlit("f");
            assert("f"@ =~= seq![hex_char(15u8)]);
        }
        s.append("f");
    }
}

/// Renders bytes as a lowercase hexadecimal string, two digits per byte.
pub fn hex_encode(bytes: &[u8]) -> (r: String)
    ensures
        r@ == hex_encode_chars(bytes@),
{
    let mut out = String::new();
    let mut i: usize = 0;
    proof {
        assert(bytes@.subrange(0, bytes@.len() as int) =~= bytes@);
        assert(Seq::<char>::empty() + hex_encode_chars(bytes@) =~= hex_encode_chars(bytes@));
    }
    while i < bytes.len()
        invariant
            i <= bytes@.len(),
            out@ + hex_encode_chars(bytes@.subrange(i as int, bytes@.len() as int))
                == hex_encode_chars(bytes@),
        decreases bytes@.len() - i,
    {
        let b = bytes[i];
        proof {
            let rest = bytes@.subrange(i as int, bytes@.len() as int);
            assert(rest.first() == b);
            assert(rest.drop_first() =~= bytes@.subrange(i as int + 1, bytes@.len() as int));
        }
        push_hex_digit(&mut out, b / 16);
        push_hex_digit(&mut out, b % 16);
        proof {
            let rest = bytes@.subrange(i as int, bytes@.len() as int);
            let tail = bytes@.subrange(i as int + 1, bytes@.len() as int);
            assert(out@ + hex_encode_chars(tail) =~= hex_encode_chars(bytes@)) by {
                assert(hex_encode_chars(rest)
                    == seq![hex_char(b / 16), hex_char(b % 16)] + hex_encode_chars(tail));
            }
        }
        i = i + 1;
    }
    proof {
        assert(bytes@.subrange(bytes@.len() as int, bytes@.len() as int)
            =~= Seq::<u8>::empty());
        assert(out@ =~= hex_encode_chars(bytes@));
    }
    out
}

/// The value of one hexadecimal digit character, or `None` for any other
/// character.
fn hex_digit(c: char) -> (r: Option<u8>)
    ensures
        r == hex_digit_value(c),
{
    let v = c as u32;
    if '0' as u32 <= v && v <= '9' as u32 {
        Some((v - '0' as u32) as u8)
    } else if 'a' as u32 <= v && v <= 'f' as u32 {
        Some((v - 'a' as u32 + 10) as u8)
    } else if 'A' as u32 <= v && v <= 'F' as u32 {
        Some((v - 'A' as u32 + 10) as u8)
    } else {
        None
    }
}

proof fn lemma_hex_decode_odd(s: Seq<char>)
    requires
        s.len() % 2 == 1,
    ensures
        hex_decode_chars(s) is None,
    decreases s.len(),
{
    if s.len() > 1 {
        lemma_hex_decode_odd(s.skip(2));
    }
}

/// Decodes a hexadecimal string to bytes; `None` on odd length or any
/// non-digit character.
pub fn hex_decode(s: &str) -> (r: Option<Vec<u8>>)
    ensures
        match r {
            Some(v) => hex_decode_chars(s@) == Some(v@),
            None => hex_decode_chars(s@) is None,
        },
{
    let n = s.unicode_len();
    if n % 2 != 0 {
        proof {
            lemma_hex_decode_odd(s@);
        }
        return None;
    }
    let mut out: Vec<u8> = Vec::new();
    let mut i: usize = 0;
    proof {
        assert(s@.subrange(0, n as int) =~= s@);
        match hex_decode_chars(s@) {
            Some(rest) => {
                assert(Seq::<u8>::empty() + rest =~= rest);
            }
            None => {}
        }
    }
    while i < n
        invariant
            i <= n,
            i % 2 == 0,
            n % 2 == 0,
            n == s@.len(),
            match hex_decode_chars(s@.subrange(i as int, n as int)) {
                Some(rest) => hex_decode_chars(s@) == Some(out@ + rest),
                None => hex_decode_chars(s@) is None,
            },
        decreases n - i,
    {
        proof {
            assert(i + 1 < n) by {
                assert(i % 2 == 0 && n % 2 == 0 && i < n);
            }
        }
        let c1 = s.get_char(i);
        let c2 = s.get_char(i + 1);
        let d1 = hex_digit(c1);
        let d2 = hex_digit(c2);
        proof {
            let rest = s@.subrange(i as int, n as int);
            assert(rest[0] == s@[i as int]);
            assert(rest[1] == s@[i as int + 1]);
            assert(rest.skip(2) =~= s@.subrange(i as int + 2, n as int));
        }
        match (d1, d2) {
            (Some(h), Some(l)) => {
                out.push(h * 16 + l);
                proof {
                    let tail = s@.subrange(i as int + 2, n as int);
                    match hex_decode_chars(tail) {
                        Some(r2) => {
                            assert(out@ + r2 =~= out@.drop_last() + (seq![(h * 16 + l) as u8] + r2));
                        }
                        None => {}
                    }
                }
                i = i + 2;
            }
            _ => {
                return None;
            }
        }
    }
    proof {
        assert(s@.subrange(n as int, n as int) =~= Seq::<char>::empty());
        assert(out@ + Seq::<u8>::empty() =~= out@);
    }
    Some(out)
}

/// The bytes a character sequence denotes in standard Base64, or `None`
/// where it is not valid Base64.
pub uninterp spec fn base64_decode_of(s: Seq<char>) -> Option<Seq<u8>>;

/// Relies on `base64::engine::general_purpose::STANDARD.decode`: acceptance
/// and result depend on the input characters alone.
#[verifier::external_body]
pub(crate) fn base64_decode(s: &str) -> (r: Option<Vec<u8>>)
    ensures
        match r {
            Some(v) => base64_decode_of(s@) == Some(v@),
            None => base64_decode_of(s@) is None,
        },
{
    base64::Engine::decode(&base64::engine::general_purpose::STANDARD, s).ok()
}

/// Relies on `String::from_utf8`: it succeeds exactly on valid UTF-8 and
/// returns the characters those bytes encode.
#[verifier::external_body]
pub(crate) fn utf8_to_string(bytes: Vec<u8>) -> (r: Option<String>)
    ensures
        r is Some <==> vstd::utf8::valid_utf8(bytes@),
        r matches Some(s) ==> s@ == vstd::utf8::decode_utf8(bytes@),
{
    String::from_utf8(bytes).ok()
}

/// Round trip: decoding the hexadecimal rendering of any byte sequence gives
/// back exactly that sequence.
pub proof fn lemma_hex_round_trip(bytes: Seq<u8>)
    ensures
        hex_decode_chars(hex_encode_chars(bytes)) == Some(bytes),
    decreases bytes.len(),
{
    if bytes.len() == 0 {
        assert(hex_encode_chars(bytes) =~= Seq::<char>::empty());
        assert(hex_decode_chars(hex_encode_chars(bytes)) == Some(Seq::<u8>::empty()));
        assert(bytes =~= Seq::<u8>::empty());
    } else {
        let b = bytes.first();
        let enc = hex_encode_chars(bytes);
        lemma_hex_round_trip(bytes.drop_first());
        assert(enc.skip(2) =~= hex_encode_chars(bytes.drop_first()));
        assert(hex_digit_value(hex_char(b / 16)) == Some((b / 16) as u8));
        assert(hex_digit_value(hex_char(b % 16)) == Some((b % 16) as u8));
        assert(seq![((b / 16) * 16 + (b % 16)) as u8] + bytes.drop_first() =~= bytes);
    }
}

} // verus!

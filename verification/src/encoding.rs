//! Wire encodings used by the OAuth2 flow: percent-encoding of query
//! values and the standard base64 encoding behind the Basic credential.

use crate::util::is_alphanumeric_char;
use vstd::prelude::*;
use vstd::utf8::encode_scalar;
use vstd::utf8::encode_utf8;

verus! {

/// Upper-case hexadecimal digit of a value below 16.
pub open spec fn spec_hex_digit(v: int) -> char {
    if v < 10 {
        ('0' as int + v) as char
    } else {
        ('A' as int + (v - 10)) as char
    }
}

fn hex_digit(v: u8) -> (c: char)
    requires
        v < 16,
    ensures
        c == spec_hex_digit(v as int),
{
    if v < 10 {
        (('0' as u8) + v) as char
    } else {
        (('A' as u8) + (v - 10)) as char
    }
}

/// Characters that a query value keeps unescaped: letters, digits and the
/// four unreserved marks.
pub open spec fn is_unreserved_char(c: char) -> bool {
    is_alphanumeric_char(c) || c == '-' || c == '_' || c == '.' || c == '~'
}

fn is_unreserved(c: char) -> (r: bool)
    ensures
        r == is_unreserved_char(c),
{
    let v = c as u32;
    (v >= 'a' as u32 && v <= 'z' as u32) || (v >= 'A' as u32 && v <= 'Z' as u32) || (v >= '0' as u32
        && v <= '9' as u32) || c == '-' || c == '_' || c == '.' || c == '~'
}

/// The `%XX` escape of one byte, upper-case hexadecimal.
pub open spec fn pct_escape_byte(b: u8) -> Seq<char> {
    seq!['%', spec_hex_digit(b as int / 16), spec_hex_digit(b as int % 16)]
}

/// The escapes of a whole byte sequence, in order.
pub open spec fn pct_escapes(bytes: Seq<u8>) -> Seq<char>
    decreases bytes.len(),
{
    if bytes.len() == 0 {
        Seq::empty()
    } else {
        pct_escape_byte(bytes[0]) + pct_escapes(bytes.skip(1))
    }
}

/// Percent-encoding of one character: an unreserved character stands as
/// itself, every other character as the escapes of its UTF-8 bytes.
pub open spec fn pct_encoded_char(c: char) -> Seq<char> {
    if is_unreserved_char(c) {
        seq![c]
    } else {
        pct_escapes(encode_scalar(c as u32))
    }
}

/// Percent-encoding of a whole character sequence.
pub open spec fn pct_encoded(s: Seq<char>) -> Seq<char>
    decreases s.len(),
{
    if s.len() == 0 {
        Seq::empty()
    } else {
        pct_encoded_char(s[0]) + pct_encoded(s.skip(1))
    }
}

/// The UTF-8 bytes of one character.
fn utf8_bytes(c: char) -> (r: Vec<u8>)
    ensures
        r@ == encode_scalar(c as u32),
{
    let scalar = c as u32;
    let mut out: Vec<u8> = Vec::new();
    if scalar <= 0x7F {
        out.push((scalar & 0x7F) as u8);
    } else if scalar <= 0x7FF {
        out.push(0xC0 | (((scalar >> 6u32) & 0x1F) as u8));
        out.push(0x80 | ((scalar & 0x3F) as u8));
    } else if scalar <= 0xFFFF {
        out.push(0xE0 | (((scalar >> 12u32) & 0x0F) as u8));
        out.push(0x80 | (((scalar >> 6u32) & 0x3F) as u8));
        out.push(0x80 | ((scalar & 0x3F) as u8));
    } else {
        out.push(0xF0 | (((scalar >> 18u32) & 0x7) as u8));
        out.push(0x80 | (((scalar >> 12u32) & 0x3F) as u8));
        out.push(0x80 | (((scalar >> 6u32) & 0x3F) as u8));
        out.push(0x80 | ((scalar & 0x3F) as u8));
    }
    out
}

/// Percent-encodes a string for use as a query-parameter value.
pub fn percent_encode(s: &str) -> (r: String)
    ensures
        r@ == pct_encoded(s@),
{
    let n = s.unicode_len();
    let mut out = String::new();
    let mut i: usize = 0;
    proof {
        assert(s@.skip(0) =~= s@);
        assert(out@ + pct_encoded(s@) =~= pct_encoded(s@));
    }
    while i < n
        invariant
            i <= n,
            n == s@.len(),
            out@ + pct_encoded(s@.skip(i as int)) == pct_encoded(s@),
        decreases n - i,
    {
        let c = s.get_char(i);
        proof {
            assert(s@.skip(i as int)[0] == c);
            assert(s@.skip(i as int).skip(1) =~= s@.skip(i + 1));
            assert(pct_encoded(s@.skip(i as int)) == pct_encoded_char(c) + pct_encoded(
                s@.skip(i + 1),
            ));
        }
        if is_unreserved(c) {
            out.push(c);
            proof {
                assert(out@ + pct_encoded(s@.skip(i + 1)) =~= pct_encoded(s@));
            }
        } else {
            let bytes = utf8_bytes(c);
            let ghost out0 = out@;
            let mut j: usize = 0;
            proof {
                assert(bytes@.skip(0) =~= bytes@);
                assert(out@ + pct_escapes(bytes@) =~= out0 + pct_escapes(bytes@));
            }
            while j < bytes.len()
                invariant
                    j <= bytes@.len(),
                    out@ + pct_escapes(bytes@.skip(j as int)) == out0 + pct_escapes(bytes@),
                decreases bytes@.len() - j,
            {
                let b = bytes[j];
                proof {
                    assert(bytes@.skip(j as int)[0] == b);
                    assert(bytes@.skip(j as int).skip(1) =~= bytes@.skip(j + 1));
                    assert(pct_escapes(bytes@.skip(j as int)) == pct_escape_byte(b) + pct_escapes(
                        bytes@.skip(j + 1),
                    ));
                }
                out.push('%');
                out.push(hex_digit(b / 16));
                out.push(hex_digit(b % 16));
                proof {
                    assert(out@ + pct_escapes(bytes@.skip(j + 1)) =~= out0 + pct_escapes(bytes@));
                }
                j = j + 1;
            }
            proof {
                assert(bytes@.skip(bytes@.len() as int) =~= Seq::<u8>::empty());
                assert(out@ =~= out0 + pct_escapes(bytes@));
                assert(out@ + pct_encoded(s@.skip(i + 1)) =~= pct_encoded(s@));
            }
        }
        i = i + 1;
    }
    proof {
        assert(s@.skip(n as int) =~= Seq::<char>::empty());
        assert(out@ =~= pct_encoded(s@));
    }
    out
}

/// The base64 alphabet, indexed 0 to 63: upper-case letters, lower-case
/// letters, digits, `+`, `/`.
pub open spec fn spec_base64_char(v: int) -> char {
    if v < 26 {
        ('A' as int + v) as char
    } else if v < 52 {
        ('a' as int + (v - 26)) as char
    } else if v < 62 {
        ('0' as int + (v - 52)) as char
    } else if v == 62 {
        '+'
    } else {
        '/'
    }
}

fn base64_char(v: u8) -> (c: char)
    requires
        v < 64,
    ensures
        c == spec_base64_char(v as int),
{
    if v < 26 {
        (('A' as u8) + v) as char
    } else if v < 52 {
        (('a' as u8) + (v - 26)) as char
    } else if v < 62 {
        (('0' as u8) + (v - 52)) as char
    } else if v == 62 {
        '+'
    } else {
        '/'
    }
}

/// Standard base64 of a byte sequence, `=`-padded to a multiple of four
/// characters.
pub open spec fn spec_base64(bytes: Seq<u8>) -> Seq<char>
    decreases bytes.len(),
{
    if bytes.len() == 0 {
        Seq::empty()
    } else if bytes.len() == 1 {
        let b0 = bytes[0] as int;
        seq![spec_base64_char(b0 / 4), spec_base64_char((b0 % 4) * 16), '=', '=']
    } else if bytes.len() == 2 {
        let b0 = bytes[0] as int;
        let b1 = bytes[1] as int;
        seq![
            spec_base64_char(b0 / 4),
            spec_base64_char((b0 % 4) * 16 + b1 / 16),
            spec_base64_char((b1 % 16) * 4),
            '=',
        ]
    } else {
        let b0 = bytes[0] as int;
        let b1 = bytes[1] as int;
        let b2 = bytes[2] as int;
        seq![
            spec_base64_char(b0 / 4),
            spec_base64_char((b0 % 4) * 16 + b1 / 16),
            spec_base64_char((b1 % 16) * 4 + b2 / 64),
            spec_base64_char(b2 % 64),
        ] + spec_base64(bytes.skip(3))
    }
}

/// Encodes bytes as standard base64 with padding.
pub fn base64_encode(bytes: &Vec<u8>) -> (r: String)
    ensures
        r@ == spec_base64(bytes@),
{
    let n = bytes.len();
    let mut out = String::new();
    let mut i: usize = 0;
    proof {
        assert(bytes@.skip(0) =~= bytes@);
        assert(out@ + spec_base64(bytes@) =~= spec_base64(bytes@));
    }
    while n - i >= 3
        invariant
            i <= n,
            n == bytes@.len(),
            out@ + spec_base64(bytes@.skip(i as int)) == spec_base64(bytes@),
        decreases n - i,
    {
        let b0 = bytes[i];
        let b1 = bytes[i + 1];
        let b2 = bytes[i + 2];
        proof {
            assert(bytes@.skip(i as int)[0] == b0);
            assert(bytes@.skip(i as int)[1] == b1);
            assert(bytes@.skip(i as int)[2] == b2);
            assert(bytes@.skip(i as int).skip(3) =~= bytes@.skip(i + 3));
        }
        out.push(base64_char(b0 / 4));
        out.push(base64_char((b0 % 4) * 16 + b1 / 16));
        out.push(base64_char((b1 % 16) * 4 + b2 / 64));
        out.push(base64_char(b2 % 64));
        proof {
            assert(out@ + spec_base64(bytes@.skip(i + 3)) =~= spec_base64(bytes@));
        }
        i = i + 3;
    }
    if n - i == 1 {
        let b0 = bytes[i];
        proof {
            assert(bytes@.skip(i as int)[0] == b0);
            assert(bytes@.skip(i as int).len() == 1);
        }
        out.push(base64_char(b0 / 4));
        out.push(base64_char((b0 % 4) * 16));
        out.push('=');
        out.push('=');
        proof {
            assert(out@ =~= spec_base64(bytes@));
        }
    } else if n - i == 2 {
        let b0 = bytes[i];
        let b1 = bytes[i + 1];
        proof {
            assert(bytes@.skip(i as int)[0] == b0);
            assert(bytes@.skip(i as int)[1] == b1);
            assert(bytes@.skip(i as int).len() == 2);
        }
        out.push(base64_char(b0 / 4));
        out.push(base64_char((b0 % 4) * 16 + b1 / 16));
        out.push(base64_char((b1 % 16) * 4));
        out.push('=');
        proof {
            assert(out@ =~= spec_base64(bytes@));
        }
    } else {
        proof {
            assert(bytes@.skip(i as int) =~= Seq::<u8>::empty());
            assert(out@ =~= spec_base64(bytes@));
        }
    }
    out
}

/// The `Authorization: Basic` header for the given client credentials: the
/// base64 of `client_id:client_secret`, as the token endpoints expect it.
pub fn basic_auth_header(client_id: &str, client_secret: &str) -> (r: String)
    ensures
        r@ == "Authorization: Basic "@ + spec_base64(
            encode_utf8(client_id@ + seq![':'] + client_secret@),
        ),
{
    proof {
        reveal_strlit(":");
    }
    let mut joined = client_id.to_owned();
    joined.append(":");
    joined.append(client_secret);
    proof {
        assert(joined@ =~= client_id@ + seq![':'] + client_secret@);
    }
    let bytes = joined.as_str().as_bytes_vec();
    let mut out = "Authorization: Basic ".to_owned();
    out.append(base64_encode(&bytes).as_str());
    out
}

} // verus!

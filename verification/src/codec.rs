//! Base64url coding: the mathematical model of the unpadded base64url
//! encoding, the proof that decoding inverts encoding, and the executable
//! entry points.

use vstd::prelude::*;

verus! {

/// The base64url alphabet: the character standing for a 6-bit value.
pub open spec fn b64_char(v: int) -> char
    recommends
        0 <= v < 64,
{
    if v < 26 {
        (v + 65) as char  // 'A'..'Z'
    } else if v < 52 {
        (v + 71) as char  // 'a'..'z'
    } else if v < 62 {
        (v - 4) as char  // '0'..'9'
    } else if v == 62 {
        '-'
    } else {
        '_'
    }
}

/// The 6-bit value a character stands for, or -1 when it is outside the
/// base64url alphabet.
pub open spec fn b64_val(c: char) -> int {
    let u = c as int;
    if 65 <= u <= 90 {
        u - 65
    } else if 97 <= u <= 122 {
        u - 71
    } else if 48 <= u <= 57 {
        u + 4
    } else if u == 45 {
        62
    } else if u == 95 {
        63
    } else {
        -1
    }
}

/// Encoding of a final group of one byte: two characters, the second with
/// its trailing four bits zero.
pub open spec fn b64_group1(b0: u8) -> Seq<char> {
    seq![b64_char((b0 / 4) as int), b64_char((b0 % 4) * 16)]
}

/// Encoding of a final group of two bytes: three characters, the third with
/// its trailing two bits zero.
pub open spec fn b64_group2(b0: u8, b1: u8) -> Seq<char> {
    seq![b64_char((b0 / 4) as int), b64_char((b0 % 4) * 16 + b1 / 16), b64_char((b1 % 16) * 4)]
}

/// Encoding of a full group of three bytes as four characters.
pub open spec fn b64_group3(b0: u8, b1: u8, b2: u8) -> Seq<char> {
    seq![
        b64_char((b0 / 4) as int),
        b64_char((b0 % 4) * 16 + b1 / 16),
        b64_char((b1 % 16) * 4 + b2 / 64),
        b64_char((b2 % 64) as int),
    ]
}

/// Unpadded base64url encoding of a byte sequence, three bytes to four
/// characters, the remainder as a short final group.
pub open spec fn b64_encode(s: Seq<u8>) -> Seq<char>
    decreases s.len(),
{
    if s.len() == 0 {
        Seq::empty()
    } else if s.len() == 1 {
        b64_group1(s[0])
    } else if s.len() == 2 {
        b64_group2(s[0], s[1])
    } else {
        b64_group3(s[0], s[1], s[2]) + b64_encode(s.skip(3))
    }
}

/// Decoding of unpadded base64url text. `None` exactly when the text is not
/// the canonical encoding of any byte sequence: a character outside the
/// alphabet, a length leaving a single trailing character, or nonzero
/// trailing bits in the final group.
pub open spec fn b64_decode(s: Seq<char>) -> Option<Seq<u8>>
    decreases s.len(),
{
    if s.len() == 0 {
        Some(Seq::empty())
    } else if s.len() == 1 {
        None
    } else if s.len() == 2 {
        let v0 = b64_val(s[0]);
        let v1 = b64_val(s[1]);
        if v0 >= 0 && v1 >= 0 && v1 % 16 == 0 {
            Some(seq![(v0 * 4 + v1 / 16) as u8])
        } else {
            None
        }
    } else if s.len() == 3 {
        let v0 = b64_val(s[0]);
        let v1 = b64_val(s[1]);
        let v2 = b64_val(s[2]);
        if v0 >= 0 && v1 >= 0 && v2 >= 0 && v2 % 4 == 0 {
            Some(seq![(v0 * 4 + v1 / 16) as u8, ((v1 % 16) * 16 + v2 / 4) as u8])
        } else {
            None
        }
    } else {
        let v0 = b64_val(s[0]);
        let v1 = b64_val(s[1]);
        let v2 = b64_val(s[2]);
        let v3 = b64_val(s[3]);
        if v0 >= 0 && v1 >= 0 && v2 >= 0 && v3 >= 0 {
            match b64_decode(s.skip(4)) {
                Some(rest) => Some(
                    seq![
                        (v0 * 4 + v1 / 16) as u8,
                        ((v1 % 16) * 16 + v2 / 4) as u8,
                        ((v2 % 4) * 64 + v3) as u8,
                    ] + rest,
                ),
                None => None,
            }
        } else {
            None
        }
    }
}

/// The alphabet map is invertible: reading back an encoded 6-bit value
/// yields that value, and every alphabet character is ASCII.
pub proof fn lemma_b64_val_char(v: int)
    requires
        0 <= v < 64,
    ensures
        b64_val(b64_char(v)) == v,
        '\0' <= b64_char(v) <= '\u{7f}',
{
}

/// A value packed as `x * s + y` with `0 <= y < s` unpacks to `x` and `y`.
proof fn lemma_pack(x: int, y: int, s: int)
    by (nonlinear_arith)
    requires
        0 <= x,
        0 <= y < s,
    ensures
        (x * s + y) / s == x,
        (x * s + y) % s == y,
{
}

/// Decoding inverts encoding: every byte sequence is recovered exactly from
/// its base64url text.
pub proof fn lemma_b64_round_trip(b: Seq<u8>)
    ensures
        b64_decode(b64_encode(b)) == Some(b),
    decreases b.len(),
{
    if b.len() == 0 {
        assert(b =~= Seq::<u8>::empty());
    } else if b.len() == 1 {
        let b0 = b[0];
        let v0 = (b0 / 4) as int;
        let v1 = ((b0 % 4) * 16) as int;
        vstd::arithmetic::div_mod::lemma_fundamental_div_mod(b0 as int, 4);
        lemma_b64_val_char(v0);
        lemma_b64_val_char(v1);
        lemma_pack(b0 as int % 4, 0, 16);
        assert(b64_decode(b64_encode(b)).unwrap() =~= b);
    } else if b.len() == 2 {
        let b0 = b[0];
        let b1 = b[1];
        let v0 = (b0 / 4) as int;
        let v1 = ((b0 % 4) * 16 + b1 / 16) as int;
        let v2 = ((b1 % 16) * 4) as int;
        vstd::arithmetic::div_mod::lemma_fundamental_div_mod(b0 as int, 4);
        lemma_b64_val_char(v0);
        lemma_b64_val_char(v1);
        lemma_b64_val_char(v2);
        lemma_pack(b0 as int % 4, b1 as int / 16, 16);
        lemma_pack(b1 as int % 16, 0, 4);
        vstd::arithmetic::div_mod::lemma_fundamental_div_mod(b1 as int, 16);
        assert(b64_decode(b64_encode(b)).unwrap() =~= b);
    } else {
        let b0 = b[0];
        let b1 = b[1];
        let b2 = b[2];
        let v0 = (b0 / 4) as int;
        let v1 = ((b0 % 4) * 16 + b1 / 16) as int;
        let v2 = ((b1 % 16) * 4 + b2 / 64) as int;
        let v3 = (b2 % 64) as int;
        vstd::arithmetic::div_mod::lemma_fundamental_div_mod(b0 as int, 4);
        lemma_b64_val_char(v0);
        lemma_b64_val_char(v1);
        lemma_b64_val_char(v2);
        lemma_b64_val_char(v3);
        lemma_pack(b0 as int % 4, b1 as int / 16, 16);
        lemma_pack(b1 as int % 16, b2 as int / 64, 4);
        vstd::arithmetic::div_mod::lemma_fundamental_div_mod(b1 as int, 16);
        vstd::arithmetic::div_mod::lemma_fundamental_div_mod(b2 as int, 64);
        lemma_b64_round_trip(b.skip(3));
        let e = b64_encode(b);
        let g = b64_group3(b0, b1, b2);
        let rest = b64_encode(b.skip(3));
        assert(e == g + rest);
        assert(e.skip(4) =~= rest);
        assert(e[0] == g[0] && e[1] == g[1] && e[2] == g[2] && e[3] == g[3]);
        assert(e.len() >= 4 && e.len() != 1 && e.len() != 2 && e.len() != 3) by {
            if b.skip(3).len() == 1 {
                assert(rest.len() == 2);
            }
        }
        assert(b64_decode(e).unwrap() =~= b);
    }
}

/// Relies on base64_url::encode, which produces the unpadded base64url
/// (RFC 4648 §5) encoding of the input bytes.
#[verifier::external_body]
pub(crate) fn encode_b64url(b: &[u8]) -> (r: String)
    ensures
        r@ == b64_encode(b@),
{
    base64_url::encode(b)
}

/// Relies on base64_url::decode, which accepts exactly the canonical
/// unpadded base64url texts (alphabet characters only, no lone trailing
/// character, zero trailing bits) and yields the bytes they encode.
#[verifier::external_body]
pub(crate) fn decode_b64url(s: &str) -> (r: Option<Vec<u8>>)
    ensures
        r is Some <==> b64_decode(s@) is Some,
        r matches Some(v) ==> b64_decode(s@) == Some(v@),
{
    base64_url::decode(s).ok()
}

} // verus!

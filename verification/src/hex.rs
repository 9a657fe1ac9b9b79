//! Lowercase hexadecimal encoding of ticket bytes, and its inverse.
//!
//! A ticket is serialized as two lowercase hex characters per byte,
//! most-significant nibble first, with no prefix or separator.

use vstd::prelude::*;

verus! {

/// The ASCII byte of the lowercase hex digit for a value below 16.
pub open spec fn hex_digit(n: u8) -> u8
    recommends
        n < 16,
{
    if n < 10 {
        (n + 0x30) as u8
    } else {
        (n + 0x57) as u8
    }
}

/// The lowercase hex encoding of a byte sequence: two digits per byte,
/// most-significant nibble first.
pub open spec fn hex_of(s: Seq<u8>) -> Seq<u8> {
    Seq::new(
        2 * s.len(),
        |i: int|
            if i % 2 == 0 {
                hex_digit((s[i / 2] / 16) as u8)
            } else {
                hex_digit((s[i / 2] % 16) as u8)
            },
    )
}

/// Whether an ASCII byte is a lowercase hex digit.
pub open spec fn is_hex_digit(c: u8) -> bool {
    (0x30 <= c && c <= 0x39) || (0x61 <= c && c <= 0x66)
}

/// The value of a lowercase hex digit.
pub open spec fn hex_val(c: u8) -> u8
    recommends
        is_hex_digit(c),
{
    if c <= 0x39 {
        (c - 0x30) as u8
    } else {
        (c - 0x57) as u8
    }
}

/// Whether a byte sequence is a well-formed lowercase hex encoding:
/// even length, every byte a lowercase hex digit.
pub open spec fn is_hex_seq(s: Seq<u8>) -> bool {
    &&& s.len() % 2 == 0
    &&& forall|i: int| 0 <= i < s.len() ==> is_hex_digit(s[i])
}

/// The bytes a hex sequence encodes: one byte per digit pair.
pub open spec fn unhex_of(s: Seq<u8>) -> Seq<u8> {
    Seq::new(s.len() / 2, |i: int| (hex_val(s[2 * i]) * 16 + hex_val(s[2 * i + 1])) as u8)
}

fn hex_digit_byte(n: u8) -> (r: u8)
    requires
        n < 16,
    ensures
        r == hex_digit(n),
{
    if n < 10 {
        n + 0x30
    } else {
        n + 0x57
    }
}

fn hex_val_byte(c: u8) -> (r: u8)
    requires
        is_hex_digit(c),
    ensures
        r == hex_val(c),
        r < 16,
{
    if c <= 0x39 {
        c - 0x30
    } else {
        c - 0x57
    }
}

fn is_hex_digit_byte(c: u8) -> (r: bool)
    ensures
        r == is_hex_digit(c),
{
    (0x30 <= c && c <= 0x39) || (0x61 <= c && c <= 0x66)
}

/// Encode bytes as lowercase hex, two digits per byte.
pub fn hex_encode(bytes: &Vec<u8>) -> (r: Vec<u8>)
    ensures
        r@ == hex_of(bytes@),
{
    let mut out: Vec<u8> = Vec::new();
    let mut i: usize = 0;
    while i < bytes.len()
        invariant
            i <= bytes.len(),
            out@.len() == 2 * i,
            forall|j: int| 0 <= j < out@.len() ==> out@[j] == hex_of(bytes@)[j],
        decreases bytes.len() - i,
    {
        let b = bytes[i];
        out.push(hex_digit_byte(b / 16));
        out.push(hex_digit_byte(b % 16));
        i += 1;
    }
    assert(out@ =~= hex_of(bytes@));
    out
}

/// Decode a lowercase hex sequence back into bytes. Returns `None` exactly
/// when the input is not a well-formed lowercase hex encoding.
pub fn hex_decode(s: &Vec<u8>) -> (r: Option<Vec<u8>>)
    ensures
        r is Some <==> is_hex_seq(s@),
        r matches Some(v) ==> v@ == unhex_of(s@),
{
    if s.len() % 2 != 0 {
        return None;
    }
    let len = s.len();
    let n = len / 2;
    let mut out: Vec<u8> = Vec::new();
    let mut k: usize = 0;
    while k < n
        invariant
            len == s@.len(),
            n == s@.len() / 2,
            s@.len() % 2 == 0,
            k <= n,
            out@.len() == k,
            forall|j: int| 0 <= j < 2 * k ==> is_hex_digit(s@[j]),
            forall|j: int| 0 <= j < k ==> out@[j] == unhex_of(s@)[j],
        decreases n - k,
    {
        proof {
            assert(2 * (k as int) + 1 < s@.len()) by {
                vstd::arithmetic::div_mod::lemma_fundamental_div_mod(s@.len() as int, 2);
            }
        }
        let hi = s[2 * k];
        let lo = s[2 * k + 1];
        if !is_hex_digit_byte(hi) {
            assert(!is_hex_seq(s@)) by {
                assert(!is_hex_digit(s@[2 * k as int]));
            }
            return None;
        }
        if !is_hex_digit_byte(lo) {
            assert(!is_hex_seq(s@)) by {
                assert(!is_hex_digit(s@[2 * k as int + 1]));
            }
            return None;
        }
        out.push(hex_val_byte(hi) * 16 + hex_val_byte(lo));
        k += 1;
    }
    assert(out@ =~= unhex_of(s@));
    Some(out)
}

proof fn lemma_hex_digit_inverse(n: u8)
    requires
        n < 16,
    ensures
        is_hex_digit(hex_digit(n)),
        hex_val(hex_digit(n)) == n,
{
}

/// Law: encoding any byte sequence yields a well-formed lowercase hex
/// sequence of twice the length, and decoding it yields the original bytes
/// exactly.
pub proof fn lemma_hex_round_trip(b: Seq<u8>)
    ensures
        is_hex_seq(hex_of(b)),
        hex_of(b).len() == 2 * b.len(),
        unhex_of(hex_of(b)) == b,
{
    let h = hex_of(b);
    assert forall|i: int| 0 <= i < h.len() implies is_hex_digit(h[i]) by {
        if i % 2 == 0 {
            lemma_hex_digit_inverse((b[i / 2] / 16) as u8);
        } else {
            lemma_hex_digit_inverse((b[i / 2] % 16) as u8);
        }
    }
    assert forall|i: int| 0 <= i < b.len() implies unhex_of(h)[i] == b[i] by {
        assert(h[2 * i] == hex_digit((b[i] / 16) as u8));
        assert(h[2 * i + 1] == hex_digit((b[i] % 16) as u8));
        lemma_hex_digit_inverse((b[i] / 16) as u8);
        lemma_hex_digit_inverse((b[i] % 16) as u8);
        assert(b[i] / 16 * 16 + b[i] % 16 == b[i]) by {
            vstd::arithmetic::div_mod::lemma_fundamental_div_mod(b[i] as int, 16);
        }
    }
    assert(unhex_of(h) =~= b);
}

} // verus!

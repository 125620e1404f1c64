//! Hexadecimal byte-string fields of the clone descriptor.
//!
//! Addresses, transaction hashes and constructor arguments are persisted as
//! `0x`-prefixed hexadecimal strings (held here as their ASCII bytes). The
//! encoder always emits lower-case digits; the decoder accepts both cases.

use vstd::prelude::*;

verus! {

/// The value of one ASCII hexadecimal digit, if it is one.
pub open spec fn nibble_val(c: u8) -> Option<u8> {
    if 48 <= c <= 57 {
        Some((c - 48) as u8)
    } else if 97 <= c <= 102 {
        Some((c - 87) as u8)
    } else if 65 <= c <= 70 {
        Some((c - 55) as u8)
    } else {
        None
    }
}

/// The lower-case ASCII digit of a nibble value.
pub open spec fn hex_digit(n: u8) -> u8
    recommends
        n < 16,
{
    if n < 10 {
        (48 + n) as u8
    } else {
        (87 + n) as u8
    }
}

/// The `0x`-prefixed lower-case hexadecimal spelling of `b`.
pub open spec fn hex_field(b: Seq<u8>) -> Seq<u8> {
    seq![48u8, 120u8] + Seq::new(
        2 * b.len(),
        |k: int|
            if k % 2 == 0 {
                hex_digit((b[k / 2] / 16) as u8)
            } else {
                hex_digit((b[k / 2] % 16) as u8)
            },
    )
}

/// `s` is a well-formed `0x`-prefixed hexadecimal field (either case).
pub open spec fn is_hex_field(s: Seq<u8>) -> bool {
    s.len() >= 2 && s[0] == 48 && s[1] == 120 && (s.len() - 2) % 2 == 0 && (forall|k: int|
        2 <= k < s.len() ==> nibble_val(#[trigger] s[k]) is Some)
}

/// The bytes a well-formed hexadecimal field spells.
pub open spec fn hex_field_val(s: Seq<u8>) -> Seq<u8> {
    Seq::new(
        ((s.len() - 2) / 2) as nat,
        |k: int| (16 * nibble_val(s[2 + 2 * k]).unwrap() + nibble_val(
            s[3 + 2 * k],
        ).unwrap()) as u8,
    )
}

/// The lower-case ASCII digit of a nibble value.
fn hex_digit_exec(n: u8) -> (r: u8)
    requires
        n < 16,
    ensures
        r == hex_digit(n),
{
    if n < 10 {
        48 + n
    } else {
        87 + n
    }
}

/// The value of one ASCII hexadecimal digit, if it is one.
fn nibble(c: u8) -> (r: Option<u8>)
    ensures
        r == nibble_val(c),
{
    if 48 <= c && c <= 57 {
        Some(c - 48)
    } else if 97 <= c && c <= 102 {
        Some(c - 87)
    } else if 65 <= c && c <= 70 {
        Some(c - 55)
    } else {
        None
    }
}

/// Spell `bytes` as a `0x`-prefixed lower-case hexadecimal field.
pub fn encode_hex_field(bytes: &Vec<u8>) -> (r: Vec<u8>)
    requires
        2 + 2 * bytes@.len() <= usize::MAX,
    ensures
        r@ == hex_field(bytes@),
{
    let mut r: Vec<u8> = Vec::new();
    r.push(48);
    r.push(120);
    let mut i: usize = 0;
    while i < bytes.len()
        invariant
            i <= bytes.len(),
            2 + 2 * bytes@.len() <= usize::MAX,
            r@.len() == 2 + 2 * i,
            r@[0] == 48,
            r@[1] == 120,
            forall|t: int|
                2 <= t < 2 + 2 * i ==> #[trigger] r@[t] == (if (t - 2) % 2 == 0 {
                    hex_digit((bytes@[(t - 2) / 2] / 16) as u8)
                } else {
                    hex_digit((bytes@[(t - 2) / 2] % 16) as u8)
                }),
        decreases bytes.len() - i,
    {
        let b = bytes[i];
        r.push(hex_digit_exec(b / 16));
        r.push(hex_digit_exec(b % 16));
        i = i + 1;
    }
    proof {
        assert(r@ =~= hex_field(bytes@));
    }
    r
}

/// Read a `0x`-prefixed hexadecimal field back into bytes.
///
/// Returns `None` exactly on a malformed field: a missing prefix, an odd
/// number of digits, or a character that is no hexadecimal digit.
pub fn decode_hex_field(s: &Vec<u8>) -> (r: Option<Vec<u8>>)
    ensures
        r is Some <==> is_hex_field(s@),
        r matches Some(b) ==> b@ == hex_field_val(s@),
{
    if s.len() < 2 || (s.len() - 2) % 2 != 0 {
        return None;
    }
    if !(s[0] == 48 && s[1] == 120) {
        return None;
    }
    let mut b: Vec<u8> = Vec::new();
    let mut k: usize = 2;
    while k < s.len()
        invariant
            2 <= k <= s@.len(),
            (k - 2) % 2 == 0,
            (s@.len() - 2) % 2 == 0,
            s@[0] == 48,
            s@[1] == 120,
            b@.len() == (k - 2) / 2,
            forall|t: int| 2 <= t < k ==> nibble_val(#[trigger] s@[t]) is Some,
            forall|t: int|
                0 <= t < (k - 2) / 2 ==> b@[t] == (16 * nibble_val(s@[2 + 2 * t]).unwrap()
                    + nibble_val(s@[3 + 2 * t]).unwrap()) as u8,
        decreases s.len() - k,
    {
        let hi = match nibble(s[k]) {
            Some(v) => v,
            None => {
                return None;
            },
        };
        let lo = match nibble(s[k + 1]) {
            Some(v) => v,
            None => {
                return None;
            },
        };
        b.push(16 * hi + lo);
        k = k + 2;
    }
    proof {
        assert(b@ =~= hex_field_val(s@));
    }
    Some(b)
}

/// Round trip: decoding an encoded field gives back the original bytes.
///
/// Together with the decoder's contract this shows that the hexadecimal
/// spelling of a byte string loses nothing.
pub proof fn lemma_hex_field_round_trip(b: Seq<u8>)
    ensures
        is_hex_field(hex_field(b)),
        hex_field_val(hex_field(b)) =~= b,
{
    let s = hex_field(b);
    assert forall|k: int| 2 <= k < s.len() implies nibble_val(#[trigger] s[k]) is Some by {
        let t = k - 2;
        assert(s[k] == (if t % 2 == 0 {
            hex_digit((b[t / 2] / 16) as u8)
        } else {
            hex_digit((b[t / 2] % 16) as u8)
        }));
    }
    assert forall|k: int| 0 <= k < b.len() implies hex_field_val(s)[k] == b[k] by {
        assert(s[2 + 2 * k] == hex_digit((b[k] / 16) as u8));
        assert(s[3 + 2 * k] == hex_digit((b[k] % 16) as u8));
        vstd::arithmetic::div_mod::lemma_fundamental_div_mod(b[k] as int, 16);
    }
}

} // verus!

//! Hexadecimal numbers as the chain RPC writes them, read the way
//! `u128::from_str_radix(s, 16)` and `u64::from_str_radix(s, 16)` read them.

use vstd::prelude::*;

verus! {

pub open spec fn is_hex_digit(b: u8) -> bool {
    (48 <= b <= 57) || (97 <= b <= 102) || (65 <= b <= 70)
}

pub open spec fn hex_digit_value(b: u8) -> nat {
    if 48 <= b <= 57 {
        (b - 48) as nat
    } else if 97 <= b <= 102 {
        (b - 87) as nat
    } else {
        (b - 55) as nat
    }
}

/// The number that a string of hex digits writes, most significant first.
pub open spec fn hex_value(digits: Seq<u8>) -> nat
    decreases digits.len(),
{
    if digits.len() == 0 {
        0
    } else {
        hex_value(digits.drop_last()) * 16 + hex_digit_value(digits.last())
    }
}

/// The digits of an unsigned number: one leading `+` is allowed.
pub open spec fn unsigned_digits(s: Seq<u8>) -> Seq<u8> {
    if s.len() > 0 && s[0] == 43 {
        s.drop_first()
    } else {
        s
    }
}

/// `from_str_radix(s, 16)` for an unsigned type whose values lie below
/// `bound`: at least one digit, only hex digits, and no overflow.
pub open spec fn parse_radix16(s: Seq<u8>, bound: nat) -> Option<nat> {
    let digits = unsigned_digits(s);
    if digits.len() > 0 && (forall|i: int| 0 <= i < digits.len() ==> is_hex_digit(
        #[trigger] digits[i],
    )) && hex_value(digits) < bound {
        Some(hex_value(digits))
    } else {
        None
    }
}

pub open spec fn u128_bound() -> nat {
    u128::MAX as nat + 1
}

pub open spec fn u64_bound() -> nat {
    u64::MAX as nat + 1
}

/// `u128::from_str_radix(s, 16).unwrap_or(0)`.
pub open spec fn hex_u128_or_zero(s: Seq<u8>) -> u128 {
    match parse_radix16(s, u128_bound()) {
        Some(v) => v as u128,
        None => 0,
    }
}

/// `u64::from_str_radix(s, 16).unwrap_or(0)`.
pub open spec fn hex_u64_or_zero(s: Seq<u8>) -> u64 {
    match parse_radix16(s, u64_bound()) {
        Some(v) => v as u64,
        None => 0,
    }
}

proof fn lemma_hex_value_prefix_le(d: Seq<u8>, k: int)
    requires
        0 <= k <= d.len(),
    ensures
        hex_value(d.take(k)) <= hex_value(d),
    decreases d.len(),
{
    if k < d.len() {
        lemma_hex_value_prefix_le(d.drop_last(), k);
        assert(d.drop_last().take(k) =~= d.take(k));
    } else {
        assert(d.take(k) =~= d);
    }
}

proof fn lemma_hex_value_step(s: Seq<u8>, start: int, i: int)
    requires
        0 <= start <= i < s.len(),
    ensures
        hex_value(s.subrange(start, i + 1)) == hex_value(s.subrange(start, i)) * 16
            + hex_digit_value(s[i]),
{
    assert(s.subrange(start, i + 1).drop_last() =~= s.subrange(start, i));
}

fn hex_digit(b: u8) -> (d: Option<u8>)
    ensures
        is_hex_digit(b) <==> d is Some,
        d matches Some(v) ==> v == hex_digit_value(b) && v < 16,
{
    if 48 <= b && b <= 57 {
        Some(b - 48)
    } else if 97 <= b && b <= 102 {
        Some(b - 87)
    } else if 65 <= b && b <= 70 {
        Some(b - 55)
    } else {
        None
    }
}

/// `u128::from_str_radix(s, 16).ok()`.
pub fn parse_hex_u128(s: &[u8]) -> (value: Option<u128>)
    ensures
        match value {
            Some(v) => parse_radix16(s@, u128_bound()) == Some(v as nat),
            None => parse_radix16(s@, u128_bound()) is None,
        },
{
    let start: usize = if s.len() > 0 && s[0] == 43 {
        1
    } else {
        0
    };
    let ghost digits = unsigned_digits(s@);
    assert(digits =~= s@.subrange(start as int, s@.len() as int));
    if start == s.len() {
        return None;
    }
    let mut acc: u128 = 0;
    let mut i: usize = start;
    assert(s@.subrange(start as int, start as int) =~= Seq::<u8>::empty());
    while i < s.len()
        invariant
            start <= i <= s@.len(),
            digits == s@.subrange(start as int, s@.len() as int),
            digits == unsigned_digits(s@),
            acc as nat == hex_value(s@.subrange(start as int, i as int)),
            forall|j: int| start <= j < i ==> is_hex_digit(#[trigger] s@[j]),
        decreases s@.len() - i,
    {
        let d = match hex_digit(s[i]) {
            Some(d) => d,
            None => {
                assert(!is_hex_digit(digits[i - start]));
                return None;
            },
        };
        proof {
            lemma_hex_value_step(s@, start as int, i as int);
        }
        if acc > 0x0fff_ffff_ffff_ffff_ffff_ffff_ffff_ffff {
            proof {
                let k = i + 1 - start;
                assert(digits.take(k) =~= s@.subrange(start as int, i + 1));
                lemma_hex_value_prefix_le(digits, k);
            }
            return None;
        }
        acc = acc * 16 + d as u128;
        i = i + 1;
    }
    assert forall|j: int| 0 <= j < digits.len() implies is_hex_digit(#[trigger] digits[j]) by {
        assert(digits[j] == s@[j + start]);
    }
    assert(s@.subrange(start as int, i as int) =~= digits);
    Some(acc)
}

/// `u128::from_str_radix(s, 16).unwrap_or(0)`.
pub fn hex_to_u128_or_zero(s: &[u8]) -> (value: u128)
    ensures
        value == hex_u128_or_zero(s@),
{
    match parse_hex_u128(s) {
        Some(v) => v,
        None => 0,
    }
}

/// `u64::from_str_radix(s, 16).ok()`.
pub fn parse_hex_u64(s: &[u8]) -> (value: Option<u64>)
    ensures
        match value {
            Some(v) => parse_radix16(s@, u64_bound()) == Some(v as nat),
            None => parse_radix16(s@, u64_bound()) is None,
        },
{
    match parse_hex_u128(s) {
        Some(v) => {
            if v <= 0xffff_ffff_ffff_ffff {
                Some(v as u64)
            } else {
                None
            }
        },
        None => None,
    }
}

/// `u64::from_str_radix(s, 16).unwrap_or(0)`.
pub fn hex_to_u64_or_zero(s: &[u8]) -> (value: u64)
    ensures
        value == hex_u64_or_zero(s@),
{
    match parse_hex_u128(s) {
        Some(v) => {
            if v <= 0xffff_ffff_ffff_ffff {
                v as u64
            } else {
                0
            }
        },
        None => 0,
    }
}

} // verus!

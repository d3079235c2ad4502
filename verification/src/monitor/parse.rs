use vstd::prelude::*;
use vstd::arithmetic::div_mod::lemma_breakdown;
use vstd::arithmetic::power::{pow, lemma_pow_positive};
use crate::monitor::format::{digits, hex_digit};

verus! {

/// ASCII hex digit test.
pub open spec fn is_hex_digit(c: u8) -> bool {
    (48 <= c <= 57) || (65 <= c <= 70) || (97 <= c <= 102)
}

/// Value of an ASCII hex digit.
pub open spec fn hex_digit_value(c: u8) -> int {
    if 48 <= c <= 57 {
        c - 48
    } else if 65 <= c <= 70 {
        c - 55
    } else {
        c - 87
    }
}

/// Value of a big-endian string of hex digits.
pub open spec fn hex_value(s: Seq<u8>) -> int
    decreases s.len(),
{
    if s.len() == 0 {
        0
    } else {
        hex_value(s.drop_last()) * 16 + hex_digit_value(s.last())
    }
}

#[derive(Clone, Copy, PartialEq, Eq, Structural)]
pub enum ParseError {
    InvalidDigit { position: usize },
    Overflow,
}

proof fn lemma_hex_value_nonneg(s: Seq<u8>)
    requires
        forall|i: int| 0 <= i < s.len() ==> is_hex_digit(s[i]),
    ensures
        hex_value(s) >= 0,
    decreases s.len(),
{
    if s.len() > 0 {
        lemma_hex_value_nonneg(s.drop_last());
    }
}

/// A longer string of hex digits is worth at least as much as its prefix.
proof fn lemma_hex_value_prefix(s: Seq<u8>, k: int)
    requires
        0 <= k <= s.len(),
        forall|i: int| 0 <= i < s.len() ==> is_hex_digit(s[i]),
    ensures
        hex_value(s) >= hex_value(s.subrange(0, k)),
    decreases s.len() - k,
{
    lemma_hex_value_nonneg(s.subrange(0, k));
    if k < s.len() {
        lemma_hex_value_prefix(s, k + 1);
        let p = s.subrange(0, k + 1);
        assert(p.drop_last() =~= s.subrange(0, k));
        assert(is_hex_digit(p.last()));
        assert(hex_value(p) == hex_value(s.subrange(0, k)) * 16 + hex_digit_value(p.last()));
    } else {
        assert(s.subrange(0, k) =~= s);
    }
}

/// Position of the first byte of `s` from `i` on that is not a hex digit, or the length.
pub open spec fn first_non_hex(s: Seq<u8>, i: nat) -> nat
    decreases s.len() - i,
{
    if i >= s.len() {
        s.len()
    } else if !is_hex_digit(s[i as int]) {
        i
    } else {
        first_non_hex(s, i + 1)
    }
}

proof fn lemma_first_non_hex(s: Seq<u8>, i: nat)
    requires
        i <= s.len(),
    ensures
        i <= first_non_hex(s, i) <= s.len(),
        forall|j: int| i <= j < first_non_hex(s, i) ==> is_hex_digit(s[j]),
        first_non_hex(s, i) < s.len() ==> !is_hex_digit(s[first_non_hex(s, i) as int]),
    decreases s.len() - i,
{
    if i < s.len() && is_hex_digit(s[i as int]) {
        lemma_first_non_hex(s, i + 1);
    }
}

/// A string of hex digits is read to its end.
pub proof fn lemma_all_hex(s: Seq<u8>)
    requires
        forall|i: int| 0 <= i < s.len() ==> is_hex_digit(s[i]),
    ensures
        first_non_hex(s, 0) == s.len(),
        s.subrange(0, s.len() as int) == s,
{
    lemma_first_non_hex(s, 0);
    assert(s.subrange(0, s.len() as int) =~= s);
}

/// Parses big-endian hex digits into a `usize`: the digits up to the first other byte
/// are read; if their value does not fit, the result is an overflow, else an other byte
/// is an invalid digit at its position.
pub fn from_hex_be_usize(s: &[u8]) -> (r: Result<usize, ParseError>)
    ensures
        ({
            let k = first_non_hex(s@, 0);
            let v = hex_value(s@.subrange(0, k as int));
            if v > usize::MAX {
                r == Err::<usize, ParseError>(ParseError::Overflow)
            } else if k < s@.len() {
                r == Err::<usize, ParseError>(ParseError::InvalidDigit { position: k as usize })
            } else {
                r == Ok::<usize, ParseError>(v as usize)
            }
        }),
{
    proof { lemma_first_non_hex(s@, 0); }
    let ghost k = first_non_hex(s@, 0) as int;
    let mut value: usize = 0;
    let mut i: usize = 0;
    while i < s.len()
        invariant
            i <= s@.len(),
            k == first_non_hex(s@, 0),
            0 <= k <= s@.len(),
            forall|j: int| 0 <= j < k ==> is_hex_digit(s@[j]),
            k < s@.len() ==> !is_hex_digit(s@[k]),
            forall|j: int| 0 <= j < i ==> is_hex_digit(s@[j]),
            i <= k,
            value == hex_value(s@.subrange(0, i as int)),
        decreases s@.len() - i,
    {
        let c = s[i];
        let d: usize = if 48 <= c && c <= 57 {
            (c - 48) as usize
        } else if 65 <= c && c <= 70 {
            (c - 55) as usize
        } else if 97 <= c && c <= 102 {
            (c - 87) as usize
        } else {
            assert(k == i);
            return Err(ParseError::InvalidDigit { position: i });
        };
        assert(i < k);
        assert(s@.subrange(0, i + 1).drop_last() =~= s@.subrange(0, i as int));
        let shifted = value.checked_mul(16);
        let next = match shifted {
            None => None,
            Some(m) => m.checked_add(d),
        };
        match next {
            None => {
                proof {
                    let pk = s@.subrange(0, k);
                    lemma_hex_value_prefix(pk, i + 1);
                    assert(pk.subrange(0, i + 1) =~= s@.subrange(0, i + 1));
                }
                return Err(ParseError::Overflow);
            },
            Some(v) => {
                value = v;
            },
        }
        i += 1;
    }
    assert(s@.subrange(0, s@.len() as int) =~= s@);
    Ok(value)
}

/// The hex digits written for a value read back as that value, modulo the place value
/// of the digit count: the lowest `n` hex digits of `v` are all hex digits, and their
/// value is `v % 16^n`.
pub proof fn lemma_hex_digits_read_back(v: nat, n: nat)
    ensures
        digits(v, n, 16).len() == n,
        forall|i: int| 0 <= i < n ==> is_hex_digit(#[trigger] digits(v, n, 16)[i]),
        hex_value(digits(v, n, 16)) == (v as int) % pow(16, n),
    decreases n,
{
    reveal(pow);
    if n == 0 {
        assert(pow(16, 0) == 1);
    } else {
        let m = (n - 1) as nat;
        lemma_hex_digits_read_back(v / 16, m);
        let s = digits(v / 16, m, 16);
        let d = digits(v, n, 16);
        let low = (v % 16) as int;
        assert(d == s.push(hex_digit(low)));
        assert(d.drop_last() =~= s);
        assert(is_hex_digit(hex_digit(low)) && hex_digit_value(hex_digit(low)) == low);
        assert forall|i: int| 0 <= i < n implies is_hex_digit(#[trigger] d[i]) by {
            if i < m {
                assert(d[i] == s[i]);
            }
        }
        lemma_pow_positive(16, m);
        lemma_breakdown(v as int, 16, pow(16, m));
        assert(pow(16, n) == 16 * pow(16, m));
        assert(hex_value(d) == hex_value(s) * 16 + low);
    }
}

/// Sixteen hex digits of a 64 bit value that fits in `usize` read back as the value:
/// `from_hex_be_usize` of what `to_hex_usize` writes is `Ok` of the value.
pub proof fn lemma_hex_round_trip(v: u64)
    requires
        v <= usize::MAX,
    ensures
        first_non_hex(digits(v as nat, 16, 16), 0) == 16,
        hex_value(digits(v as nat, 16, 16).subrange(0, 16)) == v,
{
    let d = digits(v as nat, 16, 16);
    lemma_hex_digits_read_back(v as nat, 16);
    lemma_all_hex(d);
    assert(pow(16, 16) == 0x1_0000_0000_0000_0000) by {
        reveal_with_fuel(pow, 17);
    }
}

} // verus!

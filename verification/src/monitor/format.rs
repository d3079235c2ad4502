use vstd::prelude::*;

verus! {

/// What happens to the zeros in front of the first significant digit.
#[derive(Clone, Copy, PartialEq, Eq, Structural)]
pub enum LeadingZeros {
    Keep,
    Skip,
    Space,
}

#[derive(Clone, Copy, PartialEq, Eq, Structural)]
pub struct Formatting {
    pub leading_zeros: LeadingZeros,
}

impl Formatting {
    /// Keeps leading zeros.
    pub fn default() -> (r: Self)
        ensures
            r.leading_zeros == LeadingZeros::Keep,
    {
        Formatting { leading_zeros: LeadingZeros::Keep }
    }
}

/// Number of hex digits of a 64 bit value.
pub const HEX_LEN: usize = 16;
/// Number of decimal digits of the largest 64 bit value.
pub const DECIMAL_LEN: usize = 20;

/// ASCII digit for `n` in base 16 (upper case letters).
pub open spec fn hex_digit(n: int) -> u8 {
    if n < 10 { (48 + n) as u8 } else { (55 + n) as u8 }
}

/// The lowest `n` digits of `v` in `base`, most significant first, as ASCII.
pub open spec fn digits(v: nat, n: nat, base: nat) -> Seq<u8>
    decreases n,
{
    if n == 0 || base == 0 {
        Seq::empty()
    } else {
        digits(v / base, (n - 1) as nat, base).push(hex_digit((v % base) as int))
    }
}

proof fn lemma_digits_len(v: nat, n: nat, base: nat)
    requires
        base > 0,
    ensures
        digits(v, n, base).len() == n,
    decreases n,
{
    if n > 0 {
        lemma_digits_len(v / base, (n - 1) as nat, base);

    }
}

/// Writes the lowest `n` digits of `v` in `base` (2, 10 or 16).
fn to_digits(v: u64, n: usize, base: u64) -> (r: Vec<u8>)
    requires
        2 <= base <= 16,
    ensures
        r@ == digits(v as nat, n as nat, base as nat),
{
    let mut out: Vec<u8> = Vec::new();
    let mut k: usize = 0;
    while k < n
        invariant
            k <= n,
            2 <= base <= 16,
            out@.len() == k,
        decreases n - k,
    {
        k += 1;
        out.push(0);
    }
    // fill from the right
    let mut rest: u64 = v;
    let mut pos: usize = n;
    let ghost full = digits(v as nat, n as nat, base as nat);
    proof { lemma_digits_len(v as nat, n as nat, base as nat); }
    while pos > 0
        invariant
            pos <= n,
            out@.len() == n,
            2 <= base <= 16,
            full == digits(v as nat, n as nat, base as nat),
            full.len() == n,
            digits(rest as nat, pos as nat, base as nat) == full.subrange(0, pos as int),
            forall|i: int| pos <= i < n ==> out@[i] == full[i],
        decreases pos,
    {
        let d = (rest % base) as u8;
        let c: u8 = if d < 10 { 48 + d } else { 55 + d };
        proof {
            let sub = digits(rest as nat, pos as nat, base as nat);
            assert(sub == digits(rest as nat / base as nat, (pos - 1) as nat, base as nat).push(hex_digit((rest as nat % base as nat) as int)));
            assert(sub[pos - 1] == full[pos - 1]);
            assert(full.subrange(0, pos - 1) =~= sub.subrange(0, pos - 1));
        }
        out.set(pos - 1, c);
        rest = rest / base;
        pos -= 1;
    }
    assert(out@ =~= full);
    out
}

/// Two hex digits of a byte.
pub fn to_hex_u8(value: u8) -> (r: Vec<u8>)
    ensures
        r@ == digits(value as nat, 2, 16),
{
    to_digits(value as u64, 2, 16)
}

/// Sixteen hex digits of a 64 bit value.
pub fn to_hex_usize(value: u64) -> (r: Vec<u8>)
    ensures
        r@ == digits(value as nat, HEX_LEN as nat, 16),
{
    to_digits(value, HEX_LEN, 16)
}

/// Twenty decimal digits of a 64 bit value.
pub fn to_decimal_usize(value: u64) -> (r: Vec<u8>)
    ensures
        r@ == digits(value as nat, DECIMAL_LEN as nat, 10),
{
    to_digits(value, DECIMAL_LEN, 10)
}

/// Eight binary digits of a byte.
pub fn to_binary(value: u8) -> (r: Vec<u8>)
    ensures
        r@ == digits(value as nat, 8, 2),
{
    to_digits(value as u64, 8, 2)
}

/// Number of hex digits of a 64 bit value.
pub fn hex_len_val(_value: &u64) -> (r: usize)
    ensures
        r == HEX_LEN,
{
    HEX_LEN
}

/// Index of the first byte that is not the ASCII digit zero.
pub open spec fn first_non_zero(s: Seq<u8>) -> nat
    decreases s.len(),
{
    if s.len() == 0 {
        0
    } else if s[0] != 48 {
        0
    } else {
        1 + first_non_zero(s.subrange(1, s.len() as int))
    }
}

pub proof fn lemma_first_non_zero(s: Seq<u8>)
    ensures
        first_non_zero(s) <= s.len(),
        forall|i: int| 0 <= i < first_non_zero(s) ==> s[i] == 48,
        first_non_zero(s) < s.len() ==> s[first_non_zero(s) as int] != 48,
    decreases s.len(),
{
    if s.len() > 0 && s[0] == 48 {
        let t = s.subrange(1, s.len() as int);
        lemma_first_non_zero(t);
        assert forall|i: int| 0 <= i < first_non_zero(s) implies s[i] == 48 by {
            if i > 0 {
                assert(s[i] == t[i - 1]);
            }
        }
    }
}

/// `s` without its leading zeros.
pub open spec fn skip_leading_zeros(s: Seq<u8>) -> Seq<u8> {
    s.subrange(first_non_zero(s) as int, s.len() as int)
}

/// `s` with its leading zeros replaced by spaces.
pub open spec fn space_leading_zeros(s: Seq<u8>) -> Seq<u8> {
    Seq::new(first_non_zero(s), |i: int| 32u8) + skip_leading_zeros(s)
}

} // verus!

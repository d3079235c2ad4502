use vstd::prelude::*;

verus! {

/// Mask with the lowest `width` bits set.
pub open spec fn low_mask64(width: u64) -> u64 {
    ((1u64 << width) - 1u64) as u64
}

/// The `width`-bit field starting at bit `lsb` of `value`.
pub open spec fn field64(value: u64, lsb: u64, width: u64) -> u64 {
    (value >> lsb) & low_mask64(width)
}

/// `value` with the `width`-bit field at `lsb` replaced by the low `width` bits of `field`.
pub open spec fn with_field64(value: u64, lsb: u64, width: u64, field: u64) -> u64 {
    (value & !(low_mask64(width) << lsb)) | ((field & low_mask64(width)) << lsb)
}

pub open spec fn valid_field64(lsb: u64, width: u64) -> bool {
    0 < width && width < 64 && lsb + width <= 64
}

pub proof fn lemma_shl_one_pos64(width: u64)
    requires
        width < 64,
    ensures
        1u64 << width >= 1,
{
    assert(1u64 << width >= 1) by (bit_vector)
        requires width < 64;
}

/// Reads the `width`-bit field at bit `lsb`.
pub fn get_field64(value: u64, lsb: u64, width: u64) -> (r: u64)
    requires
        valid_field64(lsb, width),
    ensures
        r == field64(value, lsb, width),
{
    proof { lemma_shl_one_pos64(width); }
    (value >> lsb) & ((1u64 << width) - 1)
}

/// Writes the low `width` bits of `field` into the field at bit `lsb`.
pub fn set_field64(value: u64, lsb: u64, width: u64, field: u64) -> (r: u64)
    requires
        valid_field64(lsb, width),
    ensures
        r == with_field64(value, lsb, width, field),
{
    proof { lemma_shl_one_pos64(width); }
    let m: u64 = (1u64 << width) - 1;
    (value & !(m << lsb)) | ((field & m) << lsb)
}

/// Reading back a field gives what was written, truncated to the field's width.
pub proof fn lemma_field64_read_write(value: u64, lsb: u64, width: u64, field: u64)
    requires
        valid_field64(lsb, width),
    ensures
        field64(with_field64(value, lsb, width, field), lsb, width) == field & low_mask64(width),
{
    assert(field64(with_field64(value, lsb, width, field), lsb, width) == field & low_mask64(width))
        by (bit_vector)
        requires 0 < width && width < 64 && lsb + width <= 64;
}

/// Writing a field leaves every field that does not overlap it unchanged.
pub proof fn lemma_field64_disjoint(value: u64, lsb: u64, width: u64, field: u64, lsb2: u64, width2: u64)
    requires
        valid_field64(lsb, width),
        valid_field64(lsb2, width2),
        lsb + width <= lsb2 || lsb2 + width2 <= lsb,
    ensures
        field64(with_field64(value, lsb, width, field), lsb2, width2) == field64(value, lsb2, width2),
{
    assert(field64(with_field64(value, lsb, width, field), lsb2, width2) == field64(value, lsb2, width2))
        by (bit_vector)
        requires
            0 < width && width < 64 && lsb + width <= 64,
            0 < width2 && width2 < 64 && lsb2 + width2 <= 64,
            lsb + width <= lsb2 || lsb2 + width2 <= lsb;
}

/// An address whose bits below `lsb` are clear and that fits below bit `lsb + width`
/// survives being stored in a field (shifted down by `lsb`) and read back (shifted up).
pub proof fn lemma_field64_address_round_trip(addr: u64, lsb: u64, width: u64)
    requires
        valid_field64(lsb, width),
        addr & low_mask64(lsb) == 0,
        addr >> (lsb + width) == 0,
    ensures
        ((addr >> lsb) & low_mask64(width)) << lsb == addr,
{
    assert(((addr >> lsb) & low_mask64(width)) << lsb == addr) by (bit_vector)
        requires
            0 < width && width < 64 && lsb + width <= 64,
            addr & low_mask64(lsb) == 0,
            addr >> (lsb + width) == 0;
}

/// Mask with the lowest `width` bits set (32-bit registers).
pub open spec fn low_mask32(width: u32) -> u32 {
    ((1u32 << width) - 1u32) as u32
}

pub open spec fn field32(value: u32, lsb: u32, width: u32) -> u32 {
    (value >> lsb) & low_mask32(width)
}

pub open spec fn with_field32(value: u32, lsb: u32, width: u32, field: u32) -> u32 {
    (value & !(low_mask32(width) << lsb)) | ((field & low_mask32(width)) << lsb)
}

pub open spec fn valid_field32(lsb: u32, width: u32) -> bool {
    0 < width && width < 32 && lsb + width <= 32
}

/// Whether bit `n` of a 32-bit value is set.
pub open spec fn bit32(value: u32, n: u32) -> bool {
    (value >> n) & 1u32 == 1u32
}

pub proof fn lemma_shl_one_pos32(width: u32)
    requires
        width < 32,
    ensures
        1u32 << width >= 1,
{
    assert(1u32 << width >= 1) by (bit_vector)
        requires width < 32;
}

pub proof fn lemma_field32_read_write(value: u32, lsb: u32, width: u32, field: u32)
    requires
        valid_field32(lsb, width),
    ensures
        field32(with_field32(value, lsb, width, field), lsb, width) == field & low_mask32(width),
{
    assert(field32(with_field32(value, lsb, width, field), lsb, width) == field & low_mask32(width))
        by (bit_vector)
        requires 0 < width && width < 32 && lsb + width <= 32;
}

pub proof fn lemma_field32_disjoint(value: u32, lsb: u32, width: u32, field: u32, lsb2: u32, width2: u32)
    requires
        valid_field32(lsb, width),
        valid_field32(lsb2, width2),
        lsb + width <= lsb2 || lsb2 + width2 <= lsb,
    ensures
        field32(with_field32(value, lsb, width, field), lsb2, width2) == field32(value, lsb2, width2),
{
    assert(field32(with_field32(value, lsb, width, field), lsb2, width2) == field32(value, lsb2, width2))
        by (bit_vector)
        requires
            0 < width && width < 32 && lsb + width <= 32,
            0 < width2 && width2 < 32 && lsb2 + width2 <= 32,
            lsb + width <= lsb2 || lsb2 + width2 <= lsb;
}

/// No bit of zero is set.
pub proof fn lemma_bit32_zero()
    ensures
        forall|n: u32| n < 32 ==> !#[trigger] bit32(0u32, n),
{
    assert(forall|n: u32| n < 32 ==> !#[trigger] bit32(0u32, n)) by (bit_vector);
}

/// A two-bit code fits the two-bit mask.
pub proof fn lemma_two_bit_code32(code: u32)
    requires
        code < 4,
    ensures
        code & low_mask32(2) == code,
{
    assert(code & low_mask32(2) == code) by (bit_vector)
        requires code < 4;
}

/// A field is at most its mask, and the mask of a field narrower than 32 bits is below
/// the largest `u32`.
pub proof fn lemma_field32_bound(value: u32, lsb: u32, width: u32)
    requires
        valid_field32(lsb, width),
    ensures
        field32(value, lsb, width) <= low_mask32(width),
        low_mask32(width) < u32::MAX,
{
    assert(field32(value, lsb, width) <= low_mask32(width) && low_mask32(width) < u32::MAX) by (bit_vector)
        requires 0 < width && width < 32 && lsb + width <= 32;
}

pub fn get_field32(value: u32, lsb: u32, width: u32) -> (r: u32)
    requires
        valid_field32(lsb, width),
    ensures
        r == field32(value, lsb, width),
{
    proof { lemma_shl_one_pos32(width); }
    (value >> lsb) & ((1u32 << width) - 1)
}

pub fn set_field32(value: u32, lsb: u32, width: u32, field: u32) -> (r: u32)
    requires
        valid_field32(lsb, width),
    ensures
        r == with_field32(value, lsb, width, field),
{
    proof { lemma_shl_one_pos32(width); }
    let m: u32 = (1u32 << width) - 1;
    (value & !(m << lsb)) | ((field & m) << lsb)
}

/// Tests bit `n`.
pub fn bit_test32(value: u32, n: u32) -> (r: bool)
    requires
        n < 32,
    ensures
        r == bit32(value, n),
{
    (value >> n) & 1 == 1
}

/// `value` with bit `n` set.
pub fn with_bit_set32(value: u32, n: u32) -> (r: u32)
    requires
        n < 32,
    ensures
        r == value | (1u32 << n),
        bit32(r, n),
        forall|k: u32| k < 32 && k != n ==> bit32(r, k) == bit32(value, k),
{
    let r = value | (1u32 << n);
    assert(bit32(r, n)) by (bit_vector)
        requires r == value | (1u32 << n), n < 32;
    assert forall|k: u32| k < 32 && k != n implies bit32(r, k) == bit32(value, k) by {
        assert(bit32(r, k) == bit32(value, k)) by (bit_vector)
            requires r == value | (1u32 << n), n < 32, k < 32, k != n;
    }
    r
}

/// `value` with bit `n` cleared.
pub fn with_bit_cleared32(value: u32, n: u32) -> (r: u32)
    requires
        n < 32,
    ensures
        !bit32(r, n),
        forall|k: u32| k < 32 && k != n ==> bit32(r, k) == bit32(value, k),
{
    let r = value & !(1u32 << n);
    assert(!bit32(r, n)) by (bit_vector)
        requires r == value & !(1u32 << n), n < 32;
    assert forall|k: u32| k < 32 && k != n implies bit32(r, k) == bit32(value, k) by {
        assert(bit32(r, k) == bit32(value, k)) by (bit_vector)
            requires r == value & !(1u32 << n), n < 32, k < 32, k != n;
    }
    r
}

} // verus!

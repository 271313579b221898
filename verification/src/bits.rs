//! Single bits and bit fields of 16- and 32-bit words.
//!
//! Hardware registers and in-memory descriptors are described as words in
//! which a field occupies `mask` shifted left by `shift`. The spec functions
//! here say what reading and writing a bit or a field means; the laws below
//! say what a read gives back after a write and that a write leaves every
//! other bit alone.
use vstd::prelude::*;

verus! {

/// Bit `i` of a 32-bit word.
pub open spec fn bit32(v: u32, i: u32) -> bool {
    (v >> i) & 1u32 == 1u32
}

/// The word `v` with bit `i` replaced by `b`.
pub open spec fn with_bit32(v: u32, i: u32, b: bool) -> u32 {
    (v & !(1u32 << i)) | ((if b { 1u32 } else { 0u32 }) << i)
}

/// The field of `v` that starts at bit `shift` and is selected by `mask`.
pub open spec fn field32(v: u32, shift: u32, mask: u32) -> u32 {
    (v >> shift) & mask
}

/// The word `v` with the field at `shift`/`mask` replaced by the low bits of `x`.
pub open spec fn with_field32(v: u32, shift: u32, mask: u32, x: u32) -> u32 {
    (v & !(mask << shift)) | ((x & mask) << shift)
}

/// A mask that survives being shifted to `shift` (no bit falls off the top).
pub open spec fn fits32(shift: u32, mask: u32) -> bool {
    shift < 32 && (mask << shift) >> shift == mask
}

/// Bit `i` of a 16-bit word.
pub open spec fn bit16(v: u16, i: u16) -> bool {
    (v >> i) & 1u16 == 1u16
}

/// The 16-bit word `v` with bit `i` replaced by `b`.
pub open spec fn with_bit16(v: u16, i: u16, b: bool) -> u16 {
    (v & !(1u16 << i)) | ((if b { 1u16 } else { 0u16 }) << i)
}

/// The field of a 16-bit word that starts at `shift` and is selected by `mask`.
pub open spec fn field16(v: u16, shift: u16, mask: u16) -> u16 {
    (v >> shift) & mask
}

/// The 16-bit word `v` with the field at `shift`/`mask` replaced by the low bits of `x`.
pub open spec fn with_field16(v: u16, shift: u16, mask: u16, x: u16) -> u16 {
    (v & !(mask << shift)) | ((x & mask) << shift)
}

/// A 16-bit mask that survives being shifted to `shift`.
pub open spec fn fits16(shift: u16, mask: u16) -> bool {
    shift < 16 && (mask << shift) >> shift == mask
}

/// Reading bit `i` after writing `b` to it gives `b`.
pub proof fn lemma_bit32_after_write(v: u32, i: u32, b: bool)
    requires
        i < 32,
    ensures
        bit32(with_bit32(v, i, b), i) == b,
{
    let c: u32 = if b { 1u32 } else { 0u32 };
    assert(((((v & !(1u32 << i)) | (c << i)) >> i) & 1u32 == 1u32) == (c == 1u32)) by (bit_vector)
        requires
            i < 32,
            c == 0u32 || c == 1u32,
    ;
}

/// Writing bit `i` leaves every other bit as it was.
pub proof fn lemma_bit32_write_frame(v: u32, i: u32, j: u32, b: bool)
    requires
        i < 32,
        j < 32,
        i != j,
    ensures
        bit32(with_bit32(v, i, b), j) == bit32(v, j),
{
    let c: u32 = if b { 1u32 } else { 0u32 };
    assert(((((v & !(1u32 << i)) | (c << i)) >> j) & 1u32 == 1u32) == ((v >> j) & 1u32 == 1u32))
        by (bit_vector)
        requires
            i < 32,
            j < 32,
            i != j,
            c == 0u32 || c == 1u32,
    ;
}

/// A second write of the same bit overrides the first one.
pub proof fn lemma_bit32_write_write(v: u32, i: u32, b: bool, c: bool)
    requires
        i < 32,
    ensures
        with_bit32(with_bit32(v, i, b), i, c) == with_bit32(v, i, c),
{
    let x: u32 = if b { 1u32 } else { 0u32 };
    let y: u32 = if c { 1u32 } else { 0u32 };
    assert((((v & !(1u32 << i)) | (x << i)) & !(1u32 << i)) | (y << i) == (v & !(1u32 << i)) | (y
        << i)) by (bit_vector)
        requires
            i < 32,
            x == 0u32 || x == 1u32,
    ;
}

/// Reading a field after writing `x` to it gives the bits of `x` that the mask selects.
pub proof fn lemma_field32_after_write(v: u32, shift: u32, mask: u32, x: u32)
    requires
        fits32(shift, mask),
    ensures
        field32(with_field32(v, shift, mask, x), shift, mask) == x & mask,
{
    assert((((v & !(mask << shift)) | ((x & mask) << shift)) >> shift) & mask == x & mask)
        by (bit_vector)
        requires
            shift < 32,
            (mask << shift) >> shift == mask,
    ;
}

/// Writing a field leaves every bit outside the field as it was: the bits
/// that `z` selects, a field at `s2`/`m2`, bit `j`, and the word shifted
/// down by `k`, wherever they do not meet the written field.
pub proof fn lemma_field32_write_frame(v: u32, shift: u32, mask: u32, x: u32, z: u32, s2: u32, m2: u32, j: u32, k: u32)
    by (bit_vector)
    ensures
        with_field32(v, shift, mask, x) & !(mask << shift) == v & !(mask << shift),
        (mask << shift) & z == 0 ==> with_field32(v, shift, mask, x) & z == v & z,
        s2 < 32 && (mask << shift) & (m2 << s2) == 0 ==> field32(
            with_field32(v, shift, mask, x),
            s2,
            m2,
        ) == field32(v, s2, m2),
        j < 32 && (mask << shift) & (1u32 << j) == 0 ==> bit32(with_field32(v, shift, mask, x), j) == bit32(v, j),
        k < 32 && (mask << shift) & (0xFFFF_FFFFu32 << k) == 0 ==> with_field32(v, shift, mask, x) >> k == v >> k,
{
}

/// Reading bit `i` of a 16-bit word after writing `b` to it gives `b`.
pub proof fn lemma_bit16_after_write(v: u16, i: u16, b: bool)
    requires
        i < 16,
    ensures
        bit16(with_bit16(v, i, b), i) == b,
{
    let c: u16 = if b { 1u16 } else { 0u16 };
    assert(((((v & !(1u16 << i)) | (c << i)) >> i) & 1u16 == 1u16) == (c == 1u16)) by (bit_vector)
        requires
            i < 16,
            c == 0u16 || c == 1u16,
    ;
}

/// Writing bit `i` of a 16-bit word leaves every other bit as it was.
pub proof fn lemma_bit16_write_frame(v: u16, i: u16, j: u16, b: bool)
    requires
        i < 16,
        j < 16,
        i != j,
    ensures
        bit16(with_bit16(v, i, b), j) == bit16(v, j),
{
    let c: u16 = if b { 1u16 } else { 0u16 };
    assert(((((v & !(1u16 << i)) | (c << i)) >> j) & 1u16 == 1u16) == ((v >> j) & 1u16 == 1u16))
        by (bit_vector)
        requires
            i < 16,
            j < 16,
            i != j,
            c == 0u16 || c == 1u16,
    ;
}

/// Reading a field of a 16-bit word after writing `x` to it gives the selected bits of `x`.
pub proof fn lemma_field16_after_write(v: u16, shift: u16, mask: u16, x: u16)
    requires
        fits16(shift, mask),
    ensures
        field16(with_field16(v, shift, mask, x), shift, mask) == x & mask,
{
    assert((((v & !(mask << shift)) | ((x & mask) << shift)) >> shift) & mask == x & mask)
        by (bit_vector)
        requires
            shift < 16,
            (mask << shift) >> shift == mask,
    ;
}

/// Writing a field of a 16-bit word leaves every bit outside the field as it was.
pub proof fn lemma_field16_write_frame(v: u16, shift: u16, mask: u16, x: u16)
    ensures
        with_field16(v, shift, mask, x) & !(mask << shift) == v & !(mask << shift),
{
    assert(((v & !(mask << shift)) | ((x & mask) << shift)) & !(mask << shift) == v & !(mask
        << shift)) by (bit_vector);
}

/// Two words that agree on every bit are equal.
pub proof fn lemma_bit32_ext(x: u32, y: u32)
    requires
        forall|j: u32| j < 32 ==> #[trigger] bit32(x, j) == bit32(y, j),
    ensures
        x == y,
{
    assert(bit32(x, 0u32) == bit32(y, 0u32));
    assert(bit32(x, 1u32) == bit32(y, 1u32));
    assert(bit32(x, 2u32) == bit32(y, 2u32));
    assert(bit32(x, 3u32) == bit32(y, 3u32));
    assert(bit32(x, 4u32) == bit32(y, 4u32));
    assert(bit32(x, 5u32) == bit32(y, 5u32));
    assert(bit32(x, 6u32) == bit32(y, 6u32));
    assert(bit32(x, 7u32) == bit32(y, 7u32));
    assert(bit32(x, 8u32) == bit32(y, 8u32));
    assert(bit32(x, 9u32) == bit32(y, 9u32));
    assert(bit32(x, 10u32) == bit32(y, 10u32));
    assert(bit32(x, 11u32) == bit32(y, 11u32));
    assert(bit32(x, 12u32) == bit32(y, 12u32));
    assert(bit32(x, 13u32) == bit32(y, 13u32));
    assert(bit32(x, 14u32) == bit32(y, 14u32));
    assert(bit32(x, 15u32) == bit32(y, 15u32));
    assert(bit32(x, 16u32) == bit32(y, 16u32));
    assert(bit32(x, 17u32) == bit32(y, 17u32));
    assert(bit32(x, 18u32) == bit32(y, 18u32));
    assert(bit32(x, 19u32) == bit32(y, 19u32));
    assert(bit32(x, 20u32) == bit32(y, 20u32));
    assert(bit32(x, 21u32) == bit32(y, 21u32));
    assert(bit32(x, 22u32) == bit32(y, 22u32));
    assert(bit32(x, 23u32) == bit32(y, 23u32));
    assert(bit32(x, 24u32) == bit32(y, 24u32));
    assert(bit32(x, 25u32) == bit32(y, 25u32));
    assert(bit32(x, 26u32) == bit32(y, 26u32));
    assert(bit32(x, 27u32) == bit32(y, 27u32));
    assert(bit32(x, 28u32) == bit32(y, 28u32));
    assert(bit32(x, 29u32) == bit32(y, 29u32));
    assert(bit32(x, 30u32) == bit32(y, 30u32));
    assert(bit32(x, 31u32) == bit32(y, 31u32));
    assert(x == y) by (bit_vector)
        requires
            bit32(x, 0u32) == bit32(y, 0u32),
            bit32(x, 1u32) == bit32(y, 1u32),
            bit32(x, 2u32) == bit32(y, 2u32),
            bit32(x, 3u32) == bit32(y, 3u32),
            bit32(x, 4u32) == bit32(y, 4u32),
            bit32(x, 5u32) == bit32(y, 5u32),
            bit32(x, 6u32) == bit32(y, 6u32),
            bit32(x, 7u32) == bit32(y, 7u32),
            bit32(x, 8u32) == bit32(y, 8u32),
            bit32(x, 9u32) == bit32(y, 9u32),
            bit32(x, 10u32) == bit32(y, 10u32),
            bit32(x, 11u32) == bit32(y, 11u32),
            bit32(x, 12u32) == bit32(y, 12u32),
            bit32(x, 13u32) == bit32(y, 13u32),
            bit32(x, 14u32) == bit32(y, 14u32),
            bit32(x, 15u32) == bit32(y, 15u32),
            bit32(x, 16u32) == bit32(y, 16u32),
            bit32(x, 17u32) == bit32(y, 17u32),
            bit32(x, 18u32) == bit32(y, 18u32),
            bit32(x, 19u32) == bit32(y, 19u32),
            bit32(x, 20u32) == bit32(y, 20u32),
            bit32(x, 21u32) == bit32(y, 21u32),
            bit32(x, 22u32) == bit32(y, 22u32),
            bit32(x, 23u32) == bit32(y, 23u32),
            bit32(x, 24u32) == bit32(y, 24u32),
            bit32(x, 25u32) == bit32(y, 25u32),
            bit32(x, 26u32) == bit32(y, 26u32),
            bit32(x, 27u32) == bit32(y, 27u32),
            bit32(x, 28u32) == bit32(y, 28u32),
            bit32(x, 29u32) == bit32(y, 29u32),
            bit32(x, 30u32) == bit32(y, 30u32),
            bit32(x, 31u32) == bit32(y, 31u32),
    ;
}

/// The mask of the `n` lowest bits (`n <= 32`).
pub open spec fn low_mask32(n: u32) -> u32 {
    ((1u64 << n) - 1u64) as u32
}

/// Bit `j` of the mask of `n` bits moved to `o` is set exactly inside `[o, o + n)`.
pub proof fn lemma_run_mask_bit(n: u32, o: u32, j: u32)
    requires
        n + o <= 32,
        j < 32,
    ensures
        bit32(low_mask32(n) << o, j) == (o <= j && j < o + n),
{
    assert(((((((1u64 << n) - 1u64) as u32) << o) >> j) & 1u32 == 1u32) == (o <= j && j < o + n))
        by (bit_vector)
        requires
            n + o <= 32,
            j < 32,
    ;
}

/// Bits of an or.
pub proof fn lemma_bit32_or(x: u32, y: u32, j: u32)
    requires
        j < 32,
    ensures
        bit32(x | y, j) == (bit32(x, j) || bit32(y, j)),
{
    assert((((x | y) >> j) & 1u32 == 1u32) == (((x >> j) & 1u32 == 1u32) || ((y >> j) & 1u32
        == 1u32))) by (bit_vector)
        requires
            j < 32,
    ;
}

/// Bits of an and.
pub proof fn lemma_bit32_and(x: u32, y: u32, j: u32)
    requires
        j < 32,
    ensures
        bit32(x & y, j) == (bit32(x, j) && bit32(y, j)),
{
    assert((((x & y) >> j) & 1u32 == 1u32) == (((x >> j) & 1u32 == 1u32) && ((y >> j) & 1u32
        == 1u32))) by (bit_vector)
        requires
            j < 32,
    ;
}

/// Bits of a complement.
pub proof fn lemma_bit32_not(x: u32, j: u32)
    requires
        j < 32,
    ensures
        bit32(!x, j) == !bit32(x, j),
{
    assert((((!x) >> j) & 1u32 == 1u32) == !((x >> j) & 1u32 == 1u32)) by (bit_vector)
        requires
            j < 32,
    ;
}

/// The zero word has no bit set, the all-ones word has every bit set.
pub proof fn lemma_bit32_const(j: u32)
    requires
        j < 32,
    ensures
        !bit32(0u32, j),
        bit32(0xFFFF_FFFFu32, j),
{
    assert(((0u32 >> j) & 1u32 != 1u32) && ((0xFFFF_FFFFu32 >> j) & 1u32 == 1u32)) by (bit_vector)
        requires
            j < 32,
    ;
}

/// Test of bit `i` of a 32-bit word.
pub fn test_bit32(v: u32, i: u32) -> (r: bool)
    requires
        i < 32,
    ensures
        r == bit32(v, i),
{
    (v >> i) & 1 == 1
}

/// `v` with bit `i` replaced by `b`.
pub fn write_bit32(v: u32, i: u32, b: bool) -> (r: u32)
    requires
        i < 32,
    ensures
        r == with_bit32(v, i, b),
{
    let c: u32 = if b { 1 } else { 0 };
    (v & !(1u32 << i)) | (c << i)
}

/// The field of `v` at `shift`/`mask`.
pub fn read_field32(v: u32, shift: u32, mask: u32) -> (r: u32)
    requires
        shift < 32,
    ensures
        r == field32(v, shift, mask),
{
    (v >> shift) & mask
}

/// `v` with the field at `shift`/`mask` replaced by the selected bits of `x`.
pub fn write_field32(v: u32, shift: u32, mask: u32, x: u32) -> (r: u32)
    requires
        shift < 32,
    ensures
        r == with_field32(v, shift, mask, x),
{
    (v & !(mask << shift)) | ((x & mask) << shift)
}

/// A field is no larger than its mask.
pub proof fn lemma_field32_bound(v: u32, shift: u32, mask: u32)
    ensures
        field32(v, shift, mask) <= mask,
{
    assert((v >> shift) & mask <= mask) by (bit_vector);
}

/// Test of bit `i` of a 16-bit word.
pub fn test_bit16(v: u16, i: u16) -> (r: bool)
    requires
        i < 16,
    ensures
        r == bit16(v, i),
{
    (v >> i) & 1 == 1
}

/// The 16-bit word `v` with bit `i` replaced by `b`.
pub fn write_bit16(v: u16, i: u16, b: bool) -> (r: u16)
    requires
        i < 16,
    ensures
        r == with_bit16(v, i, b),
{
    let c: u16 = if b { 1 } else { 0 };
    (v & !(1u16 << i)) | (c << i)
}

/// The field of a 16-bit word at `shift`/`mask`.
pub fn read_field16(v: u16, shift: u16, mask: u16) -> (r: u16)
    requires
        shift < 16,
    ensures
        r == field16(v, shift, mask),
{
    (v >> shift) & mask
}

/// The 16-bit word `v` with the field at `shift`/`mask` replaced by the selected bits of `x`.
pub fn write_field16(v: u16, shift: u16, mask: u16, x: u16) -> (r: u16)
    requires
        shift < 16,
    ensures
        r == with_field16(v, shift, mask, x),
{
    (v & !(mask << shift)) | ((x & mask) << shift)
}

} // verus!

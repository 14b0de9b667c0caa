//! Bit utilities shared by the register file, the memory map and the decoders.

use vstd::prelude::*;

verus! {

/// The mask that selects bits `start..=end` of a word.
pub open spec fn range_mask(start: u8, end: u8) -> u32
    recommends
        start <= end < 32,
{
    if end - start == 31 {
        0xFFFF_FFFFu32
    } else {
        (((1u32 << ((end - start + 1) as u32)) - 1) as u32) << (start as u32)
    }
}

proof fn lemma_shift_one(len: u32)
    by (bit_vector)
    requires
        1 <= len < 32,
    ensures
        1u32 << len >= 1,
{
}

/// Computes the mask that selects bits `start..=end` of a word.
pub fn mask_of_range(start: u8, end: u8) -> (mask: u32)
    requires
        start <= end < 32,
    ensures
        mask == range_mask(start, end),
{
    if end - start == 31 {
        0xFFFF_FFFFu32
    } else {
        let len: u32 = (end - start + 1) as u32;
        proof {
            lemma_shift_one(len);
        }
        ((1u32 << len) - 1) << (start as u32)
    }
}

proof fn lemma_bits_in_range(original: u32, start: u32, end: u32, new_value: u32, index: u32)
    by (bit_vector)
    requires
        start <= end < 32,
        index < 32,
    ensures
        ({
            let mask = if end - start == 31 {
                0xFFFF_FFFFu32
            } else {
                (((1u32 << ((end - start + 1) as u32)) - 1) as u32) << start
            };
            let res = (original & !mask) | ((new_value << start) & mask);
            ((res >> index) & 1 == 1) == if start <= index && index <= end {
                (new_value >> ((index - start) as u32)) & 1 == 1
            } else {
                (original >> index) & 1 == 1
            }
        }),
{
}

/// Replaces bits `start..=end` of `original` by the low bits of `new_value`,
/// leaving every other bit as it was: bit `start + k` of the result is bit
/// `k` of `new_value`, and a bit outside the range is that of `original`.
pub fn set_bits_in_range(original: u32, start: u8, end: u8, new_value: u32) -> (res: u32)
    requires
        start <= end < 32,
    ensures
        res == (original & !range_mask(start, end)) | ((new_value << (start as u32)) & range_mask(
            start,
            end,
        )),
        forall|index: u32|
            index < 32 ==> #[trigger] bit_of(res, index) == if start <= index <= end {
                bit_of(new_value, (index - start) as u32)
            } else {
                bit_of(original, index)
            },
{
    let mask = mask_of_range(start, end);
    let res = (original & !mask) | ((new_value << (start as u32)) & mask);
    assert forall|index: u32| index < 32 implies #[trigger] bit_of(res, index) == if start
        <= index <= end {
        bit_of(new_value, (index - start) as u32)
    } else {
        bit_of(original, index)
    } by {
        lemma_bits_in_range(original, start as u32, end as u32, new_value, index);
    }
    res
}

/// Facts about masking that the default solver does not know.
pub proof fn lemma_and_bounded(x: u32, mask: u32)
    by (bit_vector)
    ensures
        x & mask <= mask,
        x & mask <= x,
{
}

/// The field of `x` that starts at bit `shift` and is selected by `mask` once it
/// has been moved down to bit 0.
pub fn field(x: u32, shift: u32, mask: u32) -> (r: u32)
    requires
        shift < 32,
    ensures
        r == (x >> shift) & mask,
        r <= mask,
{
    proof {
        lemma_and_bounded(x >> shift, mask);
    }
    (x >> shift) & mask
}

/// Whether bit `index` of `x` is set.
pub open spec fn bit_of(x: u32, index: u32) -> bool {
    (x >> index) & 1 == 1
}

/// Tests bit `index` of `x`.
pub fn bit_set(x: u32, index: u32) -> (b: bool)
    requires
        index < 32,
    ensures
        b == bit_of(x, index),
{
    (x >> index) & 1 == 1
}

/// `x` rotated right by `amount` bit positions, the amount taken modulo 32.
pub open spec fn ror32(x: u32, amount: u32) -> u32 {
    if amount % 32 == 0 {
        x
    } else {
        (x >> (amount % 32)) | (x << ((32 - amount % 32) as u32))
    }
}

proof fn lemma_rotated_bits(x: u32, n: u32, index: u32)
    by (bit_vector)
    requires
        0 < n < 32,
        index < 32,
    ensures
        ((((x >> n) | (x << ((32 - n) as u32))) >> index) & 1 == 1) == ((x >> ((index + n) as u32
            % 32)) & 1 == 1),
{
}

/// A rotation moves every bit down by the amount, and round to the top from
/// the bottom: bit `index` of the result is bit `index + amount`, counted
/// modulo 32, of `x`.
pub proof fn lemma_ror32_bits(x: u32, amount: u32, index: u32)
    requires
        index < 32,
    ensures
        bit_of(ror32(x, amount), index) == bit_of(x, ((index + amount) % 32) as u32),
{
    if amount % 32 != 0 {
        lemma_rotated_bits(x, amount % 32, index);
    }
}

/// Rotates `x` right by `amount` bit positions, the amount taken modulo 32.
pub fn rotate_right(x: u32, amount: u32) -> (r: u32)
    ensures
        r == ror32(x, amount),
{
    let n: u32 = amount % 32;
    if n == 0 {
        x
    } else {
        (x >> n) | (x << (32 - n))
    }
}

/// The low `bits` bits of `x` read as a two's complement number and widened to
/// 32 bits: the bits above the sign bit are copies of it.
pub open spec fn sign_extended(x: u32, bits: u32) -> u32
    recommends
        1 <= bits <= 32,
{
    if bits >= 32 {
        x
    } else if (x >> ((bits - 1) as u32)) & 1 == 1 {
        x | (0xFFFF_FFFFu32 << bits)
    } else {
        x & !(0xFFFF_FFFFu32 << bits)
    }
}

proof fn lemma_extended_bits(x: u32, bits: u32, index: u32)
    by (bit_vector)
    requires
        1 <= bits < 32,
        index < 32,
    ensures
        (((x | (0xFFFF_FFFFu32 << bits)) >> index) & 1 == 1) == (index >= bits || (x >> index) & 1
            == 1),
        (((x & !(0xFFFF_FFFFu32 << bits)) >> index) & 1 == 1) == (index < bits && (x >> index) & 1
            == 1),
{
}

/// Sign extension keeps the bits below the sign bit and fills the bits above
/// it with copies of it.
pub proof fn lemma_sign_extended_bits(x: u32, bits: u32, index: u32)
    requires
        1 <= bits <= 32,
        index < 32,
    ensures
        bit_of(sign_extended(x, bits), index) == bit_of(
            x,
            if index < bits {
                index
            } else {
                (bits - 1) as u32
            },
        ),
{
    if bits < 32 {
        lemma_extended_bits(x, bits, index);
    }
}

/// Widens the two's complement number in the low `bits` bits of `x` to 32 bits.
pub fn sign_extend(x: u32, bits: u32) -> (r: u32)
    requires
        1 <= bits <= 32,
    ensures
        r == sign_extended(x, bits),
{
    if bits >= 32 {
        x
    } else if (x >> (bits - 1)) & 1 == 1 {
        x | (0xFFFF_FFFFu32 << bits)
    } else {
        x & !(0xFFFF_FFFFu32 << bits)
    }
}

/// What sign extension means for the two widths that loads use: the result is
/// the 32-bit two's complement form of the signed byte or halfword.
pub proof fn lemma_sign_extended_values(x: u32)
    by (bit_vector)
    ensures
        x & 0xFF < 0x80 ==> sign_extended(x & 0xFF, 8) == x & 0xFF,
        x & 0xFF >= 0x80 ==> sign_extended(x & 0xFF, 8) == 0xFFFF_FF00u32 + (x & 0xFF),
        x & 0xFFFF < 0x8000 ==> sign_extended(x & 0xFFFF, 16) == x & 0xFFFF,
        x & 0xFFFF >= 0x8000 ==> sign_extended(x & 0xFFFF, 16) == 0xFFFF_0000u32 + (x & 0xFFFF),
{
}

/// The number of set bits among the low `n` bits of `x`.
pub open spec fn ones_below(x: u32, n: nat) -> nat
    decreases n,
{
    if n == 0 {
        0
    } else {
        ones_below(x, (n - 1) as nat) + if bit_of(x, (n - 1) as u32) {
            1nat
        } else {
            0nat
        }
    }
}

/// `ones_below` never counts more bits than it looks at.
pub proof fn lemma_ones_below_bound(x: u32, n: nat)
    ensures
        ones_below(x, n) <= n,
    decreases n,
{
    if n > 0 {
        lemma_ones_below_bound(x, (n - 1) as nat);
    }
}

/// Looking at more bits never counts fewer.
pub proof fn lemma_ones_below_monotone(x: u32, n: nat, m: nat)
    requires
        n <= m,
    ensures
        ones_below(x, n) <= ones_below(x, m),
    decreases m,
{
    if n < m {
        lemma_ones_below_monotone(x, n, (m - 1) as nat);
    }
}

/// Counts the set bits among the low `n` bits of `x`.
pub fn count_ones_below(x: u32, n: u32) -> (count: u32)
    requires
        n <= 32,
    ensures
        count == ones_below(x, n as nat),
        count <= n,
{
    let mut count: u32 = 0;
    let mut i: u32 = 0;
    while i < n
        invariant
            i <= n <= 32,
            count == ones_below(x, i as nat),
            count <= i,
        decreases n - i,
    {
        if bit_set(x, i) {
            count = count + 1;
        }
        i = i + 1;
    }
    count
}

} // verus!

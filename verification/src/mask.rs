//! Channel bitmasks: where a color channel sits inside a native pixel.
//!
//! A mask is read as a natural number. Its *run* is the first block of
//! consecutive one bits met when scanning from the least significant bit:
//! the number of zero bits below the block is the run's shift, the number of
//! one bits in the block is its width.

use vstd::prelude::*;
use vstd::arithmetic::div_mod::lemma_div_by_multiple;
use vstd::arithmetic::power2::{
    lemma2_to64, lemma_pow2_adds, lemma_pow2_pos, lemma_pow2_strictly_increases, lemma_pow2_unfold,
    pow2,
};
use vstd::bits::{lemma_low_bits_mask_div2, lemma_low_bits_mask_is_odd, low_bits_mask};

verus! {

/// Number of zero bits below the lowest one bit of `m`; 0 for `m == 0`.
pub open spec fn trailing_zeros(m: nat) -> nat
    decreases m,
{
    if m == 0 || m % 2 == 1 {
        0
    } else {
        1 + trailing_zeros(m / 2)
    }
}

/// Number of consecutive one bits of `m`, counted from the lowest bit.
pub open spec fn trailing_ones(m: nat) -> nat
    decreases m,
{
    if m % 2 == 0 {
        0
    } else {
        1 + trailing_ones(m / 2)
    }
}

/// Offset of the first run of one bits of `mask`.
pub open spec fn mask_shift(mask: nat) -> nat {
    trailing_zeros(mask)
}

/// Length of the first run of one bits of `mask`.
pub open spec fn mask_width(mask: nat) -> nat {
    trailing_ones(mask / pow2(trailing_zeros(mask)))
}

/// The mask made of `width` one bits that start at bit `shift`.
pub open spec fn contiguous_mask(width: nat, shift: nat) -> nat {
    low_bits_mask(width) * pow2(shift)
}

/// A mask is contiguous when it is not empty and its first run is all of it.
pub open spec fn is_contiguous(mask: nat) -> bool {
    mask != 0 && mask == contiguous_mask(mask_width(mask), mask_shift(mask))
}

proof fn lemma_halve_product(half: nat, m: nat, p: nat)
    by (nonlinear_arith)
    requires
        m == 2 * half,
    ensures
        half * (2 * p) == m * p,
{
}

proof fn lemma_even_product(a: nat, p: nat)
    by (nonlinear_arith)
    ensures
        (a * (2 * p)) % 2 == 0,
        (a * (2 * p)) / 2 == a * p,
{
}

proof fn lemma_product_bounds(a: nat, p: nat, limit: nat)
    by (nonlinear_arith)
    requires
        1 <= a,
        a * p <= limit,
    ensures
        p <= limit,
{
}

proof fn lemma_product_positive(a: nat, p: nat)
    by (nonlinear_arith)
    requires
        1 <= a,
        1 <= p,
    ensures
        1 <= a * p,
{
}

/// A run of `width >= 1` ones above `shift` zeros has exactly `shift`
/// trailing zeros.
proof fn lemma_trailing_zeros_of_run(width: nat, shift: nat)
    requires
        width >= 1,
    ensures
        trailing_zeros(contiguous_mask(width, shift)) == shift,
    decreases shift,
{
    let low = low_bits_mask(width);
    lemma_low_bits_mask_is_odd(width);
    if shift == 0 {
        lemma2_to64();
        assert(low * 1 == low);
    } else {
        let below = (shift - 1) as nat;
        lemma_pow2_unfold(shift);
        lemma_pow2_pos(below);
        lemma_even_product(low, pow2(below));
        lemma_product_positive(low, 2 * pow2(below));
        lemma_trailing_zeros_of_run(width, below);
    }
}

/// The number `2^width - 1` has exactly `width` trailing ones.
proof fn lemma_trailing_ones_of_low_bits(width: nat)
    ensures
        trailing_ones(low_bits_mask(width)) == width,
    decreases width,
{
    if width == 0 {
        lemma2_to64();
    } else {
        lemma_low_bits_mask_is_odd(width);
        lemma_low_bits_mask_div2(width);
        lemma_trailing_ones_of_low_bits((width - 1) as nat);
    }
}

/// Every contiguous mask is decoded to the width and shift it was made of.
pub proof fn lemma_contiguous_mask_run(width: nat, shift: nat)
    requires
        width >= 1,
    ensures
        mask_width(contiguous_mask(width, shift)) == width,
        mask_shift(contiguous_mask(width, shift)) == shift,
        is_contiguous(contiguous_mask(width, shift)),
{
    lemma_trailing_zeros_of_run(width, shift);
    lemma_trailing_ones_of_low_bits(width);
    lemma_pow2_pos(shift);
    lemma_div_by_multiple(low_bits_mask(width) as int, pow2(shift) as int);
    lemma_low_bits_mask_is_odd(width);
    lemma_product_positive(low_bits_mask(width), pow2(shift));
}

/// Scans `mask` from its least significant bit and returns the length and
/// the offset of its first run of one bits, as `(width, shift)`. An empty
/// mask gives `(0, 0)`.
pub fn mask_bit_width_and_shift(mask: u64) -> (run: (u32, u32))
    ensures
        run.0 == mask_width(mask as nat),
        run.1 == mask_shift(mask as nat),
        run.0 + run.1 <= 64,
        mask == 0 ==> run.0 == 0 && run.1 == 0,
        mask != 0 ==> run.0 >= 1,
        forall|width: nat, shift: nat|
            width >= 1 && mask == #[trigger] contiguous_mask(width, shift) ==> run.0 == width
                && run.1 == shift,
{
    proof {
        assert forall|width: nat, shift: nat|
            width >= 1 && mask == #[trigger] contiguous_mask(width, shift) implies mask_width(
            mask as nat,
        ) == width && mask_shift(mask as nat) == shift by {
            lemma_contiguous_mask_run(width, shift);
        }
    }
    if mask == 0 {
        proof {
            lemma2_to64();
        }
        return (0, 0);
    }
    let mut rest: u64 = mask;
    let mut shift: u32 = 0;
    proof {
        lemma2_to64();
        assert(rest as nat * 1 == rest as nat);
    }
    while rest & 1 == 0
        invariant
            rest != 0,
            shift < 64,
            rest as nat * pow2(shift as nat) == mask as nat,
            trailing_zeros(mask as nat) == shift + trailing_zeros(rest as nat),
        decreases rest,
    {
        let half: u64 = rest >> 1;
        proof {
            assert(rest & 1 == 0 ==> rest % 2 == 0 && rest >> 1 == rest / 2) by (bit_vector);
            lemma_pow2_unfold((shift + 1) as nat);
            lemma_halve_product(half as nat, rest as nat, pow2(shift as nat));
            lemma_product_bounds(half as nat, pow2((shift + 1) as nat), mask as nat);
            if shift + 1 >= 64 {
                lemma_pow2_64_is_large((shift + 1) as nat);
            }
        }
        rest = half;
        shift = shift + 1;
    }
    let ghost run_start: nat = rest as nat;
    proof {
        assert(rest & 1 != 0 ==> rest % 2 == 1) by (bit_vector);
        lemma_pow2_pos(shift as nat);
        lemma_div_by_multiple(rest as int, pow2(shift as nat) as int);
        assert(run_start == mask as nat / pow2(trailing_zeros(mask as nat)));
        lemma2_to64();
        assert(rest as nat * 1 == rest as nat);
    }
    let mut width: u32 = 0;
    while rest & 1 == 1
        invariant
            shift < 64,
            width + shift <= 64,
            rest == 0 ==> width >= 1,
            rest != 0 ==> width + shift < 64,
            run_start * pow2(shift as nat) == mask as nat,
            rest as nat * pow2(width as nat) <= run_start,
            trailing_ones(run_start) == width + trailing_ones(rest as nat),
        decreases rest,
    {
        let half: u64 = rest >> 1;
        proof {
            assert(rest & 1 == 1 ==> rest % 2 == 1 && rest >> 1 == rest / 2) by (bit_vector);
            lemma_pow2_unfold((width + 1) as nat);
            lemma_halve_floor_product(half as nat, rest as nat, pow2(width as nat));
            if half != 0 {
                lemma_run_fits(
                    half as nat,
                    run_start,
                    (width + 1) as nat,
                    shift as nat,
                    mask as nat,
                );
            }
        }
        rest = half;
        width = width + 1;
    }
    proof {
        assert(rest & 1 != 1 ==> rest % 2 == 0) by (bit_vector);
        if width == 0 {
            // the first loop left an odd value, so the second ran at least once
            assert(run_start % 2 == 1);
        }
    }
    (width, shift)
}

proof fn lemma_halve_floor_product(half: nat, m: nat, p: nat)
    by (nonlinear_arith)
    requires
        m == 2 * half + 1,
    ensures
        half * (2 * p) <= m * p,
{
}

/// No power of two from `2^64` on fits in 64 bits.
proof fn lemma_pow2_64_is_large(e: nat)
    requires
        e >= 64,
    ensures
        pow2(e) > u64::MAX,
{
    lemma2_to64();
    if e > 64 {
        lemma_pow2_strictly_increases(64, e);
    }
}

/// A non-zero remainder above `width` ones and `shift` zeros leaves the run
/// short of bit 64.
proof fn lemma_run_fits(rest: nat, run_start: nat, width: nat, shift: nat, mask: nat)
    requires
        rest >= 1,
        rest * pow2(width) <= run_start,
        run_start * pow2(shift) == mask,
        mask <= u64::MAX,
    ensures
        width + shift < 64,
{
    lemma_pow2_adds(width, shift);
    lemma_pow2_pos(width);
    lemma_pow2_pos(shift);
    assert(pow2(width) * pow2(shift) <= mask) by (nonlinear_arith)
        requires
            rest >= 1,
            rest * pow2(width) <= run_start,
            run_start * pow2(shift) == mask,
            pow2(shift) > 0,
    ;
    if width + shift >= 64 {
        lemma_pow2_64_is_large(width + shift);
    }
}

} // verus!

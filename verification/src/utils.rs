//! Range and alignment validation: the bounds discipline every access obeys.

use vstd::prelude::*;
use vstd::arithmetic::div_mod::{lemma_basic_div, lemma_fundamental_div_mod};
use vstd::arithmetic::power2::{lemma2_to64, lemma_pow2_strictly_increases, lemma_pow2_unfold, pow2};
use vstd::bits::{lemma_u64_low_bits_mask_is_mod, low_bits_mask};

use crate::errors::MmapIoError;

verus! {

/// Does the byte range `[offset, offset + len)` lie within a mapping of
/// `total` bytes?  A zero-length range at `offset == total` is legal.
pub open spec fn range_in_bounds(offset: u64, len: u64, total: u64) -> bool {
    offset <= total && offset + len <= total
}

/// The smallest multiple of `alignment` that is at least `value`
/// (`value` itself when `alignment` is zero).
pub open spec fn align_up_spec(value: u64, alignment: u64) -> int {
    if alignment == 0 {
        value as int
    } else {
        ((value + alignment - 1) / (alignment as int)) * (alignment as int)
    }
}

/// Ensure the requested `[offset, offset + len)` range is within `[0, total)`,
/// computed without overflow: an addition that wraps can never falsely pass.
pub fn ensure_in_bounds(offset: u64, len: u64, total: u64) -> (r: Result<(), MmapIoError>)
    ensures
        r is Ok <==> range_in_bounds(offset, len, total),
        r is Err ==> r == Err::<(), MmapIoError>(MmapIoError::OutOfBounds { offset, len, total }),
{
    if offset > total {
        return Err(MmapIoError::OutOfBounds { offset, len, total });
    }
    if len > total - offset {
        return Err(MmapIoError::OutOfBounds { offset, len, total });
    }
    Ok(())
}

/// Convert a validated range to `start..end` slice positions.
pub fn slice_range(offset: u64, len: u64, total: u64) -> (r: Result<(usize, usize), MmapIoError>)
    requires
        total <= usize::MAX,
    ensures
        r is Ok <==> range_in_bounds(offset, len, total),
        r is Ok ==> r == Ok::<(usize, usize), MmapIoError>(
            ((offset as usize), ((offset + len) as usize)),
        ),
        r is Err ==> r == Err::<(usize, usize), MmapIoError>(
            MmapIoError::OutOfBounds { offset, len, total },
        ),
{
    match ensure_in_bounds(offset, len, total) {
        Ok(()) => Ok(((offset as usize), ((offset + len) as usize))),
        Err(e) => Err(e),
    }
}

/// Align a value up to the nearest multiple of `alignment`.
///
/// A power-of-two alignment takes the mask-based path; any other alignment
/// rounds by ceiling division.  Both paths meet the same specification.
pub fn align_up(value: u64, alignment: u64) -> (r: u64)
    requires
        alignment == 0 || value + alignment - 1 <= u64::MAX,
    ensures
        r == align_up_spec(value, alignment),
{
    if alignment == 0 {
        return value;
    }
    let mask = alignment - 1;
    if alignment & mask == 0 {
        let r = (value + mask) & !mask;
        proof {
            lemma_mask_rounding_is_ceiling(value, alignment);
        }
        r
    } else {
        let t = value + mask;
        let q = t / alignment;
        proof {
            assert(q * alignment <= t) by (nonlinear_arith)
                requires
                    alignment > 0,
                    q == t / alignment,
            ;
        }
        q * alignment
    }
}

/// For a power-of-two alignment, the mask-based rounding
/// `(value + alignment - 1) & !(alignment - 1)` equals the
/// ceiling-division rounding that [`align_up_spec`] prescribes.
pub proof fn lemma_mask_rounding_is_ceiling(value: u64, alignment: u64)
    requires
        alignment > 0,
        alignment & ((alignment - 1) as u64) == 0,
        value + alignment - 1 <= u64::MAX,
    ensures
        (((value + (alignment - 1)) as u64) & !((alignment - 1) as u64)) == align_up_spec(
            value,
            alignment,
        ),
{
    let t = ((value + (alignment - 1)) as u64);
    let mask = ((alignment - 1) as u64);
    lemma_mask_shape_gives_exponent(alignment);
    let n = choose|n: nat| n < 64 && pow2(n) == alignment;
    assert(low_bits_mask(n) == mask);
    lemma_u64_low_bits_mask_is_mod(t, n);
    assert(t == (t & !mask) + (t & mask)) by (bit_vector);
    lemma_fundamental_div_mod(t as int, alignment as int);
}

/// A positive value whose bits satisfy `a & (a - 1) == 0` is a power of two.
proof fn lemma_mask_shape_gives_exponent(a: u64)
    requires
        a > 0,
        a & ((a - 1) as u64) == 0,
    ensures
        exists|n: nat| n < 64 && pow2(n) == a,
    decreases a,
{
    lemma2_to64();
    if a == 1 {
        assert(0 < 64 && pow2(0) == a);
    } else {
        assert(a % 2 == 0 && a / 2 > 0 && (a / 2) & (((a / 2) - 1) as u64) == 0) by (bit_vector)
            requires
                a > 1,
                a & ((a - 1) as u64) == 0,
        ;
        lemma_mask_shape_gives_exponent(a / 2);
        let m = choose|n: nat| n < 64 && pow2(n) == a / 2;
        lemma_pow2_unfold(m + 1);
        if m + 1 >= 64 {
            if m + 1 > 64 {
                lemma_pow2_strictly_increases(64, m + 1);
            }
            assert(false);
        }
        assert(m + 1 < 64 && pow2(m + 1) == a);
    }
}

/// Aligning zero yields zero, whatever the alignment.
pub proof fn lemma_align_up_zero(alignment: u64)
    ensures
        align_up_spec(0, alignment) == 0,
{
    if alignment > 0 {
        lemma_basic_div(alignment - 1, alignment as int);
    }
}

} // verus!

//! Padded strides for dynamically offset uniform buffers.

use vstd::prelude::*;
use vstd::arithmetic::div_mod::lemma_fundamental_div_mod;
use vstd::arithmetic::div_mod::lemma_mod_multiples_basic;
use vstd::arithmetic::div_mod::lemma_div_pos_is_pos;
use vstd::arithmetic::div_mod::lemma_mod_decreases;

verus! {

/// The number of whole blocks of `alignment` bytes needed to hold `size` bytes.
pub open spec fn blocks_needed(size: nat, alignment: nat) -> nat
    recommends
        alignment > 0,
{
    if size % alignment == 0 {
        size / alignment
    } else {
        size / alignment + 1
    }
}

/// The distance in bytes between two consecutive instances of `size` bytes
/// each in a buffer whose dynamic offsets must be multiples of `alignment`:
/// `size` rounded up to the next multiple of `alignment`.
pub open spec fn padded_stride_spec(size: nat, alignment: nat) -> nat
    recommends
        alignment > 0,
{
    blocks_needed(size, alignment) * alignment
}

/// A padded stride is a multiple of the alignment, covers the payload, and
/// wastes less than one alignment unit.
pub proof fn lemma_padded_stride_bounds(size: nat, alignment: nat)
    requires
        alignment > 0,
    ensures
        padded_stride_spec(size, alignment) % alignment == 0,
        padded_stride_spec(size, alignment) >= size,
        padded_stride_spec(size, alignment) < size + alignment,
        size % alignment <= size,
        size % alignment == 0 ==> padded_stride_spec(size, alignment) == size,
        size % alignment != 0 ==> padded_stride_spec(size, alignment) == size - size % alignment
            + alignment,
{
    let s = size as int;
    let a = alignment as int;
    let q = s / a;
    let r = s % a;
    lemma_fundamental_div_mod(s, a);
    lemma_div_pos_is_pos(s, a);
    lemma_mod_decreases(size, alignment);
    assert(s == a * q + r);
    assert(a * q == q * a) by (nonlinear_arith);
    assert((q + 1) * a == q * a + a) by (nonlinear_arith);
    let k = blocks_needed(size, alignment) as int;
    assert(k * a == padded_stride_spec(size, alignment));
    lemma_mod_multiples_basic(k, a);
}

/// Rounds `logical_size` up to the next multiple of `min_alignment`.
///
/// A size of zero has a stride of zero.
pub fn padded_stride(logical_size: u64, min_alignment: u64) -> (stride: u64)
    requires
        min_alignment > 0,
        padded_stride_spec(logical_size as nat, min_alignment as nat) <= u64::MAX,
    ensures
        stride == padded_stride_spec(logical_size as nat, min_alignment as nat),
        stride % min_alignment == 0,
        stride >= logical_size,
        stride < logical_size + min_alignment,
{
    proof {
        lemma_padded_stride_bounds(logical_size as nat, min_alignment as nat);
    }
    let remainder: u64 = logical_size % min_alignment;
    if remainder == 0 {
        logical_size
    } else {
        logical_size - remainder + min_alignment
    }
}

/// Rounds `logical_size` up to the next multiple of `min_alignment`, or
/// reports that no such stride exists: the alignment is zero, or the stride
/// does not fit in 64 bits.
pub fn checked_padded_stride(logical_size: u64, min_alignment: u64) -> (stride: Option<u64>)
    ensures
        stride is Some <==> min_alignment > 0 && padded_stride_spec(
            logical_size as nat,
            min_alignment as nat,
        ) <= u64::MAX,
        stride is Some ==> stride->0 == padded_stride_spec(
            logical_size as nat,
            min_alignment as nat,
        ),
{
    if min_alignment == 0 {
        return None;
    }
    proof {
        lemma_padded_stride_bounds(logical_size as nat, min_alignment as nat);
    }
    let remainder: u64 = logical_size % min_alignment;
    if remainder == 0 {
        Some(logical_size)
    } else {
        (logical_size - remainder).checked_add(min_alignment)
    }
}

} // verus!

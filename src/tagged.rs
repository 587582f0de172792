//! The tagged result: one address-sized value that carries either a success
//! handle or a failure handle, told apart by the lowest address bit.
use vstd::prelude::*;

verus! {

/// A handle the host hands out: its allocator aligns every object, so the
/// lowest bit of the address is free.
pub open spec fn is_aligned_handle(h: usize) -> bool {
    h % 2 == 0
}

/// The value that stands for `r` at the boundary.
pub open spec fn tagged_value(r: Result<usize, usize>) -> usize {
    match r {
        Ok(h) => h,
        Err(h) => (h + 1) as usize,
    }
}

/// The value that a tagged word stands for: a set low bit marks a failure.
pub open spec fn untagged_value(t: usize) -> Result<usize, usize> {
    if t % 2 == 0 {
        Ok(t)
    } else {
        Err((t - 1) as usize)
    }
}

/// Whether the handle inside `r` is aligned.
pub open spec fn result_is_aligned(r: Result<usize, usize>) -> bool {
    match r {
        Ok(h) => is_aligned_handle(h),
        Err(h) => is_aligned_handle(h),
    }
}

/// Sets the low bit of an aligned failure handle.
pub fn tag_failure(h: usize) -> (t: usize)
    requires
        is_aligned_handle(h),
    ensures
        t == h + 1,
        t % 2 == 1,
{
    assert(h % 2 == 0 ==> h | 1 == h + 1) by (bit_vector);
    h | 1
}

/// Encodes a success or a failure handle into the single returned word.
pub fn encode(r: Result<usize, usize>) -> (t: usize)
    requires
        result_is_aligned(r),
    ensures
        t == tagged_value(r),
{
    match r {
        Ok(h) => h,
        Err(h) => tag_failure(h),
    }
}

/// Reads a returned word back: the low bit tells a failure, and is cleared.
pub fn decode(t: usize) -> (r: Result<usize, usize>)
    ensures
        r == untagged_value(t),
        result_is_aligned(r),
{
    assert(t & 1 == t % 2) by (bit_vector);
    assert(t % 2 == 1 ==> t & !1usize == t - 1) by (bit_vector);
    if t & 1 == 0 {
        Ok(t)
    } else {
        Err(t & !1usize)
    }
}

/// Decoding what was encoded gives back the same result: the tag never
/// loses the handle, nor confuses a failure with a success.
pub proof fn lemma_decode_encode(r: Result<usize, usize>)
    requires
        result_is_aligned(r),
    ensures
        untagged_value(tagged_value(r)) == r,
        tagged_value(r) % 2 == 1 <==> r is Err,
{
}

} // verus!

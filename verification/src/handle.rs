use vstd::prelude::*;

verus! {

/// Raw parts of an exclusively owned heap byte buffer — base address,
/// logical length, allocated capacity — recorded for transferring
/// ownership across an ABI boundary without copying. Exactly one side
/// owns the allocation at any time; the receiving side must invoke the
/// paired release operation exactly once, with the same allocator that
/// produced the buffer, and must not touch the address afterward.
#[derive(Clone, Copy, PartialEq, Eq, Structural, Debug)]
pub struct RawVec {
    pub ptr: usize,
    pub len: usize,
    pub cap: usize,
}

/// A handle's logical length never exceeds its allocated capacity.
pub open spec fn raw_vec_wf(h: RawVec) -> bool {
    h.len <= h.cap
}

/// The sentinel shape that reports failure across the boundary: a null
/// address with zero length and capacity. No live buffer's parts take
/// this shape, since an allocation's base address is never null.
pub open spec fn is_sentinel(h: RawVec) -> bool {
    h.ptr == 0 && h.len == 0 && h.cap == 0
}

/// Record a buffer's raw parts as a handle.
pub fn raw_vec_from_parts(ptr: usize, len: usize, cap: usize) -> (h: RawVec)
    requires
        len <= cap,
    ensures
        h == (RawVec { ptr, len, cap }),
        raw_vec_wf(h),
{
    RawVec { ptr, len, cap }
}

/// The failure sentinel.
pub fn sentinel_raw_vec() -> (h: RawVec)
    ensures
        is_sentinel(h),
        raw_vec_wf(h),
{
    RawVec { ptr: 0, len: 0, cap: 0 }
}

/// Whether a handle is the failure sentinel rather than a live buffer.
pub fn raw_vec_is_sentinel(h: &RawVec) -> (b: bool)
    ensures
        b == is_sentinel(*h),
{
    h.ptr == 0 && h.len == 0 && h.cap == 0
}

} // verus!

use vstd::prelude::*;

verus! {

/// The fixed-capacity, stack-resident byte buffer that holds one frame.
pub type Frame = heapless::Vec<u8, 256>;

/// Capacity of a `Frame`, in bytes.
pub const FRAME_CAPACITY: usize = 256;

#[verifier::external_type_specification]
#[verifier::external_body]
#[verifier::reject_recursive_types(T)]
pub struct ExHeaplessVec<T, const N: usize>(heapless::Vec<T, N>);

/// The bytes that a frame buffer currently holds, in order.
pub uninterp spec fn frame_contents(v: heapless::Vec<u8, 256>) -> Seq<u8>;

/// Relies on heapless::Vec::new: a new buffer holds nothing.
#[verifier::external_body]
pub(crate) fn empty_frame() -> (r: Frame)
    ensures
        frame_contents(r) == Seq::<u8>::empty(),
{
    heapless::Vec::new()
}

/// Relies on heapless::Vec::push: the byte is appended when the length is
/// below the capacity; otherwise the buffer is untouched and the byte handed back.
#[verifier::external_body]
pub(crate) fn push_byte(v: &mut Frame, b: u8) -> (r: Result<(), u8>)
    ensures
        frame_contents(*old(v)).len() < FRAME_CAPACITY ==> r is Ok && frame_contents(*final(v))
            == frame_contents(*old(v)).push(b),
        frame_contents(*old(v)).len() >= FRAME_CAPACITY ==> r is Err && r->Err_0 == b
            && frame_contents(*final(v)) == frame_contents(*old(v)),
{
    v.push(b)
}

/// Relies on heapless::Vec::extend_from_slice: all of `s` is appended when it
/// fits in the remaining capacity; otherwise nothing changes and `Err` comes back.
#[verifier::external_body]
pub(crate) fn extend_bytes(v: &mut Frame, s: &[u8]) -> (r: Result<(), ()>)
    ensures
        frame_contents(*old(v)).len() + s@.len() <= FRAME_CAPACITY ==> r is Ok
            && frame_contents(*final(v)) == frame_contents(*old(v)) + s@,
        frame_contents(*old(v)).len() + s@.len() > FRAME_CAPACITY ==> r is Err
            && frame_contents(*final(v)) == frame_contents(*old(v)),
{
    v.extend_from_slice(s)
}

/// Relies on heapless::Vec::as_slice: a view of exactly the bytes held.
#[verifier::external_body]
pub(crate) fn frame_slice(v: &Frame) -> (r: &[u8])
    ensures
        r@ == frame_contents(*v),
{
    v.as_slice()
}

} // verus!

//! Bus frames: byte vectors of fixed capacity that live in storage lent by
//! the caller.

use core::mem::MaybeUninit;
use fixed_slice_vec::FixedSliceVec;
use vstd::prelude::*;

verus! {

/// `fixed_slice_vec::FixedSliceVec`, carried through as an opaque value.
#[verifier::external_type_specification]
#[verifier::external_body]
#[verifier::reject_recursive_types(T)]
pub struct ExFixedSliceVec<'a, T: Sized>(FixedSliceVec<'a, T>);

/// The bytes that a frame holds, in the order in which they were pushed.
pub uninterp spec fn frame_items(frame: FixedSliceVec<u8>) -> Seq<u8>;

/// The number of bytes that a frame's storage has room for.
pub uninterp spec fn frame_capacity(frame: FixedSliceVec<u8>) -> nat;

/// Makes a frame through `fixed_slice_vec::FixedSliceVec::new`, which takes
/// the storage as it is and starts with length 0; the capacity is the length
/// of the storage.
#[verifier::external_body]
pub(crate) fn frame_new<'a>(storage: &'a mut [MaybeUninit<u8>]) -> (frame: FixedSliceVec<'a, u8>)
    ensures
        frame_items(frame) == Seq::<u8>::empty(),
        frame_capacity(frame) == old(storage)@.len(),
{
    FixedSliceVec::new(storage)
}

/// Reads the capacity through `fixed_slice_vec::FixedSliceVec::capacity`,
/// the length of the storage.
#[verifier::external_body]
pub(crate) fn frame_room(frame: &FixedSliceVec<u8>) -> (capacity: usize)
    ensures
        capacity == frame_capacity(*frame),
{
    frame.capacity()
}

/// Appends a byte through `fixed_slice_vec::FixedSliceVec::push`, which
/// stores the value behind the last item and panics when the frame is full.
#[verifier::external_body]
pub(crate) fn frame_push(frame: &mut FixedSliceVec<u8>, value: u8)
    requires
        frame_items(*old(frame)).len() < frame_capacity(*old(frame)),
    ensures
        frame_items(*final(frame)) == frame_items(*old(frame)).push(value),
        frame_capacity(*final(frame)) == frame_capacity(*old(frame)),
{
    frame.push(value)
}

/// Lends the content through `fixed_slice_vec::FixedSliceVec::as_slice`, a
/// slice over the items pushed so far.
#[verifier::external_body]
pub(crate) fn frame_as_slice<'b>(frame: &'b FixedSliceVec<u8>) -> (items: &'b [u8])
    ensures
        items@ == frame_items(*frame),
{
    frame.as_slice()
}

} // verus!

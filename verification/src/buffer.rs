//! A buffer described by its raw parts, and the change of its element type.

use core::marker::PhantomData;
use vstd::prelude::*;
use vstd::layout::{align_of, size_of};
use crate::layout::layout_compatible;

verus! {

/// What a buffer is to the allocator: where its allocation starts, how many
/// elements are live at its front, and how many it has room for.
pub struct RawParts {
    pub addr: nat,
    pub len: nat,
    pub cap: nat,
}

impl RawParts {
    /// The live elements fit into the allocation.
    pub open spec fn wf(self) -> bool {
        self.len <= self.cap
    }

    /// The same allocation with the same room, and nothing live in it.
    pub open spec fn recycled(self) -> RawParts {
        RawParts { addr: self.addr, len: 0, cap: self.cap }
    }
}

/// The description of an allocation that holds elements of `T`.
///
/// It holds no elements and owns no memory. A change of the element type
/// takes the old description and gives the new one, so the two are never
/// both at hand; that no second description of the same allocation is made
/// from its raw parts rests on the caller.
pub struct Buffer<T> {
    addr: usize,
    len: usize,
    cap: usize,
    elem: PhantomData<T>,
}

impl<T> View for Buffer<T> {
    type V = RawParts;

    closed spec fn view(&self) -> RawParts {
        RawParts { addr: self.addr as nat, len: self.len as nat, cap: self.cap as nat }
    }
}

impl<T> Buffer<T> {
    #[verifier::type_invariant]
    spec fn inv(self) -> bool {
        self@.wf()
    }

    /// The bytes that the allocation has to span for the buffer's capacity.
    pub open spec fn byte_size(self) -> nat {
        self@.cap * size_of::<T>()
    }

    /// The allocation starts where an element of `T` may start.
    pub open spec fn aligned(self) -> bool {
        self@.addr % align_of::<T>() == 0
    }

    /// Describes the buffer that starts at `addr`, has `len` live elements
    /// and room for `cap`.
    pub fn from_raw_parts(addr: usize, len: usize, cap: usize) -> (out: Buffer<T>)
        requires
            len <= cap,
        ensures
            out@ == (RawParts { addr: addr as nat, len: len as nat, cap: cap as nat }),
    {
        Buffer { addr, len, cap, elem: PhantomData }
    }

    /// The address at which the allocation starts.
    pub fn addr(&self) -> (out: usize)
        ensures
            out == self@.addr,
    {
        self.addr
    }

    /// The number of live elements, which never exceeds the capacity.
    pub fn len(&self) -> (out: usize)
        ensures
            out == self@.len,
            self@.wf(),
    {
        proof {
            use_type_invariant(self);
        }
        self.len
    }

    /// The number of elements that the allocation has room for.
    pub fn capacity(&self) -> (out: usize)
        ensures
            out == self@.cap,
            self@.wf(),
    {
        proof {
            use_type_invariant(self);
        }
        self.cap
    }

    /// Hands the allocation over to a buffer of `U`.
    ///
    /// The buffer that comes back starts at the same address and has the same
    /// capacity, and none of its elements is live, however many were before.
    /// Because `U` is laid out as `T` is, the allocation spans as many bytes
    /// for the one as for the other, and is aligned for both or for neither.
    pub fn recycle<U>(self) -> (out: Buffer<U>)
        requires
            layout_compatible::<T, U>(),
        ensures
            out@.addr == self@.addr,
            out@.cap == self@.cap,
            out@.len == 0,
            out@ == self@.recycled(),
            out.byte_size() == self.byte_size(),
            out.aligned() == self.aligned(),
    {
        Buffer { addr: self.addr, len: 0, cap: self.cap, elem: PhantomData }
    }
}

/// Changing the element type and changing it back gives a buffer of the first
/// type on the same allocation, with the capacity it had and nothing live.
/// The way back is always open: a layout that agrees with another is agreed
/// with in turn.
pub proof fn lemma_round_trip<A, B>(start: Buffer<A>, there: Buffer<B>, back: Buffer<A>)
    requires
        layout_compatible::<A, B>(),
        there@ == start@.recycled(),
        back@ == there@.recycled(),
    ensures
        layout_compatible::<B, A>(),
        back@.addr == start@.addr,
        back@.cap == start@.cap,
        back@.len == 0,
        back@ == there@,
        back.byte_size() == start.byte_size(),
{
}

} // verus!

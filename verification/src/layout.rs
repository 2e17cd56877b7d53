//! The memory footprint of a type, and when two footprints agree.

use vstd::prelude::*;
use vstd::layout::{align_of, size_of};

verus! {

/// The size and the alignment of a type, in bytes.
#[derive(Clone, Copy, Debug, PartialEq, Eq, Structural)]
pub struct Layout {
    pub size: usize,
    pub align: usize,
}

/// Two element types can share an allocation: each element takes the same
/// number of bytes and has to start at a multiple of the same power of two.
pub open spec fn layout_compatible<A, B>() -> bool {
    size_of::<A>() == size_of::<B>() && align_of::<A>() == align_of::<B>()
}

impl Layout {
    /// The layout that the compiler gives to `T`.
    pub fn of<T>() -> (out: Layout)
        ensures
            out.size == size_of::<T>(),
            out.align == align_of::<T>(),
    {
        Layout { size: core::mem::size_of::<T>(), align: core::mem::align_of::<T>() }
    }
}

/// Decides whether an allocation made for elements of `A` can hold elements
/// of `B`.
pub fn same_layout<A, B>() -> (out: bool)
    ensures
        out == layout_compatible::<A, B>(),
{
    let a: Layout = Layout::of::<A>();
    let b: Layout = Layout::of::<B>();
    a.size == b.size && a.align == b.align
}

} // verus!

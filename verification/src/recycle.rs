//! Taking a vector apart into the buffer of another element type.

use vstd::prelude::*;
use vstd::layout::align_of;
use crate::buffer::Buffer;
use crate::layout::layout_compatible;

verus! {

/// `core::mem::forget`: takes the value and does not run its destructor.
/// Nothing comes back, so nothing is claimed.
pub assume_specification<T>[ core::mem::forget::<T> ](t: T)
;

/// `Vec::capacity`: the number of elements that the vector has room for
/// without allocating again. The elements it holds are among them.
#[verifier::external_body]
fn capacity_of<T>(v: &Vec<T>) -> (cap: usize)
    ensures
        cap >= v@.len(),
{
    v.capacity()
}

/// `Vec::as_mut_ptr`, as an integer: the address at which the vector's
/// allocation starts. The call leaves the elements as they are. A vector's
/// pointer is never null and is aligned for its element type, also while
/// nothing is allocated.
#[verifier::external_body]
fn address_of<T>(v: &mut Vec<T>) -> (addr: usize)
    ensures
        final(v)@ == old(v)@,
        addr != 0,
        addr as nat % align_of::<T>() == 0,
{
    v.as_mut_ptr() as usize
}

/// Gives up a vector without freeing its allocation. Only an empty vector
/// may go this way: an element left in it would never be dropped, and would
/// lie in the allocation when the next element type takes it over.
fn let_go<T>(v: Vec<T>)
    requires
        v@.len() == 0,
{
    core::mem::forget(v);
}

/// Recycling of a vector's allocation.
pub trait VecExt<T> {
    /// Empties the vector and gives its allocation away as an empty buffer
    /// of `U`.
    ///
    /// Every element is dropped first, so none is left to be read as a `U`.
    /// Then the vector is let go without freeing its allocation, and what
    /// comes back describes that allocation: its address, which is aligned
    /// for `U`, and the capacity of the vector. Nothing else keeps track of
    /// the allocation from then on: it lives until a vector is built on
    /// these parts.
    fn recycle<U>(self) -> (out: Buffer<U>)
        requires
            layout_compatible::<T, U>(),
        ensures
            out@.len == 0,
            out@.addr != 0,
            out.aligned(),
    ;
}

impl<T> VecExt<T> for Vec<T> {
    /// The buffer has room for at least as many elements as the vector held.
    fn recycle<U>(self) -> (out: Buffer<U>)
        ensures
            out@.cap >= self@.len(),
    {
        let mut v = self;
        // Emptying has no effect on the capacity, so it is read while the
        // elements that it has to cover are still there.
        let cap: usize = capacity_of(&v);
        v.clear();
        let addr: usize = address_of(&mut v);
        let_go(v);
        Buffer::<T>::from_raw_parts(addr, 0, cap).recycle::<U>()
    }
}

} // verus!

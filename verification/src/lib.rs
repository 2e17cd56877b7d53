//! Reuse the heap allocation of a vector under another element type.
//!
//! A vector that is emptied keeps its allocation. When two element types have
//! the same size and the same alignment, that allocation is just as good for
//! the second type as for the first, so a program that fills and discards
//! vectors of short-lived values can hand one region of memory from vector to
//! vector instead of freeing and allocating it again.
//!
//! This crate holds the part of that operation that needs no raw memory
//! access: the layout rule, the description of a buffer by its raw parts, and
//! the steps that take a `Vec<T>` apart into the parts of an empty `Vec<U>`.
//!
//! That the two layouts agree is a precondition, so verified callers are held
//! to it when they are verified and a mismatch never runs. Callers that are
//! not verified test the same condition themselves before the call, while
//! compiling or with [`layout::same_layout`].

pub mod layout;
pub mod buffer;
pub mod recycle;

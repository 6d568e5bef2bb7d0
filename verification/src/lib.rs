//! Verified front end for mimalloc arenas and heaps.
//!
//! The library decides what to ask of the allocator and what a reply means;
//! the calls themselves are made by the caller through `libmimalloc-sys`.
use vstd::prelude::*;

pub mod arena;
pub mod heap;
pub mod layout;

verus! {

} // verus!

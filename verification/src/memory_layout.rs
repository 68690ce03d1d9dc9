//! How the memory of a device is divided into pages.
//!
//! A memory layout is a slice of page sizes, in the order in which the pages
//! lie in memory. The caller owns it; a download borrows it and walks it from
//! the front, one page for each erasure.

use vstd::prelude::*;

verus! {

/// Size of a page of memory, in bytes. A page is erased as a whole.
pub type MemoryPage = u32;

} // verus!

//! The allocator's counters: what each call of the allocator adds to the
//! bytes allocated and to the bytes freed.

use vstd::prelude::*;

verus! {

/// What one call of the allocator adds to the two counters, in bytes.
#[derive(Clone, Copy, Debug, PartialEq, Eq, Structural)]
pub struct Growth {
    pub allocated: usize,
    pub freed: usize,
}

/// What an allocation of `size` bytes counts for: its size once it has
/// succeeded, nothing when it failed.
pub open spec fn alloc_growth(size: usize, succeeded: bool) -> Growth {
    Growth { allocated: if succeeded { size } else { 0 }, freed: 0 }
}

/// What freeing a block of `size` bytes counts for: its size, or nothing
/// where there was no block.
pub open spec fn dealloc_growth(size: usize, held: bool) -> Growth {
    Growth { allocated: 0, freed: if held { size } else { 0 } }
}

/// What a reallocation from `old_size` to `new_size` bytes counts for: the
/// old block as freed, where there was one, and the new block as allocated,
/// once the call has succeeded.
pub open spec fn realloc_growth(
    old_size: usize,
    new_size: usize,
    held: bool,
    succeeded: bool,
) -> Growth {
    Growth {
        allocated: alloc_growth(new_size, succeeded).allocated,
        freed: dealloc_growth(old_size, held).freed,
    }
}

/// What an allocation of `size` bytes adds to the counters.
pub fn on_alloc(size: usize, succeeded: bool) -> (g: Growth)
    ensures
        g == alloc_growth(size, succeeded),
{
    Growth { allocated: if succeeded { size } else { 0 }, freed: 0 }
}

/// What freeing a block of `size` bytes adds to the counters.
pub fn on_dealloc(size: usize, held: bool) -> (g: Growth)
    ensures
        g == dealloc_growth(size, held),
{
    Growth { allocated: 0, freed: if held { size } else { 0 } }
}

/// What a reallocation from `old_size` to `new_size` bytes adds to the
/// counters.
pub fn on_realloc(old_size: usize, new_size: usize, held: bool, succeeded: bool) -> (g: Growth)
    ensures
        g == realloc_growth(old_size, new_size, held, succeeded),
{
    Growth {
        allocated: on_alloc(new_size, succeeded).allocated,
        freed: on_dealloc(old_size, held).freed,
    }
}

} // verus!

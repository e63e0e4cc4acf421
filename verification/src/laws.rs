//! Laws relating the entry points of the allocation registry.
//!
//! Each law chains the postcondition relations (`malloc_post`, `free_post`,
//! `realloc_post`) that the entry points establish, and so holds of every
//! sequence of calls on a well-formed registry. Since every call holds
//! exclusive access to the registry for its whole metadata step, any
//! concurrent interleaving of calls is some such sequence, and the laws cover
//! it.

use vstd::prelude::*;

verus! {

use crate::allocator::AllocationRegistry;
use crate::allocator::FatalError;
use crate::allocator::free_post;
use crate::allocator::malloc_post;
use crate::allocator::realloc_post;

/// A block returned by an allocation can be freed at once: the free reports
/// no fault, the address is absent from the registry afterward, and the
/// registry's mapping returns to exactly what it was before the allocation.
/// (When the allocation was refused with the null sentinel, the free is the
/// null no-op and the registry was never touched.)
pub proof fn lemma_malloc_then_free(
    r0: AllocationRegistry,
    r1: AllocationRegistry,
    r2: AllocationRegistry,
    size: usize,
    addr: usize,
    fr: Result<(), FatalError>,
)
    requires
        r0.wf(),
        malloc_post(r0, r1, size, addr),
        free_post(r1, r2, addr, fr),
    ensures
        fr == Ok::<(), FatalError>(()),
        !r2@.contains_key(addr),
        r2@ == r0@,
{
    if addr == 0 {
        assert(!r0@.contains_key(0));
    } else {
        assert(r2@ =~= r0@);
    }
}

/// `realloc` on the null sentinel is `malloc`: it cannot fault, and it
/// leaves the registry in exactly the state `malloc(size)` leaves it in,
/// returning the same address — so everything that follows behaves the same.
pub proof fn lemma_realloc_null_is_malloc(
    r0: AllocationRegistry,
    r1: AllocationRegistry,
    size: usize,
    r: Result<usize, FatalError>,
)
    requires
        realloc_post(r0, r1, 0, size, r),
    ensures
        r is Ok,
        malloc_post(r0, r1, size, r->Ok_0),
{
}

/// Freeing the same nonzero address twice is fatal: the first free succeeds
/// and unregisters the address, the second reports the unknown-address fault
/// and mutates nothing.
pub proof fn lemma_double_free_is_fatal(
    r0: AllocationRegistry,
    r1: AllocationRegistry,
    r2: AllocationRegistry,
    addr: usize,
    fr1: Result<(), FatalError>,
    fr2: Result<(), FatalError>,
)
    requires
        addr != 0,
        r0@.contains_key(addr),
        free_post(r0, r1, addr, fr1),
        free_post(r1, r2, addr, fr2),
    ensures
        fr1 == Ok::<(), FatalError>(()),
        fr2 == Err::<(), FatalError>(FatalError::UnknownAddress),
        r2@ == r1@,
{
}

/// `free` and `realloc` on a nonzero address that no live allocation owns —
/// a foreign pointer, or one already freed — report the fatal
/// unknown-address fault and leave the registry untouched.
pub proof fn lemma_unknown_address_is_fatal(
    r0: AllocationRegistry,
    r1: AllocationRegistry,
    r2: AllocationRegistry,
    addr: usize,
    new_size: usize,
    fr: Result<(), FatalError>,
    rr: Result<usize, FatalError>,
)
    requires
        addr != 0,
        !r0@.contains_key(addr),
        free_post(r0, r1, addr, fr),
        realloc_post(r0, r2, addr, new_size, rr),
    ensures
        fr == Err::<(), FatalError>(FatalError::UnknownAddress),
        rr == Err::<usize, FatalError>(FatalError::UnknownAddress),
        r1@ == r0@,
        r2@ == r0@,
{
}

/// A successful allocation returns an address distinct from every allocation
/// live at that moment, leaves all of them intact, and raises the live count
/// by exactly one: no two live allocations ever share an address, and the
/// registry's entry count never drifts from the number of unfreed
/// allocations.
pub proof fn lemma_allocation_is_fresh_and_counted(
    r0: AllocationRegistry,
    r1: AllocationRegistry,
    size: usize,
    addr: usize,
)
    requires
        r0.wf(),
        malloc_post(r0, r1, size, addr),
        addr != 0,
    ensures
        !r0@.contains_key(addr),
        r1@.contains_key(addr),
        forall|a: usize| #[trigger] r0@.contains_key(a)
            ==> a != addr && r1@.contains_key(a) && r1@[a] == r0@[a],
        r1@.len() == r0@.len() + 1,
{
    assert(r1@.dom() =~= r0@.dom().insert(addr));
    vstd::set::axiom_set_insert_len(r0@.dom(), addr);
}

/// A successful free removes exactly the freed allocation: every other live
/// allocation is untouched, and the live count drops by exactly one.
pub proof fn lemma_free_is_counted(
    r0: AllocationRegistry,
    r1: AllocationRegistry,
    addr: usize,
    fr: Result<(), FatalError>,
)
    requires
        r0.wf(),
        addr != 0,
        r0@.contains_key(addr),
        free_post(r0, r1, addr, fr),
    ensures
        fr == Ok::<(), FatalError>(()),
        !r1@.contains_key(addr),
        forall|a: usize| #[trigger] r1@.contains_key(a)
            ==> a != addr && r0@.contains_key(a) && r1@[a] == r0@[a],
        r1@.len() + 1 == r0@.len(),
{
    r0@.lemma_remove_key_len(addr);
}

} // verus!

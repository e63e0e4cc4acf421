//! The allocation registry and the four C-convention entry points.
//!
//! `AllocationRegistry` owns the adapter's heap model: a mapping from each
//! live address to the block registered there. Addresses are integer-valued,
//! nonzero, aligned to [`ALIGN`], and handed out from a monotonically
//! advancing frontier, so a live address is never aliased by a later
//! allocation. The registry is the sole source of truth for how to release
//! or resize an address: `free` and `realloc` refuse (fatally) any address
//! they cannot find in it.

use std::collections::HashMap;
use vstd::prelude::*;

verus! {

broadcast use vstd::std_specs::hash::group_hash_axioms;

/// Every block is aligned to this many bytes; the C convention the adapter
/// emulates offers callers no way to request a different alignment.
pub const ALIGN: usize = 8;

/// An unrecoverable fault: proceeding would corrupt the heap, so the caller
/// must stop rather than continue with an untrustworthy registry.
#[derive(Clone, Copy, Debug, PartialEq, Eq, Structural)]
pub enum FatalError {
    /// `free` or `realloc` was handed a nonzero address that no live
    /// allocation owns — a double free or a foreign pointer. The registry
    /// holds no layout for it, so it cannot be released safely.
    UnknownAddress,
}

/// The registry of live allocations, together with the modeled heap they
/// occupy. Its view is the mapping from each live address to the bytes of
/// the block registered there.
pub struct AllocationRegistry {
    blocks: HashMap<usize, Vec<u8>>,
    next_addr: usize,
}

impl View for AllocationRegistry {
    type V = Map<usize, Seq<u8>>;

    closed spec fn view(&self) -> Map<usize, Seq<u8>> {
        self.blocks@.map_values(|b: Vec<u8>| b@)
    }
}

impl AllocationRegistry {
    /// The address at which the next allocation will be placed.
    pub closed spec fn next_address(&self) -> usize {
        self.next_addr
    }

    /// Well-formedness: the frontier is aligned and nonzero, and every live
    /// address is a nonzero, aligned address strictly below the frontier —
    /// so the frontier itself is always fresh.
    pub open spec fn wf(&self) -> bool {
        &&& ALIGN <= self.next_address()
        &&& self.next_address() as int % ALIGN as int == 0
        &&& self@.dom().finite()
        &&& forall|a: usize| #[trigger] self@.contains_key(a)
                ==> 0 < a < self.next_address() && a as int % ALIGN as int == 0
    }
}

/// The amount by which the frontier advances when a block of `size` bytes is
/// placed: `size` rounded up to a multiple of the alignment, and a full
/// alignment unit for an empty block, so that even zero-sized allocations
/// receive distinct addresses.
pub open spec fn spec_advance(size: usize) -> int {
    if size == 0 {
        ALIGN as int
    } else if size as int % ALIGN as int == 0 {
        size as int
    } else {
        size as int + ALIGN as int - size as int % ALIGN as int
    }
}

impl AllocationRegistry {
    /// Whether the modeled address space can still place a block of `size`
    /// bytes. An allocation returns the null sentinel exactly when it cannot.
    pub open spec fn can_allocate(&self, size: usize) -> bool {
        self.next_address() + spec_advance(size) <= usize::MAX
    }
}

/// Relation between the registry before and after `malloc(size)` returned
/// `addr`. On success the block is placed at the old frontier — an address no
/// live allocation holds — and registered with exactly `size` bytes, whose
/// initial values are not specified. On exhaustion the null sentinel comes
/// back and nothing changes.
pub open spec fn malloc_post(
    pre: AllocationRegistry,
    post: AllocationRegistry,
    size: usize,
    addr: usize,
) -> bool {
    if addr == 0 {
        &&& !pre.can_allocate(size)
        &&& post@ == pre@
        &&& post.next_address() == pre.next_address()
    } else {
        &&& pre.can_allocate(size)
        &&& addr == pre.next_address()
        &&& !pre@.contains_key(addr)
        &&& post@.contains_key(addr)
        &&& post@[addr].len() == size
        &&& post@ == pre@.insert(addr, post@[addr])
        &&& post.next_address() == pre.next_address() + spec_advance(size)
    }
}

/// Rounds `size` up to the frontier advance it requires, or `None` where
/// that overflows the address type (the allocation cannot be placed).
fn advance_amount(size: usize) -> (r: Option<usize>)
    ensures
        match r {
            Some(adv) => {
                &&& adv == spec_advance(size)
                &&& ALIGN <= adv
                &&& adv as int % ALIGN as int == 0
            },
            None => spec_advance(size) > usize::MAX,
        },
{
    if size == 0 {
        Some(ALIGN)
    } else {
        let rem = size % ALIGN;
        if rem == 0 {
            Some(size)
        } else {
            size.checked_add(ALIGN - rem)
        }
    }
}

/// A fresh block of `size` zero bytes.
fn new_block(size: usize) -> (v: Vec<u8>)
    ensures
        v@.len() == size,
        forall|i: int| 0 <= i < size ==> v@[i] == 0u8,
{
    let mut v: Vec<u8> = Vec::new();
    while v.len() < size
        invariant
            v@.len() <= size,
            forall|i: int| 0 <= i < v@.len() ==> v@[i] == 0u8,
        decreases size - v@.len(),
    {
        v.push(0u8);
    }
    v
}

impl AllocationRegistry {
    /// Places a fresh zero-filled block of `size` bytes at the frontier and
    /// registers it. Shared backing for `malloc` and `calloc`; only the
    /// latter promises the zero fill to its callers.
    fn place_block(&mut self, size: usize) -> (addr: usize)
        requires
            old(self).wf(),
        ensures
            final(self).wf(),
            malloc_post(*old(self), *final(self), size, addr),
            addr != 0 ==> forall|i: int|
                0 <= i < final(self)@[addr].len() ==> final(self)@[addr][i] == 0u8,
    {
        let new_next = match advance_amount(size) {
            Some(adv) => self.next_addr.checked_add(adv),
            None => None,
        };
        match new_next {
            None => 0,
            Some(new_next) => {
                let addr = self.next_addr;
                let block = new_block(size);
                let ghost old_view = self@;
                self.blocks.insert(addr, block);
                self.next_addr = new_next;
                proof {
                    assert(self@ =~= old_view.insert(addr, self@[addr]));
                }
                addr
            },
        }
    }

    /// Allocates a fresh block of `size` bytes and registers its layout.
    /// Returns the block's address, or the null sentinel when the request
    /// cannot be satisfied. The block's initial contents are unspecified.
    pub fn malloc(&mut self, size: usize) -> (addr: usize)
        requires
            old(self).wf(),
        ensures
            final(self).wf(),
            malloc_post(*old(self), *final(self), size, addr),
    {
        self.place_block(size)
    }
}

/// Relation between the registry before and after `calloc(count, size)`
/// returned `addr`. A product that the size type cannot hold is rejected with
/// the null sentinel — the silent wraparound the C convention invites would
/// hand back a block smaller than the caller asked for. Otherwise the call
/// behaves as an allocation of `count * size` bytes whose every byte is zero.
pub open spec fn calloc_post(
    pre: AllocationRegistry,
    post: AllocationRegistry,
    count: usize,
    size: usize,
    addr: usize,
) -> bool {
    if count as int * size as int > usize::MAX {
        &&& addr == 0
        &&& post@ == pre@
        &&& post.next_address() == pre.next_address()
    } else {
        &&& malloc_post(pre, post, (count as int * size as int) as usize, addr)
        &&& addr != 0 ==> forall|i: int| 0 <= i < post@[addr].len() ==> post@[addr][i] == 0u8
    }
}

/// Relation between the registry before and after `free(addr)` returned `r`.
/// Freeing the null sentinel is always a harmless no-op; freeing a live
/// address removes exactly its entry; freeing any other address is the fatal
/// fault — the registry holds no layout to release it with, and is left
/// untouched.
pub open spec fn free_post(
    pre: AllocationRegistry,
    post: AllocationRegistry,
    addr: usize,
    r: Result<(), FatalError>,
) -> bool {
    if addr == 0 {
        &&& r == Ok::<(), FatalError>(())
        &&& post@ == pre@
        &&& post.next_address() == pre.next_address()
    } else if pre@.contains_key(addr) {
        &&& r == Ok::<(), FatalError>(())
        &&& post@ == pre@.remove(addr)
        &&& post.next_address() == pre.next_address()
    } else {
        &&& r == Err::<(), FatalError>(FatalError::UnknownAddress)
        &&& post@ == pre@
        &&& post.next_address() == pre.next_address()
    }
}

/// Relation between the registry before and after `realloc(addr, new_size)`
/// returned `r`. A null `addr` behaves exactly as `malloc(new_size)`. A
/// nonzero address that is not live is the fatal fault. Otherwise the block
/// moves to a fresh address with `new_size` bytes, the overlapping prefix of
/// the old contents preserved and any grown tail unspecified; if the new
/// block cannot be placed, the null sentinel comes back and the original
/// block stays live and untouched. A zero `new_size` is not special: it
/// yields a valid zero-sized block, freeing the old one.
pub open spec fn realloc_post(
    pre: AllocationRegistry,
    post: AllocationRegistry,
    addr: usize,
    new_size: usize,
    r: Result<usize, FatalError>,
) -> bool {
    if addr == 0 {
        match r {
            Ok(a) => malloc_post(pre, post, new_size, a),
            Err(_) => false,
        }
    } else if !pre@.contains_key(addr) {
        &&& r == Err::<usize, FatalError>(FatalError::UnknownAddress)
        &&& post@ == pre@
        &&& post.next_address() == pre.next_address()
    } else if !pre.can_allocate(new_size) {
        &&& r == Ok::<usize, FatalError>(0)
        &&& post@ == pre@
        &&& post.next_address() == pre.next_address()
    } else {
        let na = pre.next_address();
        &&& r == Ok::<usize, FatalError>(na)
        &&& na != 0
        &&& !pre@.contains_key(na)
        &&& post@.contains_key(na)
        &&& post@[na].len() == new_size
        &&& forall|i: int|
            0 <= i < pre@[addr].len() && i < new_size ==> post@[na][i] == pre@[addr][i]
        &&& post@ == pre@.remove(addr).insert(na, post@[na])
        &&& post.next_address() == pre.next_address() + spec_advance(new_size)
    }
}

/// A block of `new_size` bytes carrying over the overlapping prefix of
/// `old_block`; bytes past the old length are zero.
fn copy_block(old_block: &Vec<u8>, new_size: usize) -> (v: Vec<u8>)
    ensures
        v@.len() == new_size,
        forall|i: int| 0 <= i < old_block@.len() && i < new_size ==> v@[i] == old_block@[i],
{
    let mut v: Vec<u8> = Vec::new();
    let mut i: usize = 0;
    while i < new_size
        invariant
            i <= new_size,
            v@.len() == i,
            forall|j: int| 0 <= j < i && j < old_block@.len() ==> v@[j] == old_block@[j],
        decreases new_size - i,
    {
        if i < old_block.len() {
            v.push(old_block[i]);
        } else {
            v.push(0u8);
        }
        i += 1;
    }
    v
}

impl AllocationRegistry {
    /// Allocates a zero-initialized block of `count * size` bytes and
    /// registers its layout. A product too large for the size type is
    /// rejected with the null sentinel rather than wrapped around.
    pub fn calloc(&mut self, count: usize, size: usize) -> (addr: usize)
        requires
            old(self).wf(),
        ensures
            final(self).wf(),
            calloc_post(*old(self), *final(self), count, size, addr),
    {
        match count.checked_mul(size) {
            None => 0,
            Some(total) => self.place_block(total),
        }
    }

    /// Releases the block at `addr` and removes its registry entry. The null
    /// sentinel is a no-op; a nonzero address with no entry is the fatal
    /// fault (double free or foreign pointer), reported rather than acted on.
    pub fn free(&mut self, addr: usize) -> (r: Result<(), FatalError>)
        requires
            old(self).wf(),
        ensures
            final(self).wf(),
            free_post(*old(self), *final(self), addr, r),
    {
        if addr == 0 {
            Ok(())
        } else {
            let ghost old_view = self@;
            match self.blocks.remove(&addr) {
                Some(_) => {
                    proof {
                        assert(self@ =~= old_view.remove(addr));
                    }
                    Ok(())
                },
                None => {
                    proof {
                        assert(self@ =~= old_view);
                    }
                    Err(FatalError::UnknownAddress)
                },
            }
        }
    }

    /// Resizes the block at `addr` to `new_size` bytes, relocating it and
    /// preserving the overlapping prefix of its contents. A null `addr`
    /// behaves as `malloc(new_size)`; a nonzero address with no registry
    /// entry is the fatal fault. When the resized block cannot be placed,
    /// the null sentinel comes back and the original block stays live.
    #[verifier::rlimit(50)]
    pub fn realloc(&mut self, addr: usize, new_size: usize) -> (r: Result<
        usize,
        FatalError,
    >)
        requires
            old(self).wf(),
        ensures
            final(self).wf(),
            realloc_post(*old(self), *final(self), addr, new_size, r),
    {
        if addr == 0 {
            return Ok(self.malloc(new_size));
        }
        let ghost pre = *self;
        match self.blocks.remove(&addr) {
            None => {
                proof {
                    assert(self@ =~= pre@);
                }
                Err(FatalError::UnknownAddress)
            },
            Some(old_block) => {
                let new_next = match advance_amount(new_size) {
                    Some(adv) => self.next_addr.checked_add(adv),
                    None => None,
                };
                match new_next {
                    None => {
                        self.blocks.insert(addr, old_block);
                        proof {
                            assert(self@ =~= pre@);
                        }
                        Ok(0)
                    },
                    Some(new_next) => {
                        let new_addr = self.next_addr;
                        let block = copy_block(&old_block, new_size);
                        let ghost removed_view = self@;
                        self.blocks.insert(new_addr, block);
                        self.next_addr = new_next;
                        proof {
                            assert(removed_view =~= pre@.remove(addr));
                            assert(self@ =~= pre@.remove(addr).insert(new_addr, self@[new_addr]));
                        }
                        Ok(new_addr)
                    },
                }
            },
        }
    }
}

impl AllocationRegistry {
    /// Whether `addr` is the address of a live allocation.
    pub fn is_live(&self, addr: usize) -> (r: bool)
        ensures
            r == self@.contains_key(addr),
    {
        self.blocks.contains_key(&addr)
    }

    /// The registered size of the live block at `addr`, or `None` when no
    /// live allocation owns `addr`.
    pub fn block_size(&self, addr: usize) -> (r: Option<usize>)
        ensures
            match r {
                Some(n) => self@.contains_key(addr) && n == self@[addr].len(),
                None => !self@.contains_key(addr),
            },
    {
        match self.blocks.get(&addr) {
            Some(block) => Some(block.len()),
            None => None,
        }
    }

    /// The number of currently live allocations — one registry entry each.
    pub fn live_count(&self) -> (r: usize)
        ensures
            r == self@.len(),
    {
        proof {
            assert(self@.dom() =~= self.blocks@.dom());
        }
        self.blocks.len()
    }

    /// The byte at `offset` within the live block at `addr`, or `None` when
    /// `addr` is not live or `offset` is out of the block's bounds.
    pub fn read_byte(&self, addr: usize, offset: usize) -> (r: Option<u8>)
        ensures
            match r {
                Some(b) => self@.contains_key(addr) && offset < self@[addr].len()
                    && b == self@[addr][offset as int],
                None => !self@.contains_key(addr) || offset >= self@[addr].len(),
            },
    {
        match self.blocks.get(&addr) {
            Some(block) => {
                if offset < block.len() {
                    Some(block[offset])
                } else {
                    None
                }
            },
            None => None,
        }
    }

    /// Stores `value` at `offset` within the live block at `addr`. Returns
    /// whether the store happened: it does not when `addr` is not live or
    /// `offset` is out of the block's bounds, and the registry is then
    /// untouched.
    pub fn write_byte(&mut self, addr: usize, offset: usize, value: u8) -> (r: bool)
        requires
            old(self).wf(),
        ensures
            final(self).wf(),
            r == (old(self)@.contains_key(addr) && offset < old(self)@[addr].len()),
            r ==> final(self)@ == old(self)@.insert(
                addr,
                old(self)@[addr].update(offset as int, value),
            ),
            !r ==> final(self)@ == old(self)@,
            final(self).next_address() == old(self).next_address(),
    {
        let ghost pre = *self;
        match self.blocks.remove(&addr) {
            None => {
                proof {
                    assert(self@ =~= pre@);
                }
                false
            },
            Some(mut block) => {
                if offset < block.len() {
                    block[offset] = value;
                    self.blocks.insert(addr, block);
                    proof {
                        assert(self@ =~= pre@.insert(addr, pre@[addr].update(offset as int, value)));
                    }
                    true
                } else {
                    self.blocks.insert(addr, block);
                    proof {
                        assert(self@ =~= pre@);
                    }
                    false
                }
            },
        }
    }
}

/// Creates the registry that callers thread through the entry points: empty,
/// with its frontier at the first aligned nonzero address.
pub fn get_malloc_map() -> (r: AllocationRegistry)
    ensures
        r.wf(),
        r@ == Map::<usize, Seq<u8>>::empty(),
        r.next_address() == ALIGN,
{
    let r = AllocationRegistry { blocks: HashMap::new(), next_addr: ALIGN };
    proof {
        assert(r@ =~= Map::<usize, Seq<u8>>::empty());
    }
    r
}

} // verus!

//! The memory subsystem's core: a monotonic bump allocator over a fixed
//! address range, and a model of the address translation that the MMU sets
//! up, against which the deliberate fault-injection self-test is stated.

use vstd::prelude::*;
use vstd::arithmetic::div_mod::{
    lemma_fundamental_div_mod, lemma_mod_bound, lemma_mod_multiples_basic,
};

verus! {

/// A half-open range of addresses, `[start, end)`, granted by the allocator.
#[derive(Clone, Copy, Debug, PartialEq, Eq, Structural)]
pub struct AllocRange {
    pub start: usize,
    pub end: usize,
}

/// The one error the bump allocator can report: the request does not fit in
/// what is left of the range.
#[derive(Clone, Copy, Debug, PartialEq, Eq, Structural)]
pub struct OutOfMemory;

/// The smallest multiple of `align` that is at least `addr`.
pub open spec fn align_up(addr: int, align: int) -> int
    recommends
        align >= 1,
        addr >= 0,
{
    if addr % align == 0 {
        addr
    } else {
        addr + (align - addr % align)
    }
}

/// `align_up` lands on a multiple of `align`, at or above `addr`, and less
/// than one whole `align` above it.
pub proof fn lemma_align_up(addr: int, align: int)
    requires
        align >= 1,
        addr >= 0,
    ensures
        addr <= align_up(addr, align) < addr + align,
        align_up(addr, align) % align == 0,
{
    lemma_mod_bound(addr, align);
    if addr % align != 0 {
        lemma_fundamental_div_mod(addr, align);
        assert(addr + (align - addr % align) == (addr / align + 1) * align) by {
            assert(addr == align * (addr / align) + addr % align);
            assert((addr / align + 1) * align == align * (addr / align) + align)
                by (nonlinear_arith);
        }
        lemma_mod_multiples_basic(addr / align + 1, align);
    }
}

/// Whether a request of `size` bytes at alignment `align` fits in the
/// allocator's remaining space. This is exactly the success condition of
/// [`BumpAllocator::allocate`].
pub open spec fn request_fits(a: BumpAllocator, size: int, align: int) -> bool
    recommends
        align >= 1,
{
    align_up(a.cursor() as int, align) + size <= a.range_end() as int
}

/// Monotonic forward allocator over the fixed address range
/// `[range_start, range_end)`. The cursor only ever advances; nothing is
/// ever reclaimed, so every granted range stays valid until process end.
pub struct BumpAllocator {
    start: usize,
    end: usize,
    cursor: usize,
    tag: &'static str,
    granted: Ghost<Seq<(usize, usize)>>,
}

impl BumpAllocator {
    /// First address of the managed range.
    pub closed spec fn range_start(&self) -> usize {
        self.start
    }

    /// One past the last address of the managed range.
    pub closed spec fn range_end(&self) -> usize {
        self.end
    }

    /// Next address that may be granted; everything below it (and at or
    /// above `range_start`) is already spoken for.
    pub closed spec fn cursor(&self) -> usize {
        self.cursor
    }

    /// The human-readable tag given at construction.
    pub closed spec fn tag_spec(&self) -> Seq<char> {
        self.tag@
    }

    /// Every range granted so far, in grant order, as `(start, end)` pairs.
    pub closed spec fn granted(&self) -> Seq<(usize, usize)> {
        self.granted@
    }

    /// The allocator's invariant: the cursor sits inside the managed range,
    /// and the granted ranges lie below the cursor, in ascending order,
    /// never overlapping.
    pub closed spec fn wf(&self) -> bool {
        &&& self.start <= self.cursor <= self.end
        &&& forall|i: int|
            0 <= i < self.granted@.len() ==> self.start <= (#[trigger] self.granted@[i]).0
                <= self.granted@[i].1 <= self.cursor
        &&& forall|i: int, j: int|
            0 <= i < j < self.granted@.len() ==> (#[trigger] self.granted@[i]).1
                <= (#[trigger] self.granted@[j]).0
    }

    pub fn new(start: usize, end: usize, tag: &'static str) -> (a: Self)
        requires
            start <= end,
        ensures
            a.wf(),
            a.range_start() == start,
            a.range_end() == end,
            a.cursor() == start,
            a.tag_spec() == tag@,
            a.granted() == Seq::<(usize, usize)>::empty(),
    {
        BumpAllocator { start, end, cursor: start, tag, granted: Ghost(Seq::empty()) }
    }

    /// Align the cursor up to `align`, check that `size` more bytes still
    /// fit before `range_end`, and only then commit: the cursor moves to the
    /// end of the granted range. A request that does not fit leaves the
    /// allocator exactly as it was — failed allocations are no-ops.
    pub fn allocate(&mut self, size: usize, align: usize) -> (r: Result<AllocRange, OutOfMemory>)
        requires
            old(self).wf(),
            align >= 1,
        ensures
            final(self).wf(),
            final(self).range_start() == old(self).range_start(),
            final(self).range_end() == old(self).range_end(),
            final(self).tag_spec() == old(self).tag_spec(),
            r is Ok <==> request_fits(*old(self), size as int, align as int),
            match r {
                Ok(g) => {
                    &&& g.start == align_up(old(self).cursor() as int, align as int)
                    &&& g.end == g.start + size
                    &&& (g.start as int) % (align as int) == 0
                    &&& old(self).cursor() <= g.start
                    &&& old(self).range_start() <= g.start <= g.end <= old(self).range_end()
                    &&& final(self).cursor() == g.end
                    &&& final(self).granted() == old(self).granted().push((g.start, g.end))
                    &&& forall|i: int|
                        0 <= i < old(self).granted().len() ==> (#[trigger] old(
                            self,
                        ).granted()[i]).1 <= g.start
                },
                Err(e) => {
                    &&& e == OutOfMemory
                    &&& *final(self) == *old(self)
                },
            },
    {
        proof {
            lemma_align_up(self.cursor as int, align as int);
        }
        let rem: usize = self.cursor % align;
        let aligned: usize = if rem == 0 {
            self.cursor
        } else {
            match self.cursor.checked_add(align - rem) {
                Some(a) => a,
                None => {
                    return Err(OutOfMemory);
                },
            }
        };
        let alloc_end: usize = match aligned.checked_add(size) {
            Some(e) => e,
            None => {
                return Err(OutOfMemory);
            },
        };
        if alloc_end > self.end {
            return Err(OutOfMemory);
        }
        self.cursor = alloc_end;
        proof {
            self.granted@ = self.granted@.push((aligned, alloc_end));
        }
        Ok(AllocRange { start: aligned, end: alloc_end })
    }

    pub fn current_cursor(&self) -> (c: usize)
        ensures
            c == self.cursor(),
    {
        self.cursor
    }

    pub fn tag(&self) -> (t: &'static str)
        ensures
            t@ == self.tag_spec(),
    {
        self.tag
    }
}

/// One past the highest virtual address for which the boot-time page tables
/// set up a translation: only `[0, MAPPED_RANGE_END)` is mapped.
pub const MAPPED_RANGE_END: u64 = 0x4000_0000;

/// An address certain to have no translation: well above `MAPPED_RANGE_END`.
/// Reading it is the bring-up sequence's deliberate fault injection.
pub const FAULT_TEST_ADDR: u64 = 0xC000_0000;

/// Whether the boot-time page tables translate `addr` at all.
pub open spec fn address_mapped(addr: u64, mapped_end: u64) -> bool {
    addr < mapped_end
}

/// Two half-open ranges share no address.
pub open spec fn ranges_disjoint(a: (usize, usize), b: (usize, usize)) -> bool {
    a.1 <= b.0 || b.1 <= a.0
}

/// Every pair of ranges a well-formed allocator has granted is disjoint,
/// and each lies within the managed range: grants never overlap, and none
/// escapes `[range_start, range_end)`.
pub proof fn lemma_granted_ranges_disjoint(a: BumpAllocator)
    requires
        a.wf(),
    ensures
        forall|i: int, j: int|
            0 <= i < a.granted().len() && 0 <= j < a.granted().len() && i != j
                ==> ranges_disjoint(#[trigger] a.granted()[i], #[trigger] a.granted()[j]),
        forall|i: int|
            0 <= i < a.granted().len() ==> a.range_start() <= (#[trigger] a.granted()[i]).0
                && a.granted()[i].1 <= a.range_end(),
{
}

} // verus!

//! The registry of live shared-virtual-memory allocations of a context.

use vstd::prelude::*;

verus! {
/// One live allocation: `size` bytes that begin at address `base`.
#[derive(Clone, Copy, Debug, PartialEq, Eq, Structural)]
pub struct SvmAllocation {
    pub base: usize,
    pub size: usize,
    pub align: usize,
}

impl SvmAllocation {
    /// The address lies inside the allocation.
    pub open spec fn spans(self, ptr: usize) -> bool {
        self.base <= ptr < self.base + self.size
    }

    /// The allocation is not null, not empty, and ends within the address
    /// space.
    pub open spec fn valid(self) -> bool {
        self.base != 0 && self.size > 0 && self.base + self.size <= usize::MAX
    }

    /// The two allocations share no address.
    pub open spec fn disjoint(self, other: SvmAllocation) -> bool {
        self.base + self.size <= other.base || other.base + other.size <= self.base
    }
}

/// Every allocation is valid and no two share an address.
pub open spec fn tracker_wf(allocs: Seq<SvmAllocation>) -> bool {
    &&& forall|i: int| 0 <= i < allocs.len() ==> (#[trigger] allocs[i]).valid()
    &&& forall|i: int, j: int|
        0 <= i < j < allocs.len() ==> (#[trigger] allocs[i]).disjoint(#[trigger] allocs[j])
}

/// The allocation that holds the address, if one does.
pub open spec fn containing(allocs: Seq<SvmAllocation>, ptr: usize) -> Option<SvmAllocation> {
    if exists|i: int| 0 <= i < allocs.len() && (#[trigger] allocs[i]).spans(ptr) {
        Some(allocs[choose|i: int| 0 <= i < allocs.len() && (#[trigger] allocs[i]).spans(ptr)])
    } else {
        None
    }
}

/// The index of the allocation that begins at the address, if one does.
pub open spec fn based_at(allocs: Seq<SvmAllocation>, base: usize) -> Option<int> {
    if exists|i: int| 0 <= i < allocs.len() && (#[trigger] allocs[i]).base == base {
        Some(choose|i: int| 0 <= i < allocs.len() && (#[trigger] allocs[i]).base == base)
    } else {
        None
    }
}

/// The range of `size` bytes at `base` can be taken into the registry: it is
/// a valid allocation and free of every live one.
pub open spec fn range_free(allocs: Seq<SvmAllocation>, base: usize, size: usize) -> bool {
    let a = SvmAllocation { base, size, align: 0 };
    &&& a.valid()
    &&& forall|i: int| 0 <= i < allocs.len() ==> (#[trigger] allocs[i]).disjoint(a)
}

/// In a well-formed registry an address lies in one allocation at most, so
/// the allocation that spans it is the one that a lookup finds.
pub proof fn lemma_containing_unique(allocs: Seq<SvmAllocation>, i: int, ptr: usize)
    requires
        tracker_wf(allocs),
        0 <= i < allocs.len(),
        allocs[i].spans(ptr),
    ensures
        containing(allocs, ptr) == Some(allocs[i]),
{
}

/// Every address inside an allocation that was just registered resolves to
/// that allocation.
pub proof fn lemma_find_after_alloc(before: Seq<SvmAllocation>, a: SvmAllocation, ptr: usize)
    requires
        tracker_wf(before),
        range_free(before, a.base, a.size),
        a.spans(ptr),
    ensures
        tracker_wf(before.push(a)),
        containing(before.push(a), ptr) == Some(a),
{
    lemma_push_keeps_wf(before, a);
    let after = before.push(a);
    lemma_containing_unique(after, before.len() as int, ptr);
}

proof fn lemma_push_keeps_wf(before: Seq<SvmAllocation>, a: SvmAllocation)
    requires
        tracker_wf(before),
        range_free(before, a.base, a.size),
    ensures
        tracker_wf(before.push(a)),
{
}

/// The live shared-virtual-memory allocations of one context.
#[derive(Debug, PartialEq, Eq)]
pub struct SvmTracker {
    allocs: Vec<SvmAllocation>,
}

impl View for SvmTracker {
    type V = Seq<SvmAllocation>;

    closed spec fn view(&self) -> Seq<SvmAllocation> {
        self.allocs@
    }
}

impl SvmTracker {
    /// The allocations are valid and share no address. Every registry that
    /// this module hands out is well formed, and every method keeps it so.
    pub open spec fn wf(&self) -> bool {
        tracker_wf(self@)
    }

    /// A registry without allocations.
    pub fn new() -> (r: SvmTracker)
        ensures
            r@ == Seq::<SvmAllocation>::empty(),
            r.wf(),
    {
        SvmTracker { allocs: Vec::new() }
    }

    /// The number of live allocations.
    pub fn len(&self) -> (r: usize)
        ensures
            r == self@.len(),
    {
        self.allocs.len()
    }

    /// The `i`-th live allocation, in the order of registration.
    pub fn get(&self, i: usize) -> (r: SvmAllocation)
        requires
            i < self@.len(),
        ensures
            r == self@[i as int],
    {
        self.allocs[i]
    }

    /// The allocation that holds the address, if one does.
    pub fn find_alloc(&self, ptr: usize) -> (r: Option<SvmAllocation>)
        requires
            self.wf(),
        ensures
            r == containing(self@, ptr),
            r matches Some(a) ==> a.spans(ptr) && a.valid(),
    {
        let mut i: usize = 0;
        while i < self.allocs.len()
            invariant
                i <= self.allocs.len(),
                tracker_wf(self.allocs@),
                forall|j: int| 0 <= j < i ==> !(#[trigger] self.allocs@[j]).spans(ptr),
            decreases self.allocs.len() - i,
        {
            let a: SvmAllocation = self.allocs[i];
            if a.base <= ptr && ptr - a.base < a.size {
                return Some(a);
            }
            i = i + 1;
        }
        None
    }

    /// Whether the range of `size` bytes at `base` is a valid allocation
    /// that shares no address with a live one.
    pub fn is_free(&self, base: usize, size: usize) -> (r: bool)
        requires
            self.wf(),
        ensures
            r == range_free(self@, base, size),
    {
        if base == 0 || size == 0 || size > usize::MAX - base {
            return false;
        }
        let ghost probe = SvmAllocation { base, size, align: 0 };
        let mut i: usize = 0;
        while i < self.allocs.len()
            invariant
                i <= self.allocs.len(),
                tracker_wf(self.allocs@),
                probe == (SvmAllocation { base, size, align: 0 }),
                probe.valid(),
                forall|j: int| 0 <= j < i ==> (#[trigger] self.allocs@[j]).disjoint(probe),
            decreases self.allocs.len() - i,
        {
            let a: SvmAllocation = self.allocs[i];
            if !(a.base + a.size <= base || base + size <= a.base) {
                return false;
            }
            i = i + 1;
        }
        true
    }

    /// Registers an allocation.
    pub fn insert(&mut self, a: SvmAllocation)
        requires
            old(self).wf(),
            range_free(old(self)@, a.base, a.size),
        ensures
            final(self)@ == old(self)@.push(a),
            final(self).wf(),
    {
        self.allocs.push(a);
    }

    /// Forgets the allocation that begins at `base` and returns it. Where
    /// none begins there, nothing changes.
    pub fn remove(&mut self, base: usize) -> (r: Option<SvmAllocation>)
        requires
            old(self).wf(),
        ensures
            final(self).wf(),
            match based_at(old(self)@, base) {
                Some(i) => r == Some(old(self)@[i]) && final(self)@ == old(self)@.remove(i),
                None => r is None && final(self)@ == old(self)@,
            },
    {
        let mut i: usize = 0;
        while i < self.allocs.len()
            invariant
                i <= self.allocs.len(),
                self.allocs@ == old(self).allocs@,
                tracker_wf(self.allocs@),
                forall|j: int| 0 <= j < i ==> (#[trigger] self.allocs@[j]).base != base,
            decreases self.allocs.len() - i,
        {
            if self.allocs[i].base == base {
                let a: SvmAllocation = self.allocs.remove(i);
                return Some(a);
            }
            i = i + 1;
        }
        None
    }
}

} // verus!

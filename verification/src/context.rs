//! A context: its devices, its shared-virtual-memory allocations, and the
//! handles it gives to the objects made in it. A queue runs on one device
//! of a context.

use vstd::prelude::*;
use crate::device::{
    any_device_has, any_has, is_min_cap, min_cap, min_cap_of, Cap, Device, Feature,
};
use crate::svm::{based_at, containing, range_free, tracker_wf, SvmAllocation, SvmTracker};

verus! {
/// Everything that a context holds, as contracts see it.
pub struct ContextState {
    /// The identity of the context.
    pub id: usize,
    pub devs: Seq<Device>,
    /// The live shared-virtual-memory allocations.
    pub svm: Seq<SvmAllocation>,
    /// Whether the context was made from a GL context.
    pub gl: bool,
    /// The handle that the next object made in the context gets.
    pub next_handle: usize,
}

/// A context has a device, its allocations are valid and share no address,
/// and it hands out no handle of zero.
pub open spec fn context_wf(s: ContextState) -> bool {
    &&& s.devs.len() > 0
    &&& tracker_wf(s.svm)
    &&& s.next_handle != 0
}

/// A context.
#[derive(Debug, PartialEq, Eq)]
pub struct Context {
    id: usize,
    devs: Vec<Device>,
    svm: SvmTracker,
    gl: bool,
    next_handle: usize,
}

impl View for Context {
    type V = ContextState;

    closed spec fn view(&self) -> ContextState {
        ContextState {
            id: self.id,
            devs: self.devs@,
            svm: self.svm@,
            gl: self.gl,
            next_handle: self.next_handle,
        }
    }
}

impl Context {
    /// What holds of every context. Every context that this module hands
    /// out is well formed, and every method keeps it so.
    pub open spec fn wf(&self) -> bool {
        context_wf(self@)
    }

    /// A context of the given identity over the given devices; none without
    /// a device.
    pub fn new(id: usize, devs: Vec<Device>, gl: bool) -> (r: Option<Context>)
        ensures
            r is Some <==> devs@.len() > 0,
            r matches Some(c) ==> c.wf() && c@ == (ContextState {
                id,
                devs: devs@,
                svm: Seq::empty(),
                gl,
                next_handle: 1,
            }),
    {
        if devs.len() == 0 {
            return None;
        }
        Some(Context { id, devs, svm: SvmTracker::new(), gl, next_handle: 1 })
    }

    /// The identity of the context.
    pub fn id(&self) -> (r: usize)
        ensures
            r == self@.id,
    {
        self.id
    }

    /// The devices of the context.
    pub fn devs(&self) -> (r: &Vec<Device>)
        ensures
            r@ == self@.devs,
    {
        &self.devs
    }

    /// Whether the context was made from a GL context.
    pub fn has_gl(&self) -> (r: bool)
        ensures
            r == self@.gl,
    {
        self.gl
    }

    /// The number of live shared-virtual-memory allocations.
    pub fn svm_len(&self) -> (r: usize)
        ensures
            r == self@.svm.len(),
    {
        self.svm.len()
    }

    /// The `i`-th live allocation, in the order of registration.
    pub fn svm_alloc_at(&self, i: usize) -> (r: SvmAllocation)
        requires
            i < self@.svm.len(),
        ensures
            r == self@.svm[i as int],
    {
        self.svm.get(i)
    }

    /// The largest allocation that every device of the context can make.
    pub fn max_mem_alloc(&self) -> (r: u64)
        requires
            self.wf(),
        ensures
            is_min_cap(self@.devs, Cap::MaxMemAlloc, r),
            r == min_cap_of(self@.devs, Cap::MaxMemAlloc),
    {
        min_cap(&self.devs, Cap::MaxMemAlloc)
    }

    /// Whether some device of the context supports shared virtual memory.
    pub fn has_svm_devs(&self) -> (r: bool)
        ensures
            r == any_has(self@.devs, Feature::Svm),
    {
        any_device_has(&self.devs, Feature::Svm)
    }

    /// The base and the size of the allocation that holds the address, if
    /// one does.
    pub fn find_svm_alloc(&self, ptr: usize) -> (r: Option<(usize, usize)>)
        requires
            self.wf(),
        ensures
            r == spec_find(self@.svm, ptr),
            r matches Some((base, size)) ==> base <= ptr < base + size <= usize::MAX,
    {
        match self.svm.find_alloc(ptr) {
            Some(a) => Some((a.base, a.size)),
            None => None,
        }
    }

    /// Whether the range can be registered as a new allocation.
    pub fn svm_range_free(&self, base: usize, size: usize) -> (r: bool)
        requires
            self.wf(),
        ensures
            r == range_free(self@.svm, base, size),
    {
        self.svm.is_free(base, size)
    }

    /// Registers an allocation.
    pub fn add_svm_ptr(&mut self, a: SvmAllocation)
        requires
            old(self).wf(),
            range_free(old(self)@.svm, a.base, a.size),
        ensures
            final(self).wf(),
            final(self)@ == (ContextState { svm: old(self)@.svm.push(a), ..old(self)@ }),
    {
        self.svm.insert(a);
    }

    /// Forgets the allocation that begins at the address, and returns it;
    /// where none begins there, nothing changes.
    pub fn remove_svm_ptr(&mut self, ptr: usize) -> (r: Option<SvmAllocation>)
        requires
            old(self).wf(),
        ensures
            final(self).wf(),
            match based_at(old(self)@.svm, ptr) {
                Some(i) => r == Some(old(self)@.svm[i]) && final(self)@ == (ContextState {
                    svm: old(self)@.svm.remove(i),
                    ..old(self)@
                }),
                None => r is None && final(self)@ == old(self)@,
            },
    {
        let r = self.svm.remove(ptr);
        r
    }

    /// Draws the handle of a new object; none when the handles have run
    /// out. No handle is zero and none is drawn twice.
    pub fn fresh_handle(&mut self) -> (r: Option<usize>)
        requires
            old(self).wf(),
        ensures
            final(self).wf(),
            match r {
                Some(h) => h == old(self)@.next_handle && h != 0 && h < usize::MAX && final(self)@
                    == (ContextState { next_handle: (h + 1) as usize, ..old(self)@ }),
                None => old(self)@.next_handle == usize::MAX && final(self)@ == old(self)@,
            },
    {
        if self.next_handle == usize::MAX {
            return None;
        }
        let h: usize = self.next_handle;
        self.next_handle = h + 1;
        Some(h)
    }
}

/// The base and the size of the allocation that holds the address, if one
/// does.
pub open spec fn spec_find(allocs: Seq<SvmAllocation>, ptr: usize) -> Option<(usize, usize)> {
    match containing(allocs, ptr) {
        Some(a) => Some((a.base, a.size)),
        None => None,
    }
}

/// A queue: the context it belongs to and the device it runs on.
#[derive(Debug, PartialEq, Eq)]
pub struct Queue {
    pub context: usize,
    pub device: Device,
}

} // verus!

//! Memory objects: what a buffer or an image is made of, the regions of it
//! that are mapped, and the callbacks that run when it goes away.

use vstd::prelude::*;
use crate::desc::{spec_image_type_valid, ImageDesc, CL_MEM_OBJECT_BUFFER};
use crate::error::{CLResult, ClError};
use crate::flags::mem_flags_valid;
use crate::format::ImageFormat;
use crate::properties::Properties;
use crate::util::CLVec;

verus! {
/// A callback that runs when a memory object is destroyed: the address of
/// the function and the word that is handed to it.
#[derive(Clone, Copy, Debug, PartialEq, Eq, Structural)]
pub struct MemCB {
    pub func: usize,
    pub user_data: usize,
}

/// The GL object that a memory object was made from.
#[derive(Clone, Copy, Debug, PartialEq, Eq, Structural)]
pub struct GLObject {
    pub gl_object_target: u32,
    pub gl_object_type: u32,
    pub gl_object_name: u32,
}

/// What an image has beyond a buffer.
#[derive(Clone, Copy, Debug, PartialEq, Eq, Structural)]
pub struct ImageInfo {
    pub format: ImageFormat,
    pub desc: ImageDesc,
    pub elem_size: u8,
}

/// A region of a memory object that the host has mapped.
///
/// For a buffer the region is the run of `region.x` bytes at offset
/// `origin.x`; for an image it is a box of pixels.
#[derive(Clone, Copy, Debug, PartialEq, Eq, Structural)]
pub struct Mapping {
    /// The host address of the mapping, by which it is unmapped.
    pub ptr: usize,
    pub origin: CLVec,
    pub region: CLVec,
    /// Whether the host may write through the mapping.
    pub writes: bool,
    /// Whether the content passes between device and host when the region
    /// is mapped and when it is unmapped; it does not where the mapping
    /// drops what the region held.
    pub sync: bool,
    /// How often the address has been mapped and not yet unmapped.
    pub count: usize,
}

/// Everything that a memory object holds, as contracts see it.
pub struct MemState {
    /// The handle of the object; no two objects of a context share one.
    pub handle: usize,
    /// The handle of the object whose memory this one uses: its own, or
    /// that of the object at the root of its derivation.
    pub storage: usize,
    /// The identity of the context that the object belongs to.
    pub context: usize,
    pub mem_type: u32,
    pub flags: u64,
    /// The size in bytes.
    pub size: usize,
    /// The host memory that the object uses, or 0.
    pub host_ptr: usize,
    /// Where the object begins in the memory that it shares.
    pub offset: usize,
    /// The handle of the object that this one was derived from.
    pub parent: Option<usize>,
    pub props: Seq<(u64, u64)>,
    pub props_given: bool,
    pub cbs: Seq<MemCB>,
    pub gl_obj: Option<GLObject>,
    pub maps: Seq<Mapping>,
    /// Whether the object uses shared virtual memory as its host memory.
    pub svm: bool,
    /// The addresses of the object on the devices, where it has any.
    pub dev_addresses: Option<Seq<u64>>,
    pub image: Option<ImageInfo>,
}

/// The index of the mapping with the given address, if there is one.
pub open spec fn mapped_at(maps: Seq<Mapping>, ptr: usize) -> Option<int> {
    if exists|i: int| 0 <= i < maps.len() && (#[trigger] maps[i]).ptr == ptr {
        Some(choose|i: int| 0 <= i < maps.len() && (#[trigger] maps[i]).ptr == ptr)
    } else {
        None
    }
}

/// Every mapping is in use and has an address, and no two have the same.
pub open spec fn maps_wf(maps: Seq<Mapping>) -> bool {
    &&& forall|i: int|
        0 <= i < maps.len() ==> (#[trigger] maps[i]).count >= 1 && maps[i].ptr != 0
    &&& forall|i: int, j: int|
        0 <= i < j < maps.len() ==> (#[trigger] maps[i]).ptr != (#[trigger] maps[j]).ptr
}

/// What holds of every memory object: its flags are valid; it ends, and
/// its host memory ends, within the address space; an object without a
/// parent uses its own memory from the start, and the parent of a
/// sub-buffer does, so that no sub-buffer is made from a sub-buffer; it is
/// a buffer exactly when it has no image part, and the image part is of
/// the object's type; and its mappings are well formed.
pub open spec fn state_wf(s: MemState) -> bool {
    &&& s.handle != 0
    &&& s.storage != 0
    &&& s.parent is None ==> s.storage == s.handle && s.offset == 0
    &&& s.mem_type == CL_MEM_OBJECT_BUFFER && s.parent is Some ==> s.storage == s.parent->0
    &&& mem_flags_valid(s.flags, false)
    &&& s.offset + s.size <= usize::MAX
    &&& s.host_ptr != 0 ==> s.host_ptr + s.size <= usize::MAX
    &&& (s.mem_type == CL_MEM_OBJECT_BUFFER) == (s.image is None)
    &&& s.image matches Some(i) ==> spec_image_type_valid(s.mem_type) && i.desc.image_type
        == s.mem_type && i.elem_size >= 1
    &&& maps_wf(s.maps)
}

/// What a memory object that may have been left out holds.
pub open spec fn opt_state(m: Option<&MemObject>) -> Option<MemState> {
    match m {
        Some(p) => Some(p@),
        None => None,
    }
}

/// The buffer that is made with its own memory.
pub open spec fn buffer_state(
    handle: usize,
    context: usize,
    flags: u64,
    size: usize,
    host_ptr: usize,
    svm: bool,
    props: Seq<(u64, u64)>,
    props_given: bool,
) -> MemState {
    MemState {
        handle,
        storage: handle,
        context,
        mem_type: CL_MEM_OBJECT_BUFFER,
        flags,
        size,
        host_ptr,
        offset: 0,
        parent: None,
        props,
        props_given,
        cbs: Seq::empty(),
        gl_obj: None,
        maps: Seq::empty(),
        svm,
        dev_addresses: None,
        image: None,
    }
}

/// The buffer that is the region of `size` bytes at `offset` of a parent:
/// it shares the parent's memory and context, and begins `offset` bytes
/// into the parent and into the parent's host memory.
pub open spec fn sub_buffer_state(
    parent: MemState,
    handle: usize,
    flags: u64,
    offset: usize,
    size: usize,
) -> MemState {
    MemState {
        handle,
        storage: parent.storage,
        context: parent.context,
        mem_type: CL_MEM_OBJECT_BUFFER,
        flags,
        size,
        host_ptr: if parent.host_ptr != 0 {
            (parent.host_ptr + offset) as usize
        } else {
            0
        },
        offset: (parent.offset + offset) as usize,
        parent: Some(parent.handle),
        props: Seq::empty(),
        props_given: false,
        cbs: Seq::empty(),
        gl_obj: None,
        maps: Seq::empty(),
        svm: parent.svm,
        dev_addresses: None,
        image: None,
    }
}

/// The image that is made with its own memory, or from a parent whose
/// memory and host memory it shares.
pub open spec fn image_state(
    handle: usize,
    context: usize,
    parent: Option<MemState>,
    flags: u64,
    image: ImageInfo,
    size: usize,
    host_ptr: usize,
    props: Seq<(u64, u64)>,
    props_given: bool,
) -> MemState {
    MemState {
        handle,
        storage: match parent {
            Some(p) => p.storage,
            None => handle,
        },
        context,
        mem_type: image.desc.image_type,
        flags,
        size,
        host_ptr: match parent {
            Some(p) => p.host_ptr,
            None => host_ptr,
        },
        offset: match parent {
            Some(p) => p.offset,
            None => 0,
        },
        parent: match parent {
            Some(p) => Some(p.handle),
            None => None,
        },
        props,
        props_given,
        cbs: Seq::empty(),
        gl_obj: None,
        maps: Seq::empty(),
        svm: false,
        dev_addresses: None,
        image: Some(image),
    }
}

/// A buffer or an image.
#[derive(Debug, PartialEq, Eq)]
pub struct MemObject {
    handle: usize,
    storage: usize,
    context: usize,
    mem_type: u32,
    flags: u64,
    size: usize,
    host_ptr: usize,
    offset: usize,
    parent: Option<usize>,
    props: Properties,
    cbs: Vec<MemCB>,
    gl_obj: Option<GLObject>,
    maps: Vec<Mapping>,
    svm: bool,
    dev_addresses: Option<Vec<u64>>,
    image: Option<ImageInfo>,
}

impl View for MemObject {
    type V = MemState;

    closed spec fn view(&self) -> MemState {
        MemState {
            handle: self.handle,
            storage: self.storage,
            context: self.context,
            mem_type: self.mem_type,
            flags: self.flags,
            size: self.size,
            host_ptr: self.host_ptr,
            offset: self.offset,
            parent: self.parent,
            props: self.props@,
            props_given: self.props.spec_is_given(),
            cbs: self.cbs@,
            gl_obj: self.gl_obj,
            maps: self.maps@,
            svm: self.svm,
            dev_addresses: match self.dev_addresses {
                Some(v) => Some(v@),
                None => None,
            },
            image: self.image,
        }
    }
}

impl MemObject {
    /// What holds of every memory object. Every object that this crate
    /// hands out is well formed, and every method keeps it so.
    pub open spec fn wf(&self) -> bool {
        state_wf(self@)
    }

    /// Whether the object is a buffer.
    pub open spec fn spec_is_buffer(&self) -> bool {
        self@.mem_type == CL_MEM_OBJECT_BUFFER
    }

    /// A buffer of its own: it has no parent and its memory is its own.
    pub fn new_buffer(
        handle: usize,
        context: usize,
        flags: u64,
        size: usize,
        host_ptr: usize,
        svm: bool,
        props: Properties,
    ) -> (r: MemObject)
        requires
            handle != 0,
            mem_flags_valid(flags, false),
            host_ptr != 0 ==> host_ptr + size <= usize::MAX,
        ensures
            r.wf(),
            r@ == buffer_state(handle, context, flags, size, host_ptr, svm, props@, props.spec_is_given()),
    {
        MemObject {
            handle,
            storage: handle,
            context,
            mem_type: CL_MEM_OBJECT_BUFFER,
            flags,
            size,
            host_ptr,
            offset: 0,
            parent: None,
            props,
            cbs: Vec::new(),
            gl_obj: None,
            maps: Vec::new(),
            svm,
            dev_addresses: None,
            image: None,
        }
    }

    /// A buffer that is the region of `size` bytes at `offset` of a parent
    /// buffer: it shares the parent's memory, context and host memory.
    pub fn new_sub_buffer(parent: &MemObject, handle: usize, flags: u64, offset: usize, size: usize) -> (r:
        MemObject)
        requires
            parent.wf(),
            parent.spec_is_buffer(),
            parent@.parent is None,
            handle != 0,
            mem_flags_valid(flags, false),
            offset + size <= parent@.size,
        ensures
            r.wf(),
            r@ == sub_buffer_state(parent@, handle, flags, offset, size),
    {
        let host_ptr: usize = if parent.host_ptr != 0 {
            parent.host_ptr + offset
        } else {
            0
        };
        MemObject {
            handle,
            storage: parent.storage,
            context: parent.context,
            mem_type: CL_MEM_OBJECT_BUFFER,
            flags,
            size,
            host_ptr,
            offset: parent.offset + offset,
            parent: Some(parent.handle),
            props: Properties::empty(),
            cbs: Vec::new(),
            gl_obj: None,
            maps: Vec::new(),
            svm: parent.svm,
            dev_addresses: None,
            image: None,
        }
    }

    /// An image. Made from a parent it shares the parent's memory and host
    /// memory; else its memory is its own.
    pub fn new_image(
        handle: usize,
        context: usize,
        parent: Option<&MemObject>,
        flags: u64,
        image: ImageInfo,
        size: usize,
        host_ptr: usize,
        props: Properties,
    ) -> (r: MemObject)
        requires
            handle != 0,
            mem_flags_valid(flags, false),
            spec_image_type_valid(image.desc.image_type),
            image.elem_size >= 1,
            parent matches Some(p) ==> p.wf() && p@.offset + size <= usize::MAX && (p@.host_ptr
                != 0 ==> p@.host_ptr + size <= usize::MAX),
            parent is None && host_ptr != 0 ==> host_ptr + size <= usize::MAX,
        ensures
            r.wf(),
            r@ == image_state(
                handle,
                context,
                opt_state(parent),
                flags,
                image,
                size,
                host_ptr,
                props@,
                props.spec_is_given(),
            ),
    {
        let (storage, host, offset, parent_handle): (usize, usize, usize, Option<usize>) =
            match parent {
            Some(p) => (p.storage, p.host_ptr, p.offset, Some(p.handle)),
            None => (handle, host_ptr, 0, None),
        };
        MemObject {
            handle,
            storage,
            context,
            mem_type: image.desc.image_type,
            flags,
            size,
            host_ptr: host,
            offset,
            parent: parent_handle,
            props,
            cbs: Vec::new(),
            gl_obj: None,
            maps: Vec::new(),
            svm: false,
            dev_addresses: None,
            image: Some(image),
        }
    }

    /// Records the GL object that the memory object was made from.
    pub fn set_gl_object(&mut self, obj: GLObject)
        ensures
            final(self)@ == (MemState { gl_obj: Some(obj), ..old(self)@ }),
    {
        self.gl_obj = Some(obj);
    }

    /// Records the addresses that the devices gave the object.
    pub fn set_dev_addresses(&mut self, addresses: Vec<u64>)
        ensures
            final(self)@ == (MemState { dev_addresses: Some(addresses@), ..old(self)@ }),
    {
        self.dev_addresses = Some(addresses);
    }

    /// The handle of the object.
    pub fn handle(&self) -> (r: usize)
        ensures
            r == self@.handle,
    {
        self.handle
    }

    /// The handle of the object whose memory this one uses.
    pub fn storage(&self) -> (r: usize)
        ensures
            r == self@.storage,
    {
        self.storage
    }

    /// The identity of the context that the object belongs to.
    pub fn context(&self) -> (r: usize)
        ensures
            r == self@.context,
    {
        self.context
    }

    /// The type of the object: a buffer, or one of the image types.
    pub fn mem_type(&self) -> (r: u32)
        ensures
            r == self@.mem_type,
    {
        self.mem_type
    }

    /// The flags that the object was made with, completed from its parent's.
    pub fn flags(&self) -> (r: u64)
        ensures
            r == self@.flags,
    {
        self.flags
    }

    /// The size of the object in bytes.
    pub fn size(&self) -> (r: usize)
        ensures
            r == self@.size,
    {
        self.size
    }

    /// The host memory that the object uses, or 0.
    pub fn host_ptr(&self) -> (r: usize)
        ensures
            r == self@.host_ptr,
    {
        self.host_ptr
    }

    /// Where the object begins in the memory that it shares.
    pub fn offset(&self) -> (r: usize)
        ensures
            r == self@.offset,
    {
        self.offset
    }

    /// The handle of the object that this one was derived from.
    pub fn parent(&self) -> (r: Option<usize>)
        ensures
            r == self@.parent,
    {
        self.parent
    }

    /// The property list that the object was made with.
    pub fn props(&self) -> (r: &Properties)
        ensures
            r@ == self@.props,
            r.spec_is_given() == self@.props_given,
    {
        &self.props
    }

    /// The GL object that the object was made from.
    pub fn gl_obj(&self) -> (r: Option<GLObject>)
        ensures
            r == self@.gl_obj,
    {
        self.gl_obj
    }

    /// What the object has as an image; none for a buffer.
    pub fn image(&self) -> (r: Option<ImageInfo>)
        ensures
            r == self@.image,
    {
        self.image
    }

    /// Whether the object uses shared virtual memory as its host memory.
    pub fn is_svm(&self) -> (r: bool)
        ensures
            r == self@.svm,
    {
        self.svm
    }

    /// Whether the object is a buffer.
    pub fn is_buffer(&self) -> (r: bool)
        ensures
            r == self.spec_is_buffer(),
    {
        self.mem_type == CL_MEM_OBJECT_BUFFER
    }

    /// The addresses of the object on the devices, where it has any.
    pub fn dev_addresses(&self) -> (r: Option<&Vec<u64>>)
        ensures
            match r {
                Some(v) => self@.dev_addresses == Some(v@),
                None => self@.dev_addresses is None,
            },
    {
        match &self.dev_addresses {
            Some(v) => Some(v),
            None => None,
        }
    }

    /// Whether the two objects use the same memory.
    pub fn backing_memory_eq(&self, other: &MemObject) -> (r: bool)
        ensures
            r == (self@.storage == other@.storage),
    {
        self.storage == other.storage
    }

    /// The number of callbacks that run when the object is destroyed.
    pub fn callback_count(&self) -> (r: usize)
        ensures
            r == self@.cbs.len(),
    {
        self.cbs.len()
    }

    /// The `i`-th callback, in the order of registration.
    pub fn callback(&self, i: usize) -> (r: MemCB)
        requires
            i < self@.cbs.len(),
        ensures
            r == self@.cbs[i as int],
    {
        self.cbs[i]
    }

    /// Adds a callback behind those that are there.
    pub fn push_callback(&mut self, cb: MemCB)
        ensures
            final(self)@ == (MemState { cbs: old(self)@.cbs.push(cb), ..old(self)@ }),
    {
        self.cbs.push(cb);
    }

    /// The number of addresses that are mapped.
    pub fn map_count(&self) -> (r: usize)
        ensures
            r == self@.maps.len(),
    {
        self.maps.len()
    }

    /// The `i`-th mapping, in the order of registration.
    pub fn mapping(&self, i: usize) -> (r: Mapping)
        requires
            i < self@.maps.len(),
        ensures
            r == self@.maps[i as int],
    {
        self.maps[i]
    }

    fn find_mapping(&self, ptr: usize) -> (r: Option<usize>)
        requires
            self.wf(),
        ensures
            match r {
                Some(i) => mapped_at(self@.maps, ptr) == Some(i as int) && i < self@.maps.len()
                    && self@.maps[i as int].ptr == ptr,
                None => mapped_at(self@.maps, ptr) is None,
            },
    {
        let mut i: usize = 0;
        while i < self.maps.len()
            invariant
                i <= self.maps.len(),
                maps_wf(self.maps@),
                forall|j: int| 0 <= j < i ==> (#[trigger] self.maps@[j]).ptr != ptr,
            decreases self.maps.len() - i,
        {
            if self.maps[i].ptr == ptr {
                return Some(i);
            }
            i = i + 1;
        }
        None
    }

    /// Whether the address is that of a mapping of the object.
    pub fn is_mapped_ptr(&self, ptr: usize) -> (r: bool)
        requires
            self.wf(),
        ensures
            r == (mapped_at(self@.maps, ptr) is Some),
    {
        self.find_mapping(ptr).is_some()
    }

    /// Registers a mapping. An address that is mapped already is counted
    /// once more, and what was recorded of its first mapping stays.
    pub fn add_mapping(&mut self, m: Mapping) -> (r: CLResult<()>)
        requires
            old(self).wf(),
            m.count == 1,
            m.ptr != 0,
        ensures
            final(self).wf(),
            final(self)@ == (MemState { maps: final(self)@.maps, ..old(self)@ }),
            match mapped_at(old(self)@.maps, m.ptr) {
                None => r is Ok && final(self)@.maps == old(self)@.maps.push(m),
                Some(i) => if old(self)@.maps[i].count < usize::MAX {
                    r is Ok && final(self)@.maps == old(self)@.maps.update(
                        i,
                        Mapping { count: (old(self)@.maps[i].count + 1) as usize, ..old(self)@.maps[i] },
                    )
                } else {
                    r == Err::<(), ClError>(ClError::OutOfHostMemory) && final(self)@.maps
                        == old(self)@.maps
                },
            },
    {
        match self.find_mapping(m.ptr) {
            None => {
                self.maps.push(m);
                Ok(())
            },
            Some(i) => {
                let e: Mapping = self.maps[i];
                if e.count == usize::MAX {
                    return Err(ClError::OutOfHostMemory);
                }
                let updated: Mapping = Mapping { count: e.count + 1, ..e };
                self.maps.set(i, updated);
                Ok(())
            },
        }
    }

    /// Takes back one mapping of the address. The mapping goes away with
    /// the last of them. The result says whether the content has to pass
    /// between host and device: it has unless the region was mapped to drop
    /// what it held. An address that is not mapped is refused.
    pub fn unmap(&mut self, ptr: usize) -> (r: CLResult<bool>)
        requires
            old(self).wf(),
        ensures
            final(self).wf(),
            final(self)@ == (MemState { maps: final(self)@.maps, ..old(self)@ }),
            match mapped_at(old(self)@.maps, ptr) {
                None => r == Err::<bool, ClError>(ClError::InvalidValue) && final(self)@.maps
                    == old(self)@.maps,
                Some(i) => r == Ok::<bool, ClError>(old(self)@.maps[i].sync) && final(self)@.maps
                    == (if old(self)@.maps[i].count == 1 {
                    old(self)@.maps.remove(i)
                } else {
                    old(self)@.maps.update(
                        i,
                        Mapping { count: (old(self)@.maps[i].count - 1) as usize, ..old(self)@.maps[i] },
                    )
                }),
            },
    {
        match self.find_mapping(ptr) {
            None => Err(ClError::InvalidValue),
            Some(i) => {
                let e: Mapping = self.maps[i];
                if e.count == 1 {
                    self.maps.remove(i);
                } else {
                    let updated: Mapping = Mapping { count: e.count - 1, ..e };
                    self.maps.set(i, updated);
                }
                Ok(e.sync)
            },
        }
    }
}

/// A map of a fresh address followed by an unmap of that address leaves
/// the mappings as they were; an object without mappings has none after the
/// pair.
pub proof fn lemma_map_unmap(maps: Seq<Mapping>, m: Mapping)
    requires
        maps_wf(maps),
        m.count == 1,
        mapped_at(maps, m.ptr) is None,
    ensures
        mapped_at(maps.push(m), m.ptr) == Some(maps.len() as int),
        maps.push(m).remove(maps.len() as int) == maps,
{
    let after = maps.push(m);
    assert(after[maps.len() as int].ptr == m.ptr);
}

} // verus!

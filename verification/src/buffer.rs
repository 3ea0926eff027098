//! Creating buffers and sub-buffers.

use vstd::prelude::*;
use crate::context::{Context, ContextState};
use crate::desc::CL_MEM_OBJECT_BUFFER;
use crate::device::{any_device_has, any_has, min_cap_of, Cap, Feature};
use crate::error::{CLResult, ClError};
use crate::flags::{
    bit_check, flags_conflict, has_bit, host_ptr_matches, inherit_mem_flags, inherited_flags,
    mem_flags_valid, validate_host_ptr, validate_matching_buffer_flags, validate_mem_flags,
    CL_MEM_USE_HOST_PTR,
};
use crate::mem::{buffer_state, sub_buffer_state, MemCB, MemObject, MemState};
use crate::properties::{parse, Properties};
use crate::svm::{containing, SvmAllocation};
use crate::util::opt_seq;

verus! {
/// The property that asks for a buffer with an address on the devices.
pub const CL_MEM_DEVICE_PRIVATE_ADDRESS_EXT: u64 = 0x5000;

/// The one way to say which part of a buffer a sub-buffer is: by a region.
pub const CL_BUFFER_CREATE_TYPE_REGION: u32 = 0x1220;

/// The part of a buffer that a sub-buffer covers.
#[derive(Clone, Copy, Debug, PartialEq, Eq, Structural)]
pub struct BufferRegion {
    pub origin: usize,
    pub size: usize,
}

/// The host pointer lies in a shared-virtual-memory allocation that ends
/// before `size` bytes from the pointer are over.
pub open spec fn svm_too_small(svm: Seq<SvmAllocation>, host_ptr: usize, size: usize) -> bool {
    match containing(svm, host_ptr) {
        Some(a) => size > a.size - (host_ptr - a.base),
        None => false,
    }
}

/// What the first property from index `from` on that a buffer cannot have
/// fails with: a request for a device address where no device gives one is
/// an invalid operation, every other property is invalid.
pub open spec fn buffer_props_error(pairs: Seq<(u64, u64)>, from: int, bda: bool) -> Option<
    ClError,
>
    decreases pairs.len() - from,
{
    if from < 0 || from >= pairs.len() {
        None
    } else if pairs[from].0 != CL_MEM_DEVICE_PRIVATE_ADDRESS_EXT {
        Some(ClError::InvalidProperty)
    } else if !bda {
        Some(ClError::InvalidOperation)
    } else {
        buffer_props_error(pairs, from + 1, bda)
    }
}

/// The pairs of a property list that may have been left out.
pub open spec fn pairs_or_empty(properties: Option<Seq<u64>>) -> Seq<(u64, u64)> {
    match properties {
        Some(words) => match parse(words) {
            Some(pairs) => pairs,
            None => Seq::empty(),
        },
        None => Seq::empty(),
    }
}

/// The host memory that a buffer with these flags goes on using: the host
/// pointer where the flags say to use it, else none.
pub open spec fn kept_host_ptr(flags: u64, host_ptr: usize) -> usize {
    if has_bit(flags, CL_MEM_USE_HOST_PTR) {
        host_ptr
    } else {
        0
    }
}

/// Why a buffer cannot be made, by the first rule that the request breaks;
/// none where it can.
pub open spec fn create_buffer_error(
    ctx: ContextState,
    properties: Option<Seq<u64>>,
    flags: u64,
    size: usize,
    host_ptr: usize,
) -> Option<ClError> {
    if !mem_flags_valid(flags, false) {
        Some(ClError::InvalidValue)
    } else if size == 0 || size > min_cap_of(ctx.devs, Cap::MaxMemAlloc) {
        Some(ClError::InvalidBufferSize)
    } else if !host_ptr_matches(host_ptr, flags) {
        Some(ClError::InvalidHostPtr)
    } else if svm_too_small(ctx.svm, host_ptr, size) {
        Some(ClError::InvalidBufferSize)
    } else if properties is Some && parse(properties->0) is None {
        Some(ClError::InvalidProperty)
    } else if buffer_props_error(
        pairs_or_empty(properties),
        0,
        any_has(ctx.devs, Feature::BufferDeviceAddress),
    ) is Some {
        buffer_props_error(
            pairs_or_empty(properties),
            0,
            any_has(ctx.devs, Feature::BufferDeviceAddress),
        )
    } else if kept_host_ptr(flags, host_ptr) != 0 && host_ptr + size > usize::MAX {
        Some(ClError::InvalidHostPtr)
    } else if ctx.next_handle == usize::MAX {
        Some(ClError::OutOfHostMemory)
    } else {
        None
    }
}

/// Checks that every property is one that a buffer can have.
fn check_buffer_props(props: &Properties, bda: bool) -> (r: CLResult<()>)
    ensures
        match r {
            Ok(_) => buffer_props_error(props@, 0, bda) is None,
            Err(e) => buffer_props_error(props@, 0, bda) == Some(e),
        },
{
    let mut i: usize = 0;
    while i < props.len()
        invariant
            i <= props@.len(),
            buffer_props_error(props@, 0, bda) == buffer_props_error(props@, i as int, bda),
        decreases props@.len() - i,
    {
        let (key, _value): (u64, u64) = props.pair(i);
        if key == CL_MEM_DEVICE_PRIVATE_ADDRESS_EXT {
            if !bda {
                return Err(ClError::InvalidOperation);
            }
        } else {
            return Err(ClError::InvalidProperty);
        }
        i = i + 1;
    }
    Ok(())
}

/// Makes a buffer of `size` bytes in the context.
///
/// The request is refused by the first of these rules that it breaks: the
/// flags are valid; the size is neither zero nor above what every device
/// can allocate; a host pointer is given exactly when the flags ask for
/// one; a host pointer into shared virtual memory leaves room for the
/// buffer in its allocation; the property list is well formed and every
/// property is one that a buffer can have; host memory that the buffer
/// uses ends within the address space; and the context has a handle left.
/// The buffer gets the next handle of the context.
pub fn create_buffer_with_properties(
    c: &mut Context,
    properties: Option<&[u64]>,
    flags: u64,
    size: usize,
    host_ptr: usize,
) -> (r: CLResult<MemObject>)
    requires
        old(c).wf(),
    ensures
        final(c).wf(),
        match r {
            Ok(m) => {
                &&& create_buffer_error(old(c)@, opt_seq(properties), flags, size, host_ptr) is None
                &&& m.wf()
                &&& m@ == buffer_state(
                    old(c)@.next_handle,
                    old(c)@.id,
                    flags,
                    size,
                    kept_host_ptr(flags, host_ptr),
                    has_bit(flags, CL_MEM_USE_HOST_PTR) && containing(old(c)@.svm, host_ptr) is Some,
                    pairs_or_empty(opt_seq(properties)),
                    properties is Some,
                )
                &&& final(c)@ == (ContextState {
                    next_handle: (old(c)@.next_handle + 1) as usize,
                    ..old(c)@
                })
            },
            Err(e) => create_buffer_error(
                old(c)@,
                opt_seq(properties),
                flags,
                size,
                host_ptr,
            ) == Some(e) && final(c)@ == old(c)@,
        },
{
    validate_mem_flags(flags, false)?;

    if size == 0 {
        return Err(ClError::InvalidBufferSize);
    }
    if size as u64 > c.max_mem_alloc() {
        return Err(ClError::InvalidBufferSize);
    }
    validate_host_ptr(host_ptr, flags)?;

    let svm_alloc: Option<(usize, usize)> = c.find_svm_alloc(host_ptr);
    if let Some((svm_ptr, alloc_size)) = svm_alloc {
        let diff: usize = host_ptr - svm_ptr;
        if size > alloc_size - diff {
            return Err(ClError::InvalidBufferSize);
        }
    }
    let props: Properties = match Properties::new(properties) {
        Some(p) => p,
        None => {
            return Err(ClError::InvalidProperty);
        },
    };
    let bda: bool = any_device_has(c.devs(), Feature::BufferDeviceAddress);
    check_buffer_props(&props, bda)?;
    let uses_host: bool = bit_check(flags, CL_MEM_USE_HOST_PTR);
    let kept: usize = if uses_host {
        host_ptr
    } else {
        0
    };
    if kept != 0 && size > usize::MAX - host_ptr {
        return Err(ClError::InvalidHostPtr);
    }
    let handle: usize = match c.fresh_handle() {
        Some(h) => h,
        None => {
            return Err(ClError::OutOfHostMemory);
        },
    };
    Ok(
        MemObject::new_buffer(
            handle,
            c.id(),
            flags,
            size,
            kept,
            uses_host && svm_alloc.is_some(),
            props,
        ),
    )
}

/// Makes a buffer without properties.
pub fn create_buffer(c: &mut Context, flags: u64, size: usize, host_ptr: usize) -> (r: CLResult<
    MemObject,
>)
    requires
        old(c).wf(),
    ensures
        final(c).wf(),
        match r {
            Ok(m) => {
                &&& create_buffer_error(old(c)@, None, flags, size, host_ptr) is None
                &&& m.wf()
                &&& m@ == buffer_state(
                    old(c)@.next_handle,
                    old(c)@.id,
                    flags,
                    size,
                    kept_host_ptr(flags, host_ptr),
                    has_bit(flags, CL_MEM_USE_HOST_PTR) && containing(old(c)@.svm, host_ptr) is Some,
                    Seq::empty(),
                    false,
                )
                &&& final(c)@ == (ContextState {
                    next_handle: (old(c)@.next_handle + 1) as usize,
                    ..old(c)@
                })
            },
            Err(e) => create_buffer_error(old(c)@, None, flags, size, host_ptr) == Some(e)
                && final(c)@ == old(c)@,
        },
{
    create_buffer_with_properties(c, None, flags, size, host_ptr)
}

/// Why a sub-buffer cannot be made, by the first rule that the request
/// breaks; none where it can.
pub open spec fn sub_buffer_error(
    ctx: ContextState,
    parent: MemState,
    flags: u64,
    buffer_create_type: u32,
    buffer_create_info: Option<BufferRegion>,
) -> Option<ClError> {
    if parent.mem_type != CL_MEM_OBJECT_BUFFER || parent.parent is Some {
        Some(ClError::InvalidMemObject)
    } else if buffer_create_type != CL_BUFFER_CREATE_TYPE_REGION || buffer_create_info is None {
        Some(ClError::InvalidValue)
    } else if buffer_create_info->0.size == 0 {
        Some(ClError::InvalidBufferSize)
    } else if buffer_create_info->0.origin + buffer_create_info->0.size > parent.size {
        Some(ClError::InvalidValue)
    } else if ctx.id != parent.context {
        Some(ClError::InvalidContext)
    } else if flags_conflict(parent.flags, flags) {
        Some(ClError::InvalidValue)
    } else if !mem_flags_valid(inherited_flags(flags, parent.flags), false) {
        Some(ClError::InvalidValue)
    } else if ctx.next_handle == usize::MAX {
        Some(ClError::OutOfHostMemory)
    } else {
        None
    }
}

/// Makes a buffer that is a region of another buffer of the context.
///
/// The request is refused by the first of these rules that it breaks: the
/// parent is a buffer and not itself a sub-buffer; the region is given, as
/// a region; it is not empty; it lies within the parent; the parent
/// belongs to the context; the flags do not contradict the parent's, and
/// are valid once completed from the parent's; and the context has a
/// handle left. So an empty region is refused as a buffer size, and one
/// that begins or ends beyond the parent as a value, whatever the flags
/// and the context.
pub fn create_sub_buffer(
    c: &mut Context,
    buffer: &MemObject,
    flags: u64,
    buffer_create_type: u32,
    buffer_create_info: Option<BufferRegion>,
) -> (r: CLResult<MemObject>)
    requires
        old(c).wf(),
        buffer.wf(),
    ensures
        final(c).wf(),
        buffer@.parent is Some ==> r == Err::<MemObject, ClError>(ClError::InvalidMemObject),
        buffer@.parent is None && buffer.spec_is_buffer() && buffer_create_type
            == CL_BUFFER_CREATE_TYPE_REGION && buffer_create_info is Some ==> {
            let region = buffer_create_info->0;
            &&& region.size == 0 ==> r == Err::<MemObject, ClError>(ClError::InvalidBufferSize)
            &&& region.size != 0 && region.origin + region.size > buffer@.size ==> r == Err::<
                MemObject,
                ClError,
            >(ClError::InvalidValue)
        },
        match r {
            Ok(m) => {
                &&& sub_buffer_error(
                    old(c)@,
                    buffer@,
                    flags,
                    buffer_create_type,
                    buffer_create_info,
                ) is None
                &&& m.wf()
                &&& m@ == sub_buffer_state(
                    buffer@,
                    old(c)@.next_handle,
                    inherited_flags(flags, buffer@.flags),
                    buffer_create_info->0.origin,
                    buffer_create_info->0.size,
                )
                &&& final(c)@ == (ContextState {
                    next_handle: (old(c)@.next_handle + 1) as usize,
                    ..old(c)@
                })
            },
            Err(e) => sub_buffer_error(
                old(c)@,
                buffer@,
                flags,
                buffer_create_type,
                buffer_create_info,
            ) == Some(e) && final(c)@ == old(c)@,
        },
{
    if !buffer.is_buffer() || buffer.parent().is_some() {
        return Err(ClError::InvalidMemObject);
    }
    if buffer_create_type != CL_BUFFER_CREATE_TYPE_REGION {
        return Err(ClError::InvalidValue);
    }
    let region: BufferRegion = match buffer_create_info {
        Some(r) => r,
        None => {
            return Err(ClError::InvalidValue);
        },
    };
    if region.size == 0 {
        return Err(ClError::InvalidBufferSize);
    }
    if region.origin >= buffer.size() || region.size > buffer.size() - region.origin {
        return Err(ClError::InvalidValue);
    }
    if c.id() != buffer.context() {
        return Err(ClError::InvalidContext);
    }
    validate_matching_buffer_flags(buffer.flags(), flags)?;

    let flags: u64 = inherit_mem_flags(flags, buffer.flags());
    validate_mem_flags(flags, false)?;

    let handle: usize = match c.fresh_handle() {
        Some(h) => h,
        None => {
            return Err(ClError::OutOfHostMemory);
        },
    };
    Ok(MemObject::new_sub_buffer(buffer, handle, flags, region.origin, region.size))
}

/// No sub-buffer can be made from a sub-buffer: a request that names, as
/// the parent, a buffer that was itself made as a region of another is
/// refused as a memory object, whatever else it asks for.
pub proof fn lemma_no_sub_buffer_of_sub_buffer(
    ctx: ContextState,
    parent: MemState,
    handle: usize,
    sub_flags: u64,
    offset: usize,
    size: usize,
    flags: u64,
    buffer_create_type: u32,
    buffer_create_info: Option<BufferRegion>,
)
    ensures
        sub_buffer_error(
            ctx,
            sub_buffer_state(parent, handle, sub_flags, offset, size),
            flags,
            buffer_create_type,
            buffer_create_info,
        ) == Some(ClError::InvalidMemObject),
{
}

/// Of a request that names a buffer that is no sub-buffer, an empty region
/// is refused as a buffer size, and a region that begins or ends beyond
/// the parent as a value, whatever the flags and the context. The end of a
/// region is the sum of its origin and its size as numbers, so no region
/// passes because the sum does not fit a machine word.
pub proof fn lemma_sub_buffer_region_rules(
    ctx: ContextState,
    parent: MemState,
    flags: u64,
    region: BufferRegion,
)
    requires
        parent.mem_type == CL_MEM_OBJECT_BUFFER,
        parent.parent is None,
    ensures
        region.size == 0 ==> sub_buffer_error(
            ctx,
            parent,
            flags,
            CL_BUFFER_CREATE_TYPE_REGION,
            Some(region),
        ) == Some(ClError::InvalidBufferSize),
        region.size != 0 && region.origin + region.size > parent.size ==> sub_buffer_error(
            ctx,
            parent,
            flags,
            CL_BUFFER_CREATE_TYPE_REGION,
            Some(region),
        ) == Some(ClError::InvalidValue),
{
}

/// There are no pipes: none can be made.
pub fn create_pipe(
    _c: &Context,
    _flags: u64,
    _pipe_packet_size: u32,
    _pipe_max_packets: u32,
    _properties: Option<&[u64]>,
) -> (r: CLResult<MemObject>)
    ensures
        r is Err && r->Err_0 == ClError::InvalidOperation,
{
    Err(ClError::InvalidOperation)
}

/// Registers a callback that runs when the memory object is destroyed,
/// behind those that are registered. A callback without a function is
/// refused.
pub fn set_mem_object_destructor_callback(
    memobj: &mut MemObject,
    pfn_notify: usize,
    user_data: usize,
) -> (r: CLResult<()>)
    ensures
        pfn_notify == 0 ==> r == Err::<(), ClError>(ClError::InvalidValue) && final(memobj)@
            == old(memobj)@,
        pfn_notify != 0 ==> r is Ok && final(memobj)@ == (MemState {
            cbs: old(memobj)@.cbs.push(MemCB { func: pfn_notify, user_data }),
            ..old(memobj)@
        }),
{
    if pfn_notify == 0 {
        return Err(ClError::InvalidValue);
    }
    memobj.push_callback(MemCB { func: pfn_notify, user_data });
    Ok(())
}

} // verus!

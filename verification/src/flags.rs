//! Access, host-pointer and host-access flags of memory objects, and the
//! flags of map requests.

use vstd::prelude::*;
use crate::error::{CLResult, ClError};

verus! {
/// The kernel may read and write the object.
pub const CL_MEM_READ_WRITE: u64 = 0x1;
/// The kernel may only write the object.
pub const CL_MEM_WRITE_ONLY: u64 = 0x2;
/// The kernel may only read the object.
pub const CL_MEM_READ_ONLY: u64 = 0x4;
/// The object lives in memory the application handed in.
pub const CL_MEM_USE_HOST_PTR: u64 = 0x8;
/// The object is allocated from host-accessible memory.
pub const CL_MEM_ALLOC_HOST_PTR: u64 = 0x10;
/// The object starts out as a copy of memory the application handed in.
pub const CL_MEM_COPY_HOST_PTR: u64 = 0x20;
/// The host may only write the object.
pub const CL_MEM_HOST_WRITE_ONLY: u64 = 0x80;
/// The host may only read the object.
pub const CL_MEM_HOST_READ_ONLY: u64 = 0x100;
/// The host may neither read nor write the object.
pub const CL_MEM_HOST_NO_ACCESS: u64 = 0x200;
/// Shared virtual memory with fine-grained sharing.
pub const CL_MEM_SVM_FINE_GRAIN_BUFFER: u64 = 0x400;
/// Shared virtual memory with atomics across host and device.
pub const CL_MEM_SVM_ATOMICS: u64 = 0x800;
/// One kernel may both read and write the image. A device reports the flag
/// for an image format; it is no flag that an object can be made with.
pub const CL_MEM_KERNEL_READ_AND_WRITE: u64 = 0x1000;

/// The mapping is read by the host.
pub const CL_MAP_READ: u64 = 0x1;
/// The mapping is written by the host.
pub const CL_MAP_WRITE: u64 = 0x2;
/// The mapping is written by the host, and what it held before is dropped.
pub const CL_MAP_WRITE_INVALIDATE_REGION: u64 = 0x4;

/// Migrate to the host rather than to the queue's device.
pub const CL_MIGRATE_MEM_OBJECT_HOST: u64 = 0x1;
/// The content need not survive the migration.
pub const CL_MIGRATE_MEM_OBJECT_CONTENT_UNDEFINED: u64 = 0x2;

/// `CL_MEM_READ_WRITE | CL_MEM_WRITE_ONLY | CL_MEM_READ_ONLY`.
pub const ACCESS_GROUP: u64 = CL_MEM_READ_WRITE | CL_MEM_WRITE_ONLY | CL_MEM_READ_ONLY;
/// `ACCESS_GROUP | CL_MEM_KERNEL_READ_AND_WRITE`: the flags of kernel
/// access, by which image formats are matched against what a device
/// reports.
pub const ACCESS_MASK: u64 = CL_MEM_READ_WRITE | CL_MEM_WRITE_ONLY | CL_MEM_READ_ONLY
    | CL_MEM_KERNEL_READ_AND_WRITE;
/// `CL_MEM_USE_HOST_PTR | CL_MEM_ALLOC_HOST_PTR | CL_MEM_COPY_HOST_PTR`.
pub const HOST_PTR_MASK: u64 = CL_MEM_USE_HOST_PTR | CL_MEM_ALLOC_HOST_PTR | CL_MEM_COPY_HOST_PTR;
/// `CL_MEM_HOST_WRITE_ONLY | CL_MEM_HOST_READ_ONLY | CL_MEM_HOST_NO_ACCESS`.
pub const HOST_ACCESS_MASK: u64 = CL_MEM_HOST_WRITE_ONLY | CL_MEM_HOST_READ_ONLY
    | CL_MEM_HOST_NO_ACCESS;
/// `ACCESS_GROUP | HOST_PTR_MASK | HOST_ACCESS_MASK`: the nine flags of the
/// groups, which are the flags that a buffer may carry.
pub const BUFFER_MASK: u64 = ACCESS_GROUP | HOST_PTR_MASK | HOST_ACCESS_MASK;
/// `ACCESS_GROUP | HOST_ACCESS_MASK`: the flags that an image may carry,
/// which are those of a buffer but for the host-pointer flags.
pub const IMAGE_MASK: u64 = ACCESS_GROUP | HOST_ACCESS_MASK;
/// `CL_MAP_READ | CL_MAP_WRITE | CL_MAP_WRITE_INVALIDATE_REGION`.
pub const MAP_MASK: u64 = CL_MAP_READ | CL_MAP_WRITE | CL_MAP_WRITE_INVALIDATE_REGION;

/// Whether `a` and `b` have a bit in common.
pub open spec fn has_bit(a: u64, b: u64) -> bool {
    a & b != 0
}

/// Whether `a` and `b` have a bit in common.
pub fn bit_check(a: u64, b: u64) -> (r: bool)
    ensures
        r == has_bit(a, b),
{
    a & b != 0
}

/// At most one of three holds.
pub open spec fn at_most_one(a: bool, b: bool, c: bool) -> bool {
    !(a && b) && !(a && c) && !(b && c)
}

/// The flags that an object of the given class may carry at all.
pub open spec fn valid_mask(images: bool) -> u64 {
    if images {
        IMAGE_MASK
    } else {
        BUFFER_MASK
    }
}

/// No flag lies outside the mask of the object class, and of each group of
/// flags that exclude one another at most one is set.
pub open spec fn mem_flags_valid(flags: u64, images: bool) -> bool {
    &&& flags & !valid_mask(images) == 0
    &&& at_most_one(
        has_bit(flags, CL_MEM_READ_WRITE),
        has_bit(flags, CL_MEM_WRITE_ONLY),
        has_bit(flags, CL_MEM_READ_ONLY),
    )
    &&& !(has_bit(flags, CL_MEM_ALLOC_HOST_PTR) && has_bit(flags, CL_MEM_USE_HOST_PTR))
    &&& !(has_bit(flags, CL_MEM_COPY_HOST_PTR) && has_bit(flags, CL_MEM_USE_HOST_PTR))
    &&& at_most_one(
        has_bit(flags, CL_MEM_HOST_WRITE_ONLY),
        has_bit(flags, CL_MEM_HOST_READ_ONLY),
        has_bit(flags, CL_MEM_HOST_NO_ACCESS),
    )
}

fn at_most_one_set(flags: u64, a: u64, b: u64, c: u64) -> (r: bool)
    ensures
        r == at_most_one(has_bit(flags, a), has_bit(flags, b), has_bit(flags, c)),
{
    let x: bool = bit_check(flags, a);
    let y: bool = bit_check(flags, b);
    let z: bool = bit_check(flags, c);
    !(x && y) && !(x && z) && !(y && z)
}

/// Accepts the flags exactly when they are valid for the class of object:
/// for a buffer (`images` false) no flag but the nine of the groups, for
/// an image (`images` true) none of the host-pointer flags either, and in
/// both at most one flag of each group.
pub fn validate_mem_flags(flags: u64, images: bool) -> (r: CLResult<()>)
    ensures
        r is Ok <==> mem_flags_valid(flags, images),
        r is Err ==> r == Err::<(), ClError>(ClError::InvalidValue),
{
    let valid_flags: u64 = if images {
        IMAGE_MASK
    } else {
        BUFFER_MASK
    };
    if (flags & !valid_flags != 0)
        || !at_most_one_set(flags, CL_MEM_READ_WRITE, CL_MEM_WRITE_ONLY, CL_MEM_READ_ONLY)
        || (bit_check(flags, CL_MEM_ALLOC_HOST_PTR) && bit_check(flags, CL_MEM_USE_HOST_PTR))
        || (bit_check(flags, CL_MEM_COPY_HOST_PTR) && bit_check(flags, CL_MEM_USE_HOST_PTR))
        || !at_most_one_set(
        flags,
        CL_MEM_HOST_WRITE_ONLY,
        CL_MEM_HOST_READ_ONLY,
        CL_MEM_HOST_NO_ACCESS,
    ) {
        return Err(ClError::InvalidValue);
    }
    Ok(())
}

/// The flags of a map request are known, and a request that drops the old
/// content asks neither to read nor to write it.
pub open spec fn map_flags_valid(map_flags: u64) -> bool {
    &&& map_flags & !MAP_MASK == 0
    &&& !(has_bit(map_flags, CL_MAP_READ | CL_MAP_WRITE) && has_bit(
        map_flags,
        CL_MAP_WRITE_INVALIDATE_REGION,
    ))
}

/// Accepts the flags of a map request exactly when they are valid.
pub fn validate_map_flags_common(map_flags: u64) -> (r: CLResult<()>)
    ensures
        r is Ok <==> map_flags_valid(map_flags),
        r is Err ==> r == Err::<(), ClError>(ClError::InvalidValue),
{
    if (map_flags & !MAP_MASK != 0) || (bit_check(map_flags, CL_MAP_READ | CL_MAP_WRITE)
        && bit_check(map_flags, CL_MAP_WRITE_INVALIDATE_REGION)) {
        return Err(ClError::InvalidValue);
    }
    Ok(())
}

/// The object's host-access flags forbid what the map request asks for:
/// reading an object the host may not read, or writing one it may not write.
pub open spec fn map_denied(mem_flags: u64, map_flags: u64) -> bool {
    ||| has_bit(mem_flags, CL_MEM_HOST_WRITE_ONLY | CL_MEM_HOST_NO_ACCESS) && has_bit(
        map_flags,
        CL_MAP_READ,
    )
    ||| has_bit(mem_flags, CL_MEM_HOST_READ_ONLY | CL_MEM_HOST_NO_ACCESS) && has_bit(
        map_flags,
        CL_MAP_WRITE | CL_MAP_WRITE_INVALIDATE_REGION,
    )
}

/// What a map request with these flags on an object with those flags fails
/// with, if it fails.
pub open spec fn map_flags_error(mem_flags: u64, map_flags: u64) -> Option<ClError> {
    if !map_flags_valid(map_flags) {
        Some(ClError::InvalidValue)
    } else if map_denied(mem_flags, map_flags) {
        Some(ClError::InvalidOperation)
    } else {
        None
    }
}

/// Checks the flags of a map request against the flags of the object that
/// is to be mapped.
pub fn validate_map_flags(mem_flags: u64, map_flags: u64) -> (r: CLResult<()>)
    ensures
        r is Ok <==> map_flags_error(mem_flags, map_flags) is None,
        r matches Err(e) ==> map_flags_error(mem_flags, map_flags) == Some(e),
{
    validate_map_flags_common(map_flags)?;
    if bit_check(mem_flags, CL_MEM_HOST_WRITE_ONLY | CL_MEM_HOST_NO_ACCESS) && bit_check(
        map_flags,
        CL_MAP_READ,
    ) || bit_check(mem_flags, CL_MEM_HOST_READ_ONLY | CL_MEM_HOST_NO_ACCESS) && bit_check(
        map_flags,
        CL_MAP_WRITE | CL_MAP_WRITE_INVALIDATE_REGION,
    ) {
        return Err(ClError::InvalidOperation);
    }
    Ok(())
}

/// The kernel-access part of the flags, by which image formats are matched.
pub fn filter_image_access_flags(flags: u64) -> (r: u64)
    ensures
        r == flags & ACCESS_MASK,
{
    flags & ACCESS_MASK
}

/// The flags of an object derived from a parent: the access flags and the
/// host-access flags are the request's where it names any, else the
/// parent's; the host-pointer flags are always the parent's; every other
/// bit is the request's.
pub open spec fn inherited_flags(flags: u64, parent: u64) -> u64 {
    let access = if flags & ACCESS_GROUP == 0 {
        parent & ACCESS_GROUP
    } else {
        flags & ACCESS_GROUP
    };
    let host_access = if flags & HOST_ACCESS_MASK == 0 {
        parent & HOST_ACCESS_MASK
    } else {
        flags & HOST_ACCESS_MASK
    };
    access | (parent & HOST_PTR_MASK) | host_access | (flags & !BUFFER_MASK)
}

/// Completes the flags requested for a derived object from its parent's.
pub fn inherit_mem_flags(flags: u64, parent_flags: u64) -> (r: u64)
    ensures
        r == inherited_flags(flags, parent_flags),
{
    let mut res: u64 = flags;
    if res & ACCESS_GROUP == 0 {
        res = res | (parent_flags & ACCESS_GROUP);
    }
    let with_access: u64 = res;
    res = res & !HOST_PTR_MASK;
    res = res | (parent_flags & HOST_PTR_MASK);
    let with_host_ptr: u64 = res;
    if res & HOST_ACCESS_MASK == 0 {
        res = res | (parent_flags & HOST_ACCESS_MASK);
    }
    proof {
        assert(res == inherited_flags(flags, parent_flags)) by (bit_vector)
            requires
                with_access == (if flags & ACCESS_GROUP == 0 {
                    flags | (parent_flags & ACCESS_GROUP)
                } else {
                    flags
                }),
                with_host_ptr == (with_access & !HOST_PTR_MASK) | (parent_flags & HOST_PTR_MASK),
                res == (if with_host_ptr & HOST_ACCESS_MASK == 0 {
                    with_host_ptr | (parent_flags & HOST_ACCESS_MASK)
                } else {
                    with_host_ptr
                }),
        ;
    }
    res
}

/// Deriving with an empty request yields exactly the parent's access,
/// host-pointer and host-access flags, and deriving once more from the same
/// parent changes nothing.
pub proof fn lemma_inherit_idempotent(flags: u64, parent: u64)
    ensures
        inherited_flags(0, parent) == parent & BUFFER_MASK,
        inherited_flags(0, parent) & ACCESS_GROUP == parent & ACCESS_GROUP,
        inherited_flags(0, parent) & HOST_PTR_MASK == parent & HOST_PTR_MASK,
        inherited_flags(0, parent) & HOST_ACCESS_MASK == parent & HOST_ACCESS_MASK,
        inherited_flags(inherited_flags(flags, parent), parent) == inherited_flags(flags, parent),
{
    assert(inherited_flags(0, parent) == parent & BUFFER_MASK) by (bit_vector);
    assert((parent & BUFFER_MASK) & ACCESS_GROUP == parent & ACCESS_GROUP) by (bit_vector);
    assert((parent & BUFFER_MASK) & HOST_PTR_MASK == parent & HOST_PTR_MASK) by (bit_vector);
    assert((parent & BUFFER_MASK) & HOST_ACCESS_MASK == parent & HOST_ACCESS_MASK)
        by (bit_vector);
    assert(inherited_flags(inherited_flags(flags, parent), parent) == inherited_flags(
        flags,
        parent,
    )) by (bit_vector);
}

/// A parent with valid flags hands valid flags to an object derived with
/// an empty request.
pub proof fn lemma_inherit_keeps_validity(parent: u64)
    requires
        mem_flags_valid(parent, false),
    ensures
        mem_flags_valid(inherited_flags(0, parent), false),
        inherited_flags(0, parent) == parent,
{
    assert(inherited_flags(0, parent) == parent) by (bit_vector)
        requires
            parent & !BUFFER_MASK == 0,
    ;
}

/// A host pointer is given exactly when the flags ask to use or to copy one.
pub open spec fn host_ptr_matches(host_ptr: usize, flags: u64) -> bool {
    (host_ptr != 0) == has_bit(flags, CL_MEM_USE_HOST_PTR | CL_MEM_COPY_HOST_PTR)
}

/// Checks that a host pointer (0 for none) is given exactly when the flags
/// ask to use or to copy one.
pub fn validate_host_ptr(host_ptr: usize, flags: u64) -> (r: CLResult<()>)
    ensures
        r is Ok <==> host_ptr_matches(host_ptr, flags),
        r is Err ==> r == Err::<(), ClError>(ClError::InvalidHostPtr),
{
    if host_ptr == 0 && flags & (CL_MEM_USE_HOST_PTR | CL_MEM_COPY_HOST_PTR) != 0 {
        return Err(ClError::InvalidHostPtr);
    }
    if host_ptr != 0 && flags & (CL_MEM_USE_HOST_PTR | CL_MEM_COPY_HOST_PTR) == 0 {
        return Err(ClError::InvalidHostPtr);
    }
    Ok(())
}

/// The flags requested for a derived object contradict its parent's: they
/// widen the kernel's or the host's access beyond the parent's, or name a
/// host-pointer flag.
pub open spec fn flags_conflict(parent: u64, flags: u64) -> bool {
    ||| has_bit(parent, CL_MEM_WRITE_ONLY) && has_bit(flags, CL_MEM_READ_WRITE | CL_MEM_READ_ONLY)
    ||| has_bit(parent, CL_MEM_READ_ONLY) && has_bit(flags, CL_MEM_READ_WRITE | CL_MEM_WRITE_ONLY)
    ||| has_bit(flags, CL_MEM_USE_HOST_PTR | CL_MEM_ALLOC_HOST_PTR | CL_MEM_COPY_HOST_PTR)
    ||| has_bit(parent, CL_MEM_HOST_WRITE_ONLY) && has_bit(flags, CL_MEM_HOST_READ_ONLY)
    ||| has_bit(parent, CL_MEM_HOST_READ_ONLY) && has_bit(flags, CL_MEM_HOST_WRITE_ONLY)
    ||| has_bit(parent, CL_MEM_HOST_NO_ACCESS) && has_bit(
        flags,
        CL_MEM_HOST_READ_ONLY | CL_MEM_HOST_WRITE_ONLY,
    )
}

/// Accepts the flags requested for a derived object exactly when they do
/// not contradict the parent's.
pub fn validate_matching_buffer_flags(parent_flags: u64, flags: u64) -> (r: CLResult<()>)
    ensures
        r is Ok <==> !flags_conflict(parent_flags, flags),
        r is Err ==> r == Err::<(), ClError>(ClError::InvalidValue),
{
    if bit_check(parent_flags, CL_MEM_WRITE_ONLY) && bit_check(
        flags,
        CL_MEM_READ_WRITE | CL_MEM_READ_ONLY,
    ) || bit_check(parent_flags, CL_MEM_READ_ONLY) && bit_check(
        flags,
        CL_MEM_READ_WRITE | CL_MEM_WRITE_ONLY,
    ) || bit_check(flags, CL_MEM_USE_HOST_PTR | CL_MEM_ALLOC_HOST_PTR | CL_MEM_COPY_HOST_PTR)
        || bit_check(parent_flags, CL_MEM_HOST_WRITE_ONLY) && bit_check(
        flags,
        CL_MEM_HOST_READ_ONLY,
    ) || bit_check(parent_flags, CL_MEM_HOST_READ_ONLY) && bit_check(
        flags,
        CL_MEM_HOST_WRITE_ONLY,
    ) || bit_check(parent_flags, CL_MEM_HOST_NO_ACCESS) && bit_check(
        flags,
        CL_MEM_HOST_READ_ONLY | CL_MEM_HOST_WRITE_ONLY,
    ) {
        return Err(ClError::InvalidValue);
    }
    Ok(())
}

} // verus!

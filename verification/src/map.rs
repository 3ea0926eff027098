//! Mapping regions of memory objects into host memory, and unmapping them.

use vstd::prelude::*;
use crate::command::{
    Submission, Work, CL_COMMAND_MAP_BUFFER, CL_COMMAND_MAP_IMAGE, CL_COMMAND_UNMAP_MEM_OBJECT,
};
use crate::context::Queue;
use crate::desc::{CL_MEM_OBJECT_BUFFER, CL_MEM_OBJECT_IMAGE3D};
use crate::error::{CLResult, ClError};
use crate::flags::{
    map_denied, map_flags_valid, validate_map_flags, validate_map_flags_common, CL_MAP_READ,
    CL_MAP_WRITE_INVALIDATE_REGION,
};
use crate::image_transfer::transfer_blocked;
use crate::mem::{mapped_at, ImageInfo, Mapping, MemObject, MemState};
use crate::util::{check_cl_bool, spec_cl_bool, CLVec};

verus! {
/// The mapping that a map request with these flags registers.
pub open spec fn new_mapping(ptr: usize, origin: CLVec, region: CLVec, map_flags: u64) -> Mapping {
    Mapping {
        ptr,
        origin,
        region,
        writes: map_flags != CL_MAP_READ,
        sync: map_flags != CL_MAP_WRITE_INVALIDATE_REGION,
        count: 1,
    }
}

/// The mappings of an object after one more map of an address: a new
/// mapping behind the others, or one more use of the mapping that the
/// address has.
pub open spec fn maps_after_map(maps: Seq<Mapping>, m: Mapping) -> Seq<Mapping> {
    match mapped_at(maps, m.ptr) {
        None => maps.push(m),
        Some(i) => maps.update(i, Mapping { count: (maps[i].count + 1) as usize, ..maps[i] }),
    }
}

/// The mappings of an object after an unmap of an address that is mapped:
/// one use less of its mapping, which goes away with the last.
pub open spec fn maps_after_unmap(maps: Seq<Mapping>, ptr: usize) -> Seq<Mapping> {
    match mapped_at(maps, ptr) {
        None => maps,
        Some(i) => if maps[i].count == 1 {
            maps.remove(i)
        } else {
            maps.update(i, Mapping { count: (maps[i].count - 1) as usize, ..maps[i] })
        },
    }
}

/// The address cannot be mapped once more.
pub open spec fn map_count_full(maps: Seq<Mapping>, ptr: usize) -> bool {
    mapped_at(maps, ptr) matches Some(i) && maps[i].count == usize::MAX
}

/// The work that follows a map: the content is brought to the host unless
/// the mapping drops it.
pub open spec fn map_work(mem: usize, ptr: usize, map_flags: u64) -> Work {
    if map_flags != CL_MAP_WRITE_INVALIDATE_REGION {
        Work::SyncMap { mem, ptr }
    } else {
        Work::Nothing
    }
}

/// A region of a buffer, mapped.
#[derive(Debug, PartialEq, Eq)]
pub struct MappedBuffer {
    /// The host address of the region.
    pub ptr: usize,
    pub submission: Submission,
}

/// The host address of the byte at `offset` of a buffer: in the host
/// memory that the buffer uses, or, where it uses none, the memory that the
/// caller brings for the mapping.
pub open spec fn buffer_map_ptr(b: MemState, offset: usize, staging: usize) -> usize {
    if b.host_ptr != 0 {
        (b.host_ptr + offset) as usize
    } else {
        staging
    }
}

/// Why a region of a buffer cannot be mapped; none where it can. In this
/// order: the object is a buffer; the blocking flag is a boolean and the
/// map flags are valid; the region is not empty and lies within the
/// buffer; buffer and queue belong to one context; the buffer allows the
/// host what the map flags ask for; there is host memory for the mapping;
/// and the address can be mapped once more.
pub open spec fn map_buffer_error(
    q_context: usize,
    b: MemState,
    blocking_map: u32,
    map_flags: u64,
    offset: usize,
    size: usize,
    staging: usize,
) -> Option<ClError> {
    if b.mem_type != CL_MEM_OBJECT_BUFFER {
        Some(ClError::InvalidMemObject)
    } else if spec_cl_bool(blocking_map) is None || !map_flags_valid(map_flags) {
        Some(ClError::InvalidValue)
    } else if size == 0 || offset + size > b.size {
        Some(ClError::InvalidValue)
    } else if b.context != q_context {
        Some(ClError::InvalidContext)
    } else if map_denied(b.flags, map_flags) {
        Some(ClError::InvalidOperation)
    } else if buffer_map_ptr(b, offset, staging) == 0 {
        Some(ClError::MapFailure)
    } else if map_count_full(b.maps, buffer_map_ptr(b, offset, staging)) {
        Some(ClError::OutOfHostMemory)
    } else {
        None
    }
}

/// Maps `size` bytes at `offset` of a buffer into host memory. A buffer
/// that uses host memory is mapped there; for another the caller brings
/// the memory, at `staging`. A request that is refused changes nothing.
pub fn enqueue_map_buffer(
    q: &Queue,
    b: &mut MemObject,
    blocking_map: u32,
    map_flags: u64,
    offset: usize,
    size: usize,
    staging: usize,
) -> (r: CLResult<MappedBuffer>)
    requires
        old(b).wf(),
    ensures
        final(b).wf(),
        match r {
            Ok(m) => {
                &&& map_buffer_error(
                    q.context,
                    old(b)@,
                    blocking_map,
                    map_flags,
                    offset,
                    size,
                    staging,
                ) is None
                &&& m == (MappedBuffer {
                    ptr: buffer_map_ptr(old(b)@, offset, staging),
                    submission: Submission {
                        cmd_type: CL_COMMAND_MAP_BUFFER,
                        blocking: spec_cl_bool(blocking_map)->0,
                        work: map_work(old(b)@.handle, m.ptr, map_flags),
                    },
                })
                &&& final(b)@ == (MemState {
                    maps: maps_after_map(
                        old(b)@.maps,
                        new_mapping(
                            m.ptr,
                            CLVec { x: offset, y: 0, z: 0 },
                            CLVec { x: size, y: 1, z: 1 },
                            map_flags,
                        ),
                    ),
                    ..old(b)@
                })
            },
            Err(e) => map_buffer_error(
                q.context,
                old(b)@,
                blocking_map,
                map_flags,
                offset,
                size,
                staging,
            ) == Some(e) && final(b)@ == old(b)@,
        },
{
    if !b.is_buffer() {
        return Err(ClError::InvalidMemObject);
    }
    let block: bool = match check_cl_bool(blocking_map) {
        Some(v) => v,
        None => {
            return Err(ClError::InvalidValue);
        },
    };
    validate_map_flags_common(map_flags)?;

    if offset >= b.size() || size > b.size() - offset || size == 0 {
        return Err(ClError::InvalidValue);
    }
    if b.context() != q.context {
        return Err(ClError::InvalidContext);
    }
    validate_map_flags(b.flags(), map_flags)?;

    let ptr: usize = if b.host_ptr() != 0 {
        b.host_ptr() + offset
    } else {
        staging
    };
    if ptr == 0 {
        return Err(ClError::MapFailure);
    }
    let m: Mapping = Mapping {
        ptr,
        origin: CLVec { x: offset, y: 0, z: 0 },
        region: CLVec { x: size, y: 1, z: 1 },
        writes: map_flags != CL_MAP_READ,
        sync: map_flags != CL_MAP_WRITE_INVALIDATE_REGION,
        count: 1,
    };
    b.add_mapping(m)?;
    let work: Work = if map_flags != CL_MAP_WRITE_INVALIDATE_REGION {
        Work::SyncMap { mem: b.handle(), ptr }
    } else {
        Work::Nothing
    };
    Ok(
        MappedBuffer {
            ptr,
            submission: Submission { cmd_type: CL_COMMAND_MAP_BUFFER, blocking: block, work },
        },
    )
}

/// The number of bytes that a box of an image takes when it lies packed in
/// host memory, as it does where the caller brings the memory for a
/// mapping; none where the number does not fit the address space.
pub open spec fn packed_box_bytes(info: ImageInfo, region: CLVec) -> Option<usize> {
    if region.x * info.elem_size * region.y * region.z > usize::MAX {
        None
    } else {
        Some((region.x * info.elem_size * region.y * region.z) as usize)
    }
}

/// The number of bytes that the caller brings for a mapping of a box of an
/// image that uses no host memory.
pub fn staging_bytes(info: &ImageInfo, region: &CLVec) -> (r: Option<usize>)
    ensures
        r == packed_box_bytes(*info, *region),
{
    let e: usize = info.elem_size as usize;
    proof {
        let row = region.x * e;
        assert(row * region.y >= 0 && (region.z == 0 ==> row * region.y * region.z == 0) && (
        region.z >= 1 ==> row * region.y * region.z >= row * region.y) && (region.y == 0 ==> row
            * region.y * region.z == 0) && (region.y >= 1 ==> row * region.y >= row))
            by (nonlinear_arith)
            requires
                row >= 0,
                region.y >= 0,
                region.z >= 0,
        ;
    }
    if region.y == 0 || region.z == 0 {
        return Some(0);
    }
    let row: usize = match region.x.checked_mul(e) {
        Some(v) => v,
        None => {
            return None;
        },
    };
    let slice: usize = match row.checked_mul(region.y) {
        Some(v) => v,
        None => {
            return None;
        },
    };
    slice.checked_mul(region.z)
}

/// A box of an image, mapped.
#[derive(Debug, PartialEq, Eq)]
pub struct MappedImage {
    /// The host address of the first pixel of the box.
    pub ptr: usize,
    /// How far apart the rows of the box lie at that address.
    pub row_pitch: usize,
    /// How far apart its slices lie.
    pub slice_pitch: usize,
    pub submission: Submission,
}

fn place_image_map(
    host_ptr: usize,
    info: &ImageInfo,
    origin: &CLVec,
    region: &CLVec,
    staging: usize,
) -> (r: Option<MapPlace>)
    ensures
        match r {
            Some(p) => Some(p) == image_map_place_of(host_ptr, *info, *origin, *region, staging),
            None => image_map_place_of(host_ptr, *info, *origin, *region, staging) is None,
        },
{
    let e: usize = info.elem_size as usize;
    if host_ptr != 0 {
        let row: usize = info.desc.image_row_pitch;
        let slice: usize = info.desc.image_slice_pitch;
        let a: usize = match origin.x.checked_mul(e) {
            Some(v) => v,
            None => {
                return None;
            },
        };
        let b: usize = match origin.y.checked_mul(row) {
            Some(v) => v,
            None => {
                return None;
            },
        };
        let c: usize = match origin.z.checked_mul(slice) {
            Some(v) => v,
            None => {
                return None;
            },
        };
        let ab: usize = match a.checked_add(b) {
            Some(v) => v,
            None => {
                return None;
            },
        };
        let abc: usize = match ab.checked_add(c) {
            Some(v) => v,
            None => {
                return None;
            },
        };
        match host_ptr.checked_add(abc) {
            Some(ptr) => Some(MapPlace { ptr, row_pitch: row, slice_pitch: slice }),
            None => None,
        }
    } else {
        if staging == 0 {
            return None;
        }
        let row: usize = match region.x.checked_mul(e) {
            Some(v) => v,
            None => {
                return None;
            },
        };
        match row.checked_mul(region.y) {
            Some(slice) => Some(MapPlace { ptr: staging, row_pitch: row, slice_pitch: slice }),
            None => None,
        }
    }
}

/// Where a mapped box lies in host memory.
#[derive(Clone, Copy, Debug, PartialEq, Eq, Structural)]
pub struct MapPlace {
    pub ptr: usize,
    pub row_pitch: usize,
    pub slice_pitch: usize,
}

/// Where a mapped box of an image lies in host memory: its address and its
/// pitches. An image that uses host memory is mapped there, with the
/// pitches of the image; for another the caller brings the memory, at
/// `staging`, and the box lies packed in it. None where an address or a
/// pitch does not fit the address space, or there is no host memory.
pub open spec fn image_map_place_of(
    host_ptr: usize,
    info: ImageInfo,
    origin: CLVec,
    region: CLVec,
    staging: usize,
) -> Option<MapPlace> {
    if host_ptr != 0 {
        let row = info.desc.image_row_pitch;
        let slice = info.desc.image_slice_pitch;
        let ptr = host_ptr + origin.x * info.elem_size + origin.y * row + origin.z * slice;
        if ptr > usize::MAX {
            None
        } else {
            Some(MapPlace { ptr: ptr as usize, row_pitch: row, slice_pitch: slice })
        }
    } else {
        let row = region.x * info.elem_size;
        let slice = row * region.y;
        if staging == 0 || row > usize::MAX || slice > usize::MAX {
            None
        } else {
            Some(MapPlace { ptr: staging, row_pitch: row as usize, slice_pitch: slice as usize })
        }
    }
}

/// Why a box of an image cannot be mapped; none where it can. In this
/// order: the object is an image; the blocking flag is a boolean and the
/// map flags are valid; the origin and the region are given, the caller
/// takes the row pitch, and the slice pitch too of an image with slices;
/// image and queue belong to one context; the image allows the host what
/// the map flags ask for, and can be transferred; the box lies within the
/// image; the box has a place in host memory; and the address can be
/// mapped once more.
pub open spec fn map_image_error(
    q_context: usize,
    i: MemState,
    blocking_map: u32,
    map_flags: u64,
    origin: Option<CLVec>,
    region: Option<CLVec>,
    takes_row_pitch: bool,
    takes_slice_pitch: bool,
    staging: usize,
) -> Option<ClError> {
    if i.image is None {
        Some(ClError::InvalidMemObject)
    } else if spec_cl_bool(blocking_map) is None || !map_flags_valid(map_flags) {
        Some(ClError::InvalidValue)
    } else if origin is None || region is None || !takes_row_pitch {
        Some(ClError::InvalidValue)
    } else if !takes_slice_pitch && (i.image->0.desc.spec_is_array() || i.mem_type
        == CL_MEM_OBJECT_IMAGE3D) {
        Some(ClError::InvalidValue)
    } else if i.context != q_context {
        Some(ClError::InvalidContext)
    } else if map_denied(i.flags, map_flags) || transfer_blocked(i.image->0) {
        Some(ClError::InvalidOperation)
    } else if !i.image->0.desc.bounds_ok(origin->0, region->0) {
        Some(ClError::InvalidValue)
    } else if image_map_place_of(i.host_ptr, i.image->0, origin->0, region->0, staging) is None {
        Some(ClError::MapFailure)
    } else if map_count_full(
        i.maps,
        image_map_place_of(i.host_ptr, i.image->0, origin->0, region->0, staging)->0.ptr,
    ) {
        Some(ClError::OutOfHostMemory)
    } else {
        None
    }
}

/// Maps a box of an image into host memory. `takes_row_pitch` and
/// `takes_slice_pitch` say whether the caller has room for the pitches. A
/// request that is refused changes nothing.
pub fn enqueue_map_image(
    q: &Queue,
    i: &mut MemObject,
    blocking_map: u32,
    map_flags: u64,
    origin: Option<CLVec>,
    region: Option<CLVec>,
    takes_row_pitch: bool,
    takes_slice_pitch: bool,
    staging: usize,
) -> (r: CLResult<MappedImage>)
    requires
        old(i).wf(),
    ensures
        final(i).wf(),
        match r {
            Ok(m) => {
                &&& map_image_error(
                    q.context,
                    old(i)@,
                    blocking_map,
                    map_flags,
                    origin,
                    region,
                    takes_row_pitch,
                    takes_slice_pitch,
                    staging,
                ) is None
                &&& Some(
                    MapPlace { ptr: m.ptr, row_pitch: m.row_pitch, slice_pitch: m.slice_pitch },
                ) == image_map_place_of(
                    old(i)@.host_ptr,
                    old(i)@.image->0,
                    origin->0,
                    region->0,
                    staging,
                )
                &&& m.submission == (Submission {
                    cmd_type: CL_COMMAND_MAP_IMAGE,
                    blocking: spec_cl_bool(blocking_map)->0,
                    work: map_work(old(i)@.handle, m.ptr, map_flags),
                })
                &&& final(i)@ == (MemState {
                    maps: maps_after_map(
                        old(i)@.maps,
                        new_mapping(m.ptr, origin->0, region->0, map_flags),
                    ),
                    ..old(i)@
                })
            },
            Err(e) => map_image_error(
                q.context,
                old(i)@,
                blocking_map,
                map_flags,
                origin,
                region,
                takes_row_pitch,
                takes_slice_pitch,
                staging,
            ) == Some(e) && final(i)@ == old(i)@,
        },
{
    let info: ImageInfo = match i.image() {
        Some(info) => info,
        None => {
            return Err(ClError::InvalidMemObject);
        },
    };
    let block: bool = match check_cl_bool(blocking_map) {
        Some(v) => v,
        None => {
            return Err(ClError::InvalidValue);
        },
    };
    validate_map_flags_common(map_flags)?;

    let (o, r): (CLVec, CLVec) = match (origin, region) {
        (Some(o), Some(r)) => (o, r),
        _ => {
            return Err(ClError::InvalidValue);
        },
    };
    if !takes_row_pitch {
        return Err(ClError::InvalidValue);
    }
    if !takes_slice_pitch && (info.desc.is_array() || info.desc.image_type
        == CL_MEM_OBJECT_IMAGE3D) {
        return Err(ClError::InvalidValue);
    }
    if i.context() != q.context {
        return Err(ClError::InvalidContext);
    }
    validate_map_flags(i.flags(), map_flags)?;

    if info.format.image_channel_order == crate::format::CL_DEPTH_STENCIL || info.desc.num_samples
        > 0 {
        return Err(ClError::InvalidOperation);
    }
    if !info.desc.check_bounds(&o, &r) {
        return Err(ClError::InvalidValue);
    }
    let (ptr, row_pitch, slice_pitch): (usize, usize, usize) = match place_image_map(
        i.host_ptr(),
        &info,
        &o,
        &r,
        staging,
    ) {
        Some(p) => (p.ptr, p.row_pitch, p.slice_pitch),
        None => {
            return Err(ClError::MapFailure);
        },
    };
    let m: Mapping = Mapping {
        ptr,
        origin: o,
        region: r,
        writes: map_flags != CL_MAP_READ,
        sync: map_flags != CL_MAP_WRITE_INVALIDATE_REGION,
        count: 1,
    };
    i.add_mapping(m)?;
    let work: Work = if map_flags != CL_MAP_WRITE_INVALIDATE_REGION {
        Work::SyncMap { mem: i.handle(), ptr }
    } else {
        Work::Nothing
    };
    Ok(
        MappedImage {
            ptr,
            row_pitch,
            slice_pitch,
            submission: Submission { cmd_type: CL_COMMAND_MAP_IMAGE, blocking: block, work },
        },
    )
}

/// What an unmap of an address of a memory object comes to: the address
/// is that of a mapping of the object, and the object belongs to the
/// queue's context. An address that no map of the object has registered
/// is refused as a value, whatever the context. The content is brought back to the device unless the
/// region was mapped to drop what it held.
pub open spec fn unmap_checked(q_context: usize, m: MemState, mapped_ptr: usize) -> Result<
    Submission,
    ClError,
> {
    match mapped_at(m.maps, mapped_ptr) {
        None => Err(ClError::InvalidValue),
        Some(i) => if q_context != m.context {
            Err(ClError::InvalidContext)
        } else {
            Ok(
                Submission {
                    cmd_type: CL_COMMAND_UNMAP_MEM_OBJECT,
                    blocking: false,
                    work: if m.maps[i].sync {
                        Work::SyncUnmap { mem: m.handle, ptr: mapped_ptr }
                    } else {
                        Work::Nothing
                    },
                },
            )
        },
    }
}

/// Takes back one mapping of an address of a memory object. A request that
/// is refused changes nothing.
pub fn enqueue_unmap_mem_object(q: &Queue, m: &mut MemObject, mapped_ptr: usize) -> (r: CLResult<
    Submission,
>)
    requires
        old(m).wf(),
    ensures
        final(m).wf(),
        r == unmap_checked(q.context, old(m)@, mapped_ptr),
        final(m)@ == (MemState {
            maps: if r is Ok {
                maps_after_unmap(old(m)@.maps, mapped_ptr)
            } else {
                old(m)@.maps
            },
            ..old(m)@
        }),
{
    if !m.is_mapped_ptr(mapped_ptr) {
        return Err(ClError::InvalidValue);
    }
    if q.context != m.context() {
        return Err(ClError::InvalidContext);
    }
    let needs_sync: bool = m.unmap(mapped_ptr)?;
    let work: Work = if needs_sync {
        Work::SyncUnmap { mem: m.handle(), ptr: mapped_ptr }
    } else {
        Work::Nothing
    };
    Ok(Submission { cmd_type: CL_COMMAND_UNMAP_MEM_OBJECT, blocking: false, work })
}

/// After a map of a fresh address and an unmap of it the mappings are what
/// they were: an object without mappings has none after the pair. An
/// address that no map has registered is not unmapped.
pub proof fn lemma_map_then_unmap(maps: Seq<Mapping>, m: Mapping, other: usize)
    requires
        crate::mem::maps_wf(maps),
        m.count == 1,
        mapped_at(maps, m.ptr) is None,
    ensures
        maps_after_unmap(maps_after_map(maps, m), m.ptr) == maps,
        maps.len() == 0 ==> maps_after_unmap(maps_after_map(maps, m), m.ptr).len() == 0,
        mapped_at(maps, other) is None && other != m.ptr ==> mapped_at(
            maps_after_map(maps, m),
            other,
        ) is None,
{
    crate::mem::lemma_map_unmap(maps, m);
    let after = maps.push(m);
}

} // verus!

//! Transfers to, from and between buffers: what is checked before one is
//! handed to the engine, and what is handed over.
//!
//! Every transfer of a memory object, here and for images and mappings,
//! is checked in one order and refused by the first check that fails: the
//! objects are of the kind that the transfer needs; what is to be given is
//! given and in range; the objects and the queue belong to one context;
//! the objects allow the access; the pitches are valid; what is
//! transferred lies within the objects; and what is read is not written.

use vstd::prelude::*;
use vstd::slice::slice_to_vec;
use crate::command::{
    Layout, Submission, Work, CL_COMMAND_COPY_BUFFER, CL_COMMAND_COPY_BUFFER_RECT,
    CL_COMMAND_FILL_BUFFER, CL_COMMAND_MIGRATE_MEM_OBJECTS, CL_COMMAND_READ_BUFFER,
    CL_COMMAND_READ_BUFFER_RECT, CL_COMMAND_WRITE_BUFFER, CL_COMMAND_WRITE_BUFFER_RECT,
};
use crate::context::Queue;
use crate::desc::CL_MEM_OBJECT_BUFFER;
use crate::error::{CLResult, ClError};
use crate::flags::{
    bit_check, has_bit, CL_MEM_HOST_NO_ACCESS, CL_MEM_HOST_READ_ONLY, CL_MEM_HOST_WRITE_ONLY,
    CL_MIGRATE_MEM_OBJECT_CONTENT_UNDEFINED, CL_MIGRATE_MEM_OBJECT_HOST,
};
use crate::mem::{MemObject, MemState};
use crate::util::{
    block_size, calc_size, calc_size_exceeds, check_cl_bool, check_copy_overlap, copy_overlap,
    opt_seq, ranges_overlap, region_start, spec_cl_bool, CLVec,
};

verus! {
/// The host may not read the object.
pub open spec fn host_read_denied(flags: u64) -> bool {
    has_bit(flags, CL_MEM_HOST_WRITE_ONLY | CL_MEM_HOST_NO_ACCESS)
}

/// The host may not write the object.
pub open spec fn host_write_denied(flags: u64) -> bool {
    has_bit(flags, CL_MEM_HOST_READ_ONLY | CL_MEM_HOST_NO_ACCESS)
}

/// What a read of `cb` bytes at `offset` of a buffer into host memory comes
/// to: the work, or the first rule that the request breaks. The object is a
/// buffer; the blocking flag is a boolean; the bytes lie within the buffer
/// and the host memory is given; buffer and queue belong to one context;
/// and the host may read the buffer.
pub open spec fn read_buffer_checked(
    q_context: usize,
    b: MemState,
    blocking_read: u32,
    offset: usize,
    cb: usize,
    ptr: usize,
) -> Result<Submission, ClError> {
    if b.mem_type != CL_MEM_OBJECT_BUFFER {
        Err(ClError::InvalidMemObject)
    } else if spec_cl_bool(blocking_read) is None {
        Err(ClError::InvalidValue)
    } else if offset + cb > b.size || ptr == 0 {
        Err(ClError::InvalidValue)
    } else if b.context != q_context {
        Err(ClError::InvalidContext)
    } else if host_read_denied(b.flags) {
        Err(ClError::InvalidOperation)
    } else {
        Ok(
            Submission {
                cmd_type: CL_COMMAND_READ_BUFFER,
                blocking: spec_cl_bool(blocking_read)->0,
                work: Work::ReadBuffer { buffer: b.handle, offset, ptr, size: cb },
            },
        )
    }
}

fn out_of_range(offset: usize, size: usize, total: usize) -> (r: bool)
    ensures
        r == (offset + size > total),
{
    offset > total || size > total - offset
}

/// Accepts a read of `cb` bytes at `offset` of a buffer into the host
/// memory at `ptr`.
pub fn enqueue_read_buffer(
    q: &Queue,
    b: &MemObject,
    blocking_read: u32,
    offset: usize,
    cb: usize,
    ptr: usize,
) -> (r: CLResult<Submission>)
    ensures
        r == read_buffer_checked(q.context, b@, blocking_read, offset, cb, ptr),
{
    if !b.is_buffer() {
        return Err(ClError::InvalidMemObject);
    }
    let block: bool = match check_cl_bool(blocking_read) {
        Some(v) => v,
        None => {
            return Err(ClError::InvalidValue);
        },
    };
    if out_of_range(offset, cb, b.size()) || ptr == 0 {
        return Err(ClError::InvalidValue);
    }
    if b.context() != q.context {
        return Err(ClError::InvalidContext);
    }
    if bit_check(b.flags(), CL_MEM_HOST_WRITE_ONLY | CL_MEM_HOST_NO_ACCESS) {
        return Err(ClError::InvalidOperation);
    }
    Ok(
        Submission {
            cmd_type: CL_COMMAND_READ_BUFFER,
            blocking: block,
            work: Work::ReadBuffer { buffer: b.handle(), offset, ptr, size: cb },
        },
    )
}

/// What a write of `cb` bytes of host memory to `offset` of a buffer comes
/// to; the rules are those of a read, but that the host may write the
/// buffer.
pub open spec fn write_buffer_checked(
    q_context: usize,
    b: MemState,
    blocking_write: u32,
    offset: usize,
    cb: usize,
    ptr: usize,
) -> Result<Submission, ClError> {
    if b.mem_type != CL_MEM_OBJECT_BUFFER {
        Err(ClError::InvalidMemObject)
    } else if spec_cl_bool(blocking_write) is None {
        Err(ClError::InvalidValue)
    } else if offset + cb > b.size || ptr == 0 {
        Err(ClError::InvalidValue)
    } else if b.context != q_context {
        Err(ClError::InvalidContext)
    } else if host_write_denied(b.flags) {
        Err(ClError::InvalidOperation)
    } else {
        Ok(
            Submission {
                cmd_type: CL_COMMAND_WRITE_BUFFER,
                blocking: spec_cl_bool(blocking_write)->0,
                work: Work::WriteBuffer { buffer: b.handle, offset, ptr, size: cb },
            },
        )
    }
}

/// Accepts a write of `cb` bytes from the host memory at `ptr` to `offset`
/// of a buffer.
pub fn enqueue_write_buffer(
    q: &Queue,
    b: &MemObject,
    blocking_write: u32,
    offset: usize,
    cb: usize,
    ptr: usize,
) -> (r: CLResult<Submission>)
    ensures
        r == write_buffer_checked(q.context, b@, blocking_write, offset, cb, ptr),
{
    if !b.is_buffer() {
        return Err(ClError::InvalidMemObject);
    }
    let block: bool = match check_cl_bool(blocking_write) {
        Some(v) => v,
        None => {
            return Err(ClError::InvalidValue);
        },
    };
    if out_of_range(offset, cb, b.size()) || ptr == 0 {
        return Err(ClError::InvalidValue);
    }
    if b.context() != q.context {
        return Err(ClError::InvalidContext);
    }
    if bit_check(b.flags(), CL_MEM_HOST_READ_ONLY | CL_MEM_HOST_NO_ACCESS) {
        return Err(ClError::InvalidOperation);
    }
    Ok(
        Submission {
            cmd_type: CL_COMMAND_WRITE_BUFFER,
            blocking: block,
            work: Work::WriteBuffer { buffer: b.handle(), offset, ptr, size: cb },
        },
    )
}

/// What a copy of `size` bytes between two buffers comes to. In this
/// order: both objects are buffers; the buffers and the queue belong to
/// one context; the bytes lie within each buffer; and where the two
/// buffers use the same memory the bytes read and the bytes written,
/// counted from the start of that memory, do not overlap.
pub open spec fn copy_buffer_checked(
    q_context: usize,
    src: MemState,
    dst: MemState,
    src_offset: usize,
    dst_offset: usize,
    size: usize,
) -> Result<Submission, ClError> {
    if src.mem_type != CL_MEM_OBJECT_BUFFER || dst.mem_type != CL_MEM_OBJECT_BUFFER {
        Err(ClError::InvalidMemObject)
    } else if q_context != src.context || q_context != dst.context {
        Err(ClError::InvalidContext)
    } else if src_offset + size > src.size || dst_offset + size > dst.size {
        Err(ClError::InvalidValue)
    } else if src.storage == dst.storage && ranges_overlap(
        src_offset + src.offset,
        dst_offset + dst.offset,
        size as int,
    ) {
        Err(ClError::MemCopyOverlap)
    } else {
        Ok(
            Submission {
                cmd_type: CL_COMMAND_COPY_BUFFER,
                blocking: false,
                work: Work::CopyBuffer {
                    src: src.handle,
                    dst: dst.handle,
                    src_offset,
                    dst_offset,
                    size,
                },
            },
        )
    }
}

/// Accepts a copy of `size` bytes from `src_offset` of one buffer to
/// `dst_offset` of another, or of the same.
pub fn enqueue_copy_buffer(
    q: &Queue,
    src: &MemObject,
    dst: &MemObject,
    src_offset: usize,
    dst_offset: usize,
    size: usize,
) -> (r: CLResult<Submission>)
    requires
        src.wf(),
        dst.wf(),
    ensures
        r == copy_buffer_checked(q.context, src@, dst@, src_offset, dst_offset, size),
{
    if !src.is_buffer() || !dst.is_buffer() {
        return Err(ClError::InvalidMemObject);
    }
    if q.context != src.context() || q.context != dst.context() {
        return Err(ClError::InvalidContext);
    }
    if out_of_range(src_offset, size, src.size()) || out_of_range(dst_offset, size, dst.size()) {
        return Err(ClError::InvalidValue);
    }
    if src.backing_memory_eq(dst) {
        let s: usize = src_offset + src.offset();
        let d: usize = dst_offset + dst.offset();
        if (s <= d && d - s < size) || (d <= s && s - d < size) {
            return Err(ClError::MemCopyOverlap);
        }
    }
    Ok(
        Submission {
            cmd_type: CL_COMMAND_COPY_BUFFER,
            blocking: false,
            work: Work::CopyBuffer {
                src: src.handle(),
                dst: dst.handle(),
                src_offset,
                dst_offset,
                size,
            },
        },
    )
}

/// The pitches of a box in linear memory.
#[derive(Clone, Copy, Debug, PartialEq, Eq, Structural)]
pub struct Pitches {
    pub row: usize,
    pub slice: usize,
}

/// A region with its layout in two places: in the buffer and in host
/// memory, or in the source and in the destination.
#[derive(Clone, Copy, Debug, PartialEq, Eq, Structural)]
pub struct Rect {
    pub region: CLVec,
    pub first: Layout,
    pub second: Layout,
}

/// The pitches of a box in linear memory, or none where the pitches that
/// were given are refused.
///
/// A pitch of zero stands for the packed one: the width of the region for
/// a row, the row pitch times the height of the region for a slice. A row
/// pitch that is given is not below the width; a slice pitch that is given
/// is not below the packed one and is a multiple of the row pitch. A pitch
/// that does not fit the address space is refused.
pub open spec fn normalized_pitches(region: CLVec, row_pitch: usize, slice_pitch: usize) -> Option<
    Pitches,
> {
    let row = if row_pitch == 0 {
        region.x
    } else {
        row_pitch
    };
    let packed_slice = region.y * row;
    if row_pitch != 0 && row_pitch < region.x {
        None
    } else if row == 0 {
        None
    } else if slice_pitch == 0 {
        if packed_slice > usize::MAX {
            None
        } else {
            Some(Pitches { row, slice: packed_slice as usize })
        }
    } else if slice_pitch < packed_slice || slice_pitch as int % row as int != 0 {
        None
    } else {
        Some(Pitches { row, slice: slice_pitch })
    }
}

/// Completes and checks the pitches of a box in linear memory.
pub fn normalize_pitches(region: &CLVec, row_pitch: usize, slice_pitch: usize) -> (r: Option<
    Pitches,
>)
    ensures
        r == normalized_pitches(*region, row_pitch, slice_pitch),
{
    if row_pitch != 0 && row_pitch < region.x {
        return None;
    }
    let row: usize = if row_pitch == 0 {
        region.x
    } else {
        row_pitch
    };
    if row == 0 {
        return None;
    }
    let packed: Option<usize> = region.y.checked_mul(row);
    if slice_pitch == 0 {
        match packed {
            Some(p) => Some(Pitches { row, slice: p }),
            None => None,
        }
    } else {
        let too_small: bool = match packed {
            Some(p) => slice_pitch < p,
            None => true,
        };
        if too_small || slice_pitch % row != 0 {
            None
        } else {
            Some(Pitches { row, slice: slice_pitch })
        }
    }
}

/// What a rectangular transfer needs is given: both origins, the region,
/// and the host memory where the transfer has any; and the region is
/// nowhere empty.
pub open spec fn rect_given(
    first_origin: Option<CLVec>,
    second_origin: Option<CLVec>,
    region: Option<CLVec>,
    ptr_given: bool,
) -> bool {
    first_origin is Some && second_origin is Some && region is Some && ptr_given
        && !region->0.contains(0)
}

fn is_rect_given(
    first_origin: Option<CLVec>,
    second_origin: Option<CLVec>,
    region: Option<CLVec>,
    ptr_given: bool,
) -> (r: bool)
    ensures
        r == rect_given(first_origin, second_origin, region, ptr_given),
{
    match (first_origin, second_origin, region) {
        (Some(_), Some(_), Some(r)) => ptr_given && !r.contains(0),
        _ => false,
    }
}

/// The box, laid out in the buffer and in host memory, of a rectangular
/// read or write: the region and the two layouts with their pitches
/// completed, or none where something that was to be given is missing, the
/// region is empty somewhere, the pitches are refused, or the box ends
/// beyond the buffer.
pub open spec fn rect_layouts(
    buffer_size: usize,
    buffer_origin: Option<CLVec>,
    host_origin: Option<CLVec>,
    region: Option<CLVec>,
    buffer_row_pitch: usize,
    buffer_slice_pitch: usize,
    host_row_pitch: usize,
    host_slice_pitch: usize,
    ptr: usize,
) -> Option<Rect> {
    if buffer_origin is None || host_origin is None || region is None || ptr == 0 {
        None
    } else if region->0.contains(0) {
        None
    } else {
        match (
            normalized_pitches(region->0, buffer_row_pitch, buffer_slice_pitch),
            normalized_pitches(region->0, host_row_pitch, host_slice_pitch),
        ) {
            (Some(bp), Some(hp)) => {
                if calc_size(buffer_origin->0, region->0, bp.row, bp.slice) > buffer_size {
                    None
                } else {
                    Some(
                        Rect {
                            region: region->0,
                            first: Layout {
                                origin: buffer_origin->0,
                                row_pitch: bp.row,
                                slice_pitch: bp.slice,
                            },
                            second: Layout {
                                origin: host_origin->0,
                                row_pitch: hp.row,
                                slice_pitch: hp.slice,
                            },
                        },
                    )
                }
            },
            _ => None,
        }
    }
}

fn resolve_rect(
    buffer_size: usize,
    buffer_origin: Option<CLVec>,
    host_origin: Option<CLVec>,
    region: Option<CLVec>,
    buffer_row_pitch: usize,
    buffer_slice_pitch: usize,
    host_row_pitch: usize,
    host_slice_pitch: usize,
    ptr: usize,
) -> (r: Option<Rect>)
    ensures
        r == rect_layouts(
            buffer_size,
            buffer_origin,
            host_origin,
            region,
            buffer_row_pitch,
            buffer_slice_pitch,
            host_row_pitch,
            host_slice_pitch,
            ptr,
        ),
{
    let (buf_ori, host_ori, r): (CLVec, CLVec, CLVec) = match (buffer_origin, host_origin, region) {
        (Some(b), Some(h), Some(r)) => (b, h, r),
        _ => {
            return None;
        },
    };
    if ptr == 0 {
        return None;
    }
    if r.contains(0) {
        return None;
    }
    let bp: Pitches = match normalize_pitches(&r, buffer_row_pitch, buffer_slice_pitch) {
        Some(p) => p,
        None => {
            return None;
        },
    };
    let hp: Pitches = match normalize_pitches(&r, host_row_pitch, host_slice_pitch) {
        Some(p) => p,
        None => {
            return None;
        },
    };
    if calc_size_exceeds(&buf_ori, &r, bp.row, bp.slice, buffer_size) {
        return None;
    }
    Some(
        Rect {
            region: r,
            first: Layout { origin: buf_ori, row_pitch: bp.row, slice_pitch: bp.slice },
            second: Layout { origin: host_ori, row_pitch: hp.row, slice_pitch: hp.slice },
        },
    )
}

/// What a rectangular read of a buffer into host memory comes to. In this
/// order: the blocking flag is a boolean; the object is a buffer; the
/// origins, the region and the host memory are given and the region is
/// nowhere empty; buffer and queue belong to one context; the host may
/// read the buffer; the pitches are valid; and the box lies within the
/// buffer.
pub open spec fn read_buffer_rect_checked(
    q_context: usize,
    buf: MemState,
    blocking_read: u32,
    buffer_origin: Option<CLVec>,
    host_origin: Option<CLVec>,
    region: Option<CLVec>,
    buffer_row_pitch: usize,
    buffer_slice_pitch: usize,
    host_row_pitch: usize,
    host_slice_pitch: usize,
    ptr: usize,
) -> Result<Submission, ClError> {
    let layouts = rect_layouts(
        buf.size,
        buffer_origin,
        host_origin,
        region,
        buffer_row_pitch,
        buffer_slice_pitch,
        host_row_pitch,
        host_slice_pitch,
        ptr,
    );
    if spec_cl_bool(blocking_read) is None {
        Err(ClError::InvalidValue)
    } else if buf.mem_type != CL_MEM_OBJECT_BUFFER {
        Err(ClError::InvalidMemObject)
    } else if !rect_given(buffer_origin, host_origin, region, ptr != 0) {
        Err(ClError::InvalidValue)
    } else if q_context != buf.context {
        Err(ClError::InvalidContext)
    } else if host_read_denied(buf.flags) {
        Err(ClError::InvalidOperation)
    } else if layouts is None {
        Err(ClError::InvalidValue)
    } else {
        Ok(
            Submission {
                cmd_type: CL_COMMAND_READ_BUFFER_RECT,
                blocking: spec_cl_bool(blocking_read)->0,
                work: Work::ReadBufferRect {
                    buffer: buf.handle,
                    ptr,
                    region: layouts->0.region,
                    buffer_layout: layouts->0.first,
                    host_layout: layouts->0.second,
                },
            },
        )
    }
}

/// Accepts a read of a box of a buffer into a box of the host memory at
/// `ptr`.
pub fn enqueue_read_buffer_rect(
    q: &Queue,
    buf: &MemObject,
    blocking_read: u32,
    buffer_origin: Option<CLVec>,
    host_origin: Option<CLVec>,
    region: Option<CLVec>,
    buffer_row_pitch: usize,
    buffer_slice_pitch: usize,
    host_row_pitch: usize,
    host_slice_pitch: usize,
    ptr: usize,
) -> (r: CLResult<Submission>)
    ensures
        r == read_buffer_rect_checked(
            q.context,
            buf@,
            blocking_read,
            buffer_origin,
            host_origin,
            region,
            buffer_row_pitch,
            buffer_slice_pitch,
            host_row_pitch,
            host_slice_pitch,
            ptr,
        ),
{
    let block: bool = match check_cl_bool(blocking_read) {
        Some(v) => v,
        None => {
            return Err(ClError::InvalidValue);
        },
    };
    if !buf.is_buffer() {
        return Err(ClError::InvalidMemObject);
    }
    if !is_rect_given(buffer_origin, host_origin, region, ptr != 0) {
        return Err(ClError::InvalidValue);
    }
    if q.context != buf.context() {
        return Err(ClError::InvalidContext);
    }
    if bit_check(buf.flags(), CL_MEM_HOST_WRITE_ONLY | CL_MEM_HOST_NO_ACCESS) {
        return Err(ClError::InvalidOperation);
    }
    let rect: Rect = match resolve_rect(
        buf.size(),
        buffer_origin,
        host_origin,
        region,
        buffer_row_pitch,
        buffer_slice_pitch,
        host_row_pitch,
        host_slice_pitch,
        ptr,
    ) {
        Some(l) => l,
        None => {
            return Err(ClError::InvalidValue);
        },
    };
    Ok(
        Submission {
            cmd_type: CL_COMMAND_READ_BUFFER_RECT,
            blocking: block,
            work: Work::ReadBufferRect {
                buffer: buf.handle(),
                ptr,
                region: rect.region,
                buffer_layout: rect.first,
                host_layout: rect.second,
            },
        },
    )
}

/// What a rectangular write of host memory to a buffer comes to; the rules
/// and their order are those of a rectangular read, but that the host may
/// write the buffer.
pub open spec fn write_buffer_rect_checked(
    q_context: usize,
    buf: MemState,
    blocking_write: u32,
    buffer_origin: Option<CLVec>,
    host_origin: Option<CLVec>,
    region: Option<CLVec>,
    buffer_row_pitch: usize,
    buffer_slice_pitch: usize,
    host_row_pitch: usize,
    host_slice_pitch: usize,
    ptr: usize,
) -> Result<Submission, ClError> {
    let layouts = rect_layouts(
        buf.size,
        buffer_origin,
        host_origin,
        region,
        buffer_row_pitch,
        buffer_slice_pitch,
        host_row_pitch,
        host_slice_pitch,
        ptr,
    );
    if spec_cl_bool(blocking_write) is None {
        Err(ClError::InvalidValue)
    } else if buf.mem_type != CL_MEM_OBJECT_BUFFER {
        Err(ClError::InvalidMemObject)
    } else if !rect_given(buffer_origin, host_origin, region, ptr != 0) {
        Err(ClError::InvalidValue)
    } else if q_context != buf.context {
        Err(ClError::InvalidContext)
    } else if host_write_denied(buf.flags) {
        Err(ClError::InvalidOperation)
    } else if layouts is None {
        Err(ClError::InvalidValue)
    } else {
        Ok(
            Submission {
                cmd_type: CL_COMMAND_WRITE_BUFFER_RECT,
                blocking: spec_cl_bool(blocking_write)->0,
                work: Work::WriteBufferRect {
                    buffer: buf.handle,
                    ptr,
                    region: layouts->0.region,
                    buffer_layout: layouts->0.first,
                    host_layout: layouts->0.second,
                },
            },
        )
    }
}

/// Accepts a write of a box of the host memory at `ptr` to a box of a
/// buffer.
pub fn enqueue_write_buffer_rect(
    q: &Queue,
    buf: &MemObject,
    blocking_write: u32,
    buffer_origin: Option<CLVec>,
    host_origin: Option<CLVec>,
    region: Option<CLVec>,
    buffer_row_pitch: usize,
    buffer_slice_pitch: usize,
    host_row_pitch: usize,
    host_slice_pitch: usize,
    ptr: usize,
) -> (r: CLResult<Submission>)
    ensures
        r == write_buffer_rect_checked(
            q.context,
            buf@,
            blocking_write,
            buffer_origin,
            host_origin,
            region,
            buffer_row_pitch,
            buffer_slice_pitch,
            host_row_pitch,
            host_slice_pitch,
            ptr,
        ),
{
    let block: bool = match check_cl_bool(blocking_write) {
        Some(v) => v,
        None => {
            return Err(ClError::InvalidValue);
        },
    };
    if !buf.is_buffer() {
        return Err(ClError::InvalidMemObject);
    }
    if !is_rect_given(buffer_origin, host_origin, region, ptr != 0) {
        return Err(ClError::InvalidValue);
    }
    if q.context != buf.context() {
        return Err(ClError::InvalidContext);
    }
    if bit_check(buf.flags(), CL_MEM_HOST_READ_ONLY | CL_MEM_HOST_NO_ACCESS) {
        return Err(ClError::InvalidOperation);
    }
    let rect: Rect = match resolve_rect(
        buf.size(),
        buffer_origin,
        host_origin,
        region,
        buffer_row_pitch,
        buffer_slice_pitch,
        host_row_pitch,
        host_slice_pitch,
        ptr,
    ) {
        Some(l) => l,
        None => {
            return Err(ClError::InvalidValue);
        },
    };
    Ok(
        Submission {
            cmd_type: CL_COMMAND_WRITE_BUFFER_RECT,
            blocking: block,
            work: Work::WriteBufferRect {
                buffer: buf.handle(),
                ptr,
                region: rect.region,
                buffer_layout: rect.first,
                host_layout: rect.second,
            },
        },
    )
}

/// The box of a rectangular copy, laid out in the source and in the
/// destination, or none where something that was to be given is missing,
/// the region is empty somewhere, the pitches are refused, a copy within
/// one buffer differs in both pitches, or the box ends beyond one of the
/// buffers.
pub open spec fn copy_rect_layouts(
    src: MemState,
    dst: MemState,
    src_origin: Option<CLVec>,
    dst_origin: Option<CLVec>,
    region: Option<CLVec>,
    src_row_pitch: usize,
    src_slice_pitch: usize,
    dst_row_pitch: usize,
    dst_slice_pitch: usize,
) -> Option<Rect> {
    if src_origin is None || dst_origin is None || region is None {
        None
    } else if region->0.contains(0) {
        None
    } else {
        match (
            normalized_pitches(region->0, src_row_pitch, src_slice_pitch),
            normalized_pitches(region->0, dst_row_pitch, dst_slice_pitch),
        ) {
            (Some(sp), Some(dp)) => {
                if src.handle == dst.handle && sp.slice != dp.slice && sp.row != dp.row {
                    None
                } else if calc_size(src_origin->0, region->0, sp.row, sp.slice) > src.size
                    || calc_size(dst_origin->0, region->0, dp.row, dp.slice) > dst.size {
                    None
                } else {
                    Some(
                        Rect {
                            region: region->0,
                            first: Layout {
                                origin: src_origin->0,
                                row_pitch: sp.row,
                                slice_pitch: sp.slice,
                            },
                            second: Layout {
                                origin: dst_origin->0,
                                row_pitch: dp.row,
                                slice_pitch: dp.slice,
                            },
                        },
                    )
                }
            },
            _ => None,
        }
    }
}

/// What a rectangular copy between two buffers comes to. In this order:
/// both objects are buffers; the origins and the region are given and the
/// region is nowhere empty; the buffers and the queue belong to one
/// context; the pitches are valid and the box lies within each buffer; and
/// where the two buffers use the same memory, the box read and the box
/// written, both taken with the pitches of the source, do not overlap.
pub open spec fn copy_buffer_rect_checked(
    q_context: usize,
    src: MemState,
    dst: MemState,
    src_origin: Option<CLVec>,
    dst_origin: Option<CLVec>,
    region: Option<CLVec>,
    src_row_pitch: usize,
    src_slice_pitch: usize,
    dst_row_pitch: usize,
    dst_slice_pitch: usize,
) -> Result<Submission, ClError> {
    let layouts = copy_rect_layouts(
        src,
        dst,
        src_origin,
        dst_origin,
        region,
        src_row_pitch,
        src_slice_pitch,
        dst_row_pitch,
        dst_slice_pitch,
    );
    if src.mem_type != CL_MEM_OBJECT_BUFFER || dst.mem_type != CL_MEM_OBJECT_BUFFER {
        Err(ClError::InvalidMemObject)
    } else if !rect_given(src_origin, dst_origin, region, true) {
        Err(ClError::InvalidValue)
    } else if src.context != q_context || dst.context != q_context {
        Err(ClError::InvalidContext)
    } else if layouts is None {
        Err(ClError::InvalidValue)
    } else if src.storage == dst.storage && copy_overlap(
        layouts->0.first.origin,
        src.offset,
        layouts->0.second.origin,
        dst.offset,
        layouts->0.region,
        layouts->0.first.row_pitch,
        layouts->0.first.slice_pitch,
    ) {
        Err(ClError::MemCopyOverlap)
    } else {
        Ok(
            Submission {
                cmd_type: CL_COMMAND_COPY_BUFFER_RECT,
                blocking: false,
                work: Work::CopyBufferRect {
                    src: src.handle,
                    dst: dst.handle,
                    region: layouts->0.region,
                    src_layout: layouts->0.first,
                    dst_layout: layouts->0.second,
                },
            },
        )
    }
}

proof fn lemma_box_end(origin: CLVec, offset: usize, region: CLVec, rp: usize, sp: usize)
    ensures
        region_start(origin, offset, rp, sp) + block_size(region, rp, sp) == calc_size(
            origin,
            region,
            rp,
            sp,
        ) + offset,
{
    assert((origin.y + region.y - 1) * rp == origin.y * rp + (region.y - 1) * rp)
        by (nonlinear_arith);
    assert((origin.z + region.z - 1) * sp == origin.z * sp + (region.z - 1) * sp)
        by (nonlinear_arith);
}

proof fn lemma_pitches_positive(region: CLVec, row_pitch: usize, slice_pitch: usize)
    requires
        !region.contains(0),
        normalized_pitches(region, row_pitch, slice_pitch) is Some,
    ensures
        normalized_pitches(region, row_pitch, slice_pitch)->0.row > 0,
        normalized_pitches(region, row_pitch, slice_pitch)->0.slice > 0,
{
    let row = normalized_pitches(region, row_pitch, slice_pitch)->0.row;
    assert(region.y * row >= 1) by (nonlinear_arith)
        requires
            region.y >= 1,
            row >= 1,
    ;
}

/// Accepts a copy of a box of one buffer to a box of another, or of the
/// same.
pub fn enqueue_copy_buffer_rect(
    q: &Queue,
    src: &MemObject,
    dst: &MemObject,
    src_origin: Option<CLVec>,
    dst_origin: Option<CLVec>,
    region: Option<CLVec>,
    src_row_pitch: usize,
    src_slice_pitch: usize,
    dst_row_pitch: usize,
    dst_slice_pitch: usize,
) -> (r: CLResult<Submission>)
    requires
        src.wf(),
        dst.wf(),
    ensures
        r == copy_buffer_rect_checked(
            q.context,
            src@,
            dst@,
            src_origin,
            dst_origin,
            region,
            src_row_pitch,
            src_slice_pitch,
            dst_row_pitch,
            dst_slice_pitch,
        ),
{
    if !src.is_buffer() || !dst.is_buffer() {
        return Err(ClError::InvalidMemObject);
    }
    let (src_ori, dst_ori, r): (CLVec, CLVec, CLVec) = match (src_origin, dst_origin, region) {
        (Some(s), Some(d), Some(r)) => (s, d, r),
        _ => {
            return Err(ClError::InvalidValue);
        },
    };
    if r.contains(0) {
        return Err(ClError::InvalidValue);
    }
    if src.context() != q.context || dst.context() != q.context {
        return Err(ClError::InvalidContext);
    }
    let (srp, ssp): (usize, usize) = match normalize_pitches(&r, src_row_pitch, src_slice_pitch) {
        Some(p) => (p.row, p.slice),
        None => {
            return Err(ClError::InvalidValue);
        },
    };
    let (drp, dsp): (usize, usize) = match normalize_pitches(&r, dst_row_pitch, dst_slice_pitch) {
        Some(p) => (p.row, p.slice),
        None => {
            return Err(ClError::InvalidValue);
        },
    };
    if src.handle() == dst.handle() && ssp != dsp && srp != drp {
        return Err(ClError::InvalidValue);
    }
    if calc_size_exceeds(&src_ori, &r, srp, ssp, src.size()) || calc_size_exceeds(
        &dst_ori,
        &r,
        drp,
        dsp,
        dst.size(),
    ) {
        return Err(ClError::InvalidValue);
    }
    proof {
        lemma_box_end(src_ori, src@.offset, r, srp, ssp);
        lemma_pitches_positive(r, src_row_pitch, src_slice_pitch);
    }
    if src.backing_memory_eq(dst) && check_copy_overlap(
        &src_ori,
        src.offset(),
        &dst_ori,
        dst.offset(),
        &r,
        srp,
        ssp,
    ) {
        return Err(ClError::MemCopyOverlap);
    }
    Ok(
        Submission {
            cmd_type: CL_COMMAND_COPY_BUFFER_RECT,
            blocking: false,
            work: Work::CopyBufferRect {
                src: src.handle(),
                dst: dst.handle(),
                region: r,
                src_layout: Layout { origin: src_ori, row_pitch: srp, slice_pitch: ssp },
                dst_layout: Layout { origin: dst_ori, row_pitch: drp, slice_pitch: dsp },
            },
        },
    )
}

/// A pattern is 1, 2, 4, 8, 16, 32, 64 or 128 bytes long.
pub open spec fn pattern_size_valid(n: usize) -> bool {
    n == 1 || n == 2 || n == 4 || n == 8 || n == 16 || n == 32 || n == 64 || n == 128
}

/// Whether a pattern may have this length.
pub fn valid_pattern_size(n: usize) -> (r: bool)
    ensures
        r == pattern_size_valid(n),
{
    n == 1 || n == 2 || n == 4 || n == 8 || n == 16 || n == 32 || n == 64 || n == 128
}

/// Why a buffer cannot be filled as asked; none where it can. In this
/// order: the object is a buffer; the bytes lie within it; the pattern is
/// given and of a valid length; offset and size are multiples of that
/// length; and buffer and queue belong to one context.
pub open spec fn fill_buffer_error(
    q_context: usize,
    b: MemState,
    pattern: Option<Seq<u8>>,
    offset: usize,
    size: usize,
) -> Option<ClError> {
    if b.mem_type != CL_MEM_OBJECT_BUFFER {
        Some(ClError::InvalidMemObject)
    } else if offset + size > b.size {
        Some(ClError::InvalidValue)
    } else if pattern is None || !pattern_size_valid(pattern->0.len() as usize) {
        Some(ClError::InvalidValue)
    } else if offset as int % pattern->0.len() as int != 0 || size as int % pattern->0.len() as int
        != 0 {
        Some(ClError::InvalidValue)
    } else if b.context != q_context {
        Some(ClError::InvalidContext)
    } else {
        None
    }
}

/// Accepts a fill of `size` bytes at `offset` of a buffer with copies of a
/// pattern. The pattern is copied, so the caller may let go of it.
pub fn enqueue_fill_buffer(
    q: &Queue,
    b: &MemObject,
    pattern: Option<&[u8]>,
    offset: usize,
    size: usize,
) -> (r: CLResult<Submission>)
    ensures
        match r {
            Ok(s) => fill_buffer_error(
                q.context,
                b@,
                opt_seq(pattern),
                offset,
                size,
            ) is None && s.cmd_type == CL_COMMAND_FILL_BUFFER && !s.blocking && (
            s.work matches Work::FillBuffer { buffer, pattern: copy, offset: o, size: n }
                && buffer == b@.handle && copy@ == pattern->0@ && o == offset && n == size),
            Err(e) => fill_buffer_error(q.context, b@, opt_seq(pattern), offset, size) == Some(e),
        },
{
    if !b.is_buffer() {
        return Err(ClError::InvalidMemObject);
    }
    if out_of_range(offset, size, b.size()) {
        return Err(ClError::InvalidValue);
    }
    let pattern: &[u8] = match pattern {
        Some(p) => p,
        None => {
            return Err(ClError::InvalidValue);
        },
    };
    let pattern_size: usize = pattern.len();
    if !valid_pattern_size(pattern_size) {
        return Err(ClError::InvalidValue);
    }
    if offset % pattern_size != 0 || size % pattern_size != 0 {
        return Err(ClError::InvalidValue);
    }
    if b.context() != q.context {
        return Err(ClError::InvalidContext);
    }
    let copy: Vec<u8> = slice_to_vec(pattern);
    Ok(
        Submission {
            cmd_type: CL_COMMAND_FILL_BUFFER,
            blocking: false,
            work: Work::FillBuffer { buffer: b.handle(), pattern: copy, offset, size },
        },
    )
}

/// The flags of a migration are known.
pub open spec fn migration_flags_valid(flags: u64) -> bool {
    flags == 0 || !has_bit(
        flags,
        !(CL_MIGRATE_MEM_OBJECT_HOST | CL_MIGRATE_MEM_OBJECT_CONTENT_UNDEFINED),
    )
}

/// What a migration of memory objects comes to. There is an object and
/// the flags are known, and every object belongs to the queue's context.
/// Nothing needs to be done for a migration.
pub open spec fn migrate_checked(q_context: usize, mem_objects: Seq<&MemObject>, flags: u64) -> Result<
    Submission,
    ClError,
> {
    if mem_objects.len() == 0 || !migration_flags_valid(flags) {
        Err(ClError::InvalidValue)
    } else if exists|i: int|
        0 <= i < mem_objects.len() && (#[trigger] mem_objects[i])@.context != q_context {
        Err(ClError::InvalidContext)
    } else {
        Ok(
            Submission {
                cmd_type: CL_COMMAND_MIGRATE_MEM_OBJECTS,
                blocking: false,
                work: Work::Nothing,
            },
        )
    }
}

/// Accepts a migration of memory objects.
pub fn enqueue_migrate_mem_objects(q: &Queue, mem_objects: &[&MemObject], flags: u64) -> (r:
    CLResult<Submission>)
    ensures
        r == migrate_checked(q.context, mem_objects@, flags),
{
    if mem_objects.len() == 0 {
        return Err(ClError::InvalidValue);
    }
    if flags != 0 && bit_check(
        flags,
        !(CL_MIGRATE_MEM_OBJECT_HOST | CL_MIGRATE_MEM_OBJECT_CONTENT_UNDEFINED),
    ) {
        return Err(ClError::InvalidValue);
    }
    let mut i: usize = 0;
    while i < mem_objects.len()
        invariant
            i <= mem_objects.len(),
            mem_objects@.len() > 0,
            migration_flags_valid(flags),
            forall|j: int| 0 <= j < i ==> (#[trigger] mem_objects@[j])@.context == q.context,
        decreases mem_objects.len() - i,
    {
        if mem_objects[i].context() != q.context {
            return Err(ClError::InvalidContext);
        }
        i = i + 1;
    }
    Ok(
        Submission {
            cmd_type: CL_COMMAND_MIGRATE_MEM_OBJECTS,
            blocking: false,
            work: Work::Nothing,
        },
    )
}

} // verus!

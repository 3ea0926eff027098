//! Transfers to, from and between images.

use vstd::prelude::*;
use crate::command::{
    Submission, Work, CL_COMMAND_COPY_BUFFER_TO_IMAGE, CL_COMMAND_COPY_IMAGE,
    CL_COMMAND_COPY_IMAGE_TO_BUFFER, CL_COMMAND_FILL_BUFFER, CL_COMMAND_READ_IMAGE,
    CL_COMMAND_WRITE_BUFFER_RECT,
};
use crate::context::Queue;
use crate::desc::CL_MEM_OBJECT_BUFFER;
use crate::error::{CLResult, ClError};
use crate::flags::{bit_check, CL_MEM_HOST_NO_ACCESS, CL_MEM_HOST_READ_ONLY, CL_MEM_HOST_WRITE_ONLY};
use crate::format::{CL_DEPTH, CL_DEPTH_STENCIL};
use crate::mem::{ImageInfo, MemObject, MemState};
use crate::transfer::{host_read_denied, host_write_denied, Pitches};
use crate::util::{check_cl_bool, spec_cl_bool, CLVec};

verus! {
/// The image cannot be read, written, copied, filled or mapped: it is a
/// depth-stencil image, or it has more than one sample per pixel.
pub open spec fn transfer_blocked(info: ImageInfo) -> bool {
    info.format.image_channel_order == CL_DEPTH_STENCIL || info.desc.num_samples > 0
}

fn is_transfer_blocked(info: &ImageInfo) -> (r: bool)
    ensures
        r == transfer_blocked(*info),
{
    info.format.image_channel_order == CL_DEPTH_STENCIL || info.desc.num_samples > 0
}

/// The pitches of the host memory of an image transfer: a pitch of zero
/// stands for the packed one, the width of the region in bytes for a row
/// and the row pitch times the height of the region for a slice. None
/// where a pitch does not fit the address space.
pub open spec fn host_pitches(region: CLVec, elem_size: u8, row_pitch: usize, slice_pitch: usize) -> Option<
    Pitches,
> {
    let row: int = if row_pitch == 0 {
        region.x * elem_size
    } else {
        row_pitch as int
    };
    let slice: int = if slice_pitch == 0 {
        row * region.y
    } else {
        slice_pitch as int
    };
    if row > usize::MAX || slice > usize::MAX {
        None
    } else {
        Some(Pitches { row: row as usize, slice: slice as usize })
    }
}

fn resolve_host_pitches(region: &CLVec, elem_size: u8, row_pitch: usize, slice_pitch: usize) -> (r:
    Option<Pitches>)
    ensures
        r == host_pitches(*region, elem_size, row_pitch, slice_pitch),
{
    let row: usize = if row_pitch == 0 {
        match region.x.checked_mul(elem_size as usize) {
            Some(v) => v,
            None => {
                return None;
            },
        }
    } else {
        row_pitch
    };
    let slice: usize = if slice_pitch == 0 {
        match row.checked_mul(region.y) {
            Some(v) => v,
            None => {
                return None;
            },
        }
    } else {
        slice_pitch
    };
    Some(Pitches { row, slice })
}

/// The box of an image transfer with the pitches of its host memory, or
/// none where something that was to be given is missing, a slice pitch is
/// given for an image without slices, the box does not lie within the
/// image, or a pitch does not fit the address space.
pub open spec fn image_host_box(
    info: ImageInfo,
    origin: Option<CLVec>,
    region: Option<CLVec>,
    row_pitch: usize,
    slice_pitch: usize,
    ptr: usize,
) -> Option<Pitches> {
    if origin is None || region is None || ptr == 0 {
        None
    } else if !(info.desc.spec_dims() == 3 || info.desc.spec_is_array()) && slice_pitch != 0 {
        None
    } else if !info.desc.bounds_ok(origin->0, region->0) {
        None
    } else {
        host_pitches(region->0, info.elem_size, row_pitch, slice_pitch)
    }
}

fn resolve_image_host_box(
    info: &ImageInfo,
    origin: Option<CLVec>,
    region: Option<CLVec>,
    row_pitch: usize,
    slice_pitch: usize,
    ptr: usize,
) -> (r: Option<Pitches>)
    requires
        crate::desc::spec_image_type_valid(info.desc.image_type),
    ensures
        r == image_host_box(*info, origin, region, row_pitch, slice_pitch, ptr),
{
    let (o, r): (CLVec, CLVec) = match (origin, region) {
        (Some(o), Some(r)) => (o, r),
        _ => {
            return None;
        },
    };
    if ptr == 0 {
        return None;
    }
    if !info.desc.has_slice() && slice_pitch != 0 {
        return None;
    }
    if !info.desc.check_bounds(&o, &r) {
        return None;
    }
    resolve_host_pitches(&r, info.elem_size, row_pitch, slice_pitch)
}

/// What a read of a box of an image into host memory comes to. In this
/// order: the object is an image; the blocking flag is a boolean; the
/// origin, the region and the host memory are given; image and queue
/// belong to one context; the host may read the image; the image can be
/// transferred; the host pitches are valid; and the box lies within the
/// image.
pub open spec fn read_image_checked(
    q_context: usize,
    i: MemState,
    blocking_read: u32,
    origin: Option<CLVec>,
    region: Option<CLVec>,
    row_pitch: usize,
    slice_pitch: usize,
    ptr: usize,
) -> Result<Submission, ClError> {
    if i.image is None {
        Err(ClError::InvalidMemObject)
    } else if spec_cl_bool(blocking_read) is None {
        Err(ClError::InvalidValue)
    } else if origin is None || region is None || ptr == 0 {
        Err(ClError::InvalidValue)
    } else if i.context != q_context {
        Err(ClError::InvalidContext)
    } else if host_read_denied(i.flags) {
        Err(ClError::InvalidOperation)
    } else if transfer_blocked(i.image->0) {
        Err(ClError::InvalidOperation)
    } else {
        match image_host_box(i.image->0, origin, region, row_pitch, slice_pitch, ptr) {
            None => Err(ClError::InvalidValue),
            Some(p) => Ok(
                Submission {
                    cmd_type: CL_COMMAND_READ_IMAGE,
                    blocking: spec_cl_bool(blocking_read)->0,
                    work: Work::ReadImage {
                        image: i.handle,
                        ptr,
                        origin: origin->0,
                        region: region->0,
                        row_pitch: p.row,
                        slice_pitch: p.slice,
                    },
                },
            ),
        }
    }
}

/// Accepts a read of a box of an image into the host memory at `ptr`.
pub fn enqueue_read_image(
    q: &Queue,
    i: &MemObject,
    blocking_read: u32,
    origin: Option<CLVec>,
    region: Option<CLVec>,
    row_pitch: usize,
    slice_pitch: usize,
    ptr: usize,
) -> (r: CLResult<Submission>)
    requires
        i.wf(),
    ensures
        r == read_image_checked(
            q.context,
            i@,
            blocking_read,
            origin,
            region,
            row_pitch,
            slice_pitch,
            ptr,
        ),
{
    let info: ImageInfo = match i.image() {
        Some(info) => info,
        None => {
            return Err(ClError::InvalidMemObject);
        },
    };
    let block: bool = match check_cl_bool(blocking_read) {
        Some(v) => v,
        None => {
            return Err(ClError::InvalidValue);
        },
    };
    if origin.is_none() || region.is_none() || ptr == 0 {
        return Err(ClError::InvalidValue);
    }
    if i.context() != q.context {
        return Err(ClError::InvalidContext);
    }
    if bit_check(i.flags(), CL_MEM_HOST_WRITE_ONLY | CL_MEM_HOST_NO_ACCESS) {
        return Err(ClError::InvalidOperation);
    }
    if is_transfer_blocked(&info) {
        return Err(ClError::InvalidOperation);
    }
    let p: Pitches = match resolve_image_host_box(
        &info,
        origin,
        region,
        row_pitch,
        slice_pitch,
        ptr,
    ) {
        Some(p) => p,
        None => {
            return Err(ClError::InvalidValue);
        },
    };
    Ok(
        Submission {
            cmd_type: CL_COMMAND_READ_IMAGE,
            blocking: block,
            work: Work::ReadImage {
                image: i.handle(),
                ptr,
                origin: origin.unwrap(),
                region: region.unwrap(),
                row_pitch: p.row,
                slice_pitch: p.slice,
            },
        },
    )
}

/// What a write of host memory to a box of an image comes to; the rules
/// and their order are those of a read, but that the host may write the
/// image. The command
/// is reported as a rectangular write.
pub open spec fn write_image_checked(
    q_context: usize,
    i: MemState,
    blocking_write: u32,
    origin: Option<CLVec>,
    region: Option<CLVec>,
    row_pitch: usize,
    slice_pitch: usize,
    ptr: usize,
) -> Result<Submission, ClError> {
    if i.image is None {
        Err(ClError::InvalidMemObject)
    } else if spec_cl_bool(blocking_write) is None {
        Err(ClError::InvalidValue)
    } else if origin is None || region is None || ptr == 0 {
        Err(ClError::InvalidValue)
    } else if i.context != q_context {
        Err(ClError::InvalidContext)
    } else if host_write_denied(i.flags) {
        Err(ClError::InvalidOperation)
    } else if transfer_blocked(i.image->0) {
        Err(ClError::InvalidOperation)
    } else {
        match image_host_box(i.image->0, origin, region, row_pitch, slice_pitch, ptr) {
            None => Err(ClError::InvalidValue),
            Some(p) => Ok(
                Submission {
                    cmd_type: CL_COMMAND_WRITE_BUFFER_RECT,
                    blocking: spec_cl_bool(blocking_write)->0,
                    work: Work::WriteImage {
                        image: i.handle,
                        ptr,
                        origin: origin->0,
                        region: region->0,
                        row_pitch: p.row,
                        slice_pitch: p.slice,
                    },
                },
            ),
        }
    }
}

/// Accepts a write of the host memory at `ptr` to a box of an image.
pub fn enqueue_write_image(
    q: &Queue,
    i: &MemObject,
    blocking_write: u32,
    origin: Option<CLVec>,
    region: Option<CLVec>,
    row_pitch: usize,
    slice_pitch: usize,
    ptr: usize,
) -> (r: CLResult<Submission>)
    requires
        i.wf(),
    ensures
        r == write_image_checked(
            q.context,
            i@,
            blocking_write,
            origin,
            region,
            row_pitch,
            slice_pitch,
            ptr,
        ),
{
    let info: ImageInfo = match i.image() {
        Some(info) => info,
        None => {
            return Err(ClError::InvalidMemObject);
        },
    };
    let block: bool = match check_cl_bool(blocking_write) {
        Some(v) => v,
        None => {
            return Err(ClError::InvalidValue);
        },
    };
    if origin.is_none() || region.is_none() || ptr == 0 {
        return Err(ClError::InvalidValue);
    }
    if i.context() != q.context {
        return Err(ClError::InvalidContext);
    }
    if bit_check(i.flags(), CL_MEM_HOST_READ_ONLY | CL_MEM_HOST_NO_ACCESS) {
        return Err(ClError::InvalidOperation);
    }
    if is_transfer_blocked(&info) {
        return Err(ClError::InvalidOperation);
    }
    let p: Pitches = match resolve_image_host_box(
        &info,
        origin,
        region,
        row_pitch,
        slice_pitch,
        ptr,
    ) {
        Some(p) => p,
        None => {
            return Err(ClError::InvalidValue);
        },
    };
    Ok(
        Submission {
            cmd_type: CL_COMMAND_WRITE_BUFFER_RECT,
            blocking: block,
            work: Work::WriteImage {
                image: i.handle(),
                ptr,
                origin: origin.unwrap(),
                region: region.unwrap(),
                row_pitch: p.row,
                slice_pitch: p.slice,
            },
        },
    )
}

/// What a copy of a box between two images comes to. In this order: both
/// objects are images; the origins and the region are given; the images
/// and the queue belong to one context; the images have the same format;
/// both can be transferred; and the box lies within the source at its
/// origin there and within the destination at its origin there.
pub open spec fn copy_image_checked(
    q_context: usize,
    src: MemState,
    dst: MemState,
    src_origin: Option<CLVec>,
    dst_origin: Option<CLVec>,
    region: Option<CLVec>,
) -> Result<Submission, ClError> {
    if src.image is None || dst.image is None {
        Err(ClError::InvalidMemObject)
    } else if src_origin is None || dst_origin is None || region is None {
        Err(ClError::InvalidValue)
    } else if src.context != q_context || dst.context != q_context {
        Err(ClError::InvalidContext)
    } else if src.image->0.format != dst.image->0.format {
        Err(ClError::ImageFormatMismatch)
    } else if transfer_blocked(src.image->0) || transfer_blocked(dst.image->0) {
        Err(ClError::InvalidOperation)
    } else if !src.image->0.desc.bounds_ok(src_origin->0, region->0) {
        Err(ClError::InvalidValue)
    } else if !dst.image->0.desc.bounds_ok(dst_origin->0, region->0) {
        Err(ClError::InvalidValue)
    } else {
        Ok(
            Submission {
                cmd_type: CL_COMMAND_COPY_IMAGE,
                blocking: false,
                work: Work::CopyImage {
                    src: src.handle,
                    dst: dst.handle,
                    src_origin: src_origin->0,
                    dst_origin: dst_origin->0,
                    region: region->0,
                },
            },
        )
    }
}

/// Accepts a copy of a box of one image to a box of another.
pub fn enqueue_copy_image(
    q: &Queue,
    src_image: &MemObject,
    dst_image: &MemObject,
    src_origin: Option<CLVec>,
    dst_origin: Option<CLVec>,
    region: Option<CLVec>,
) -> (r: CLResult<Submission>)
    requires
        src_image.wf(),
        dst_image.wf(),
    ensures
        r == copy_image_checked(q.context, src_image@, dst_image@, src_origin, dst_origin, region),
{
    let (src, dst): (ImageInfo, ImageInfo) = match (src_image.image(), dst_image.image()) {
        (Some(s), Some(d)) => (s, d),
        _ => {
            return Err(ClError::InvalidMemObject);
        },
    };
    let (so, d_o, r): (CLVec, CLVec, CLVec) = match (src_origin, dst_origin, region) {
        (Some(s), Some(d), Some(r)) => (s, d, r),
        _ => {
            return Err(ClError::InvalidValue);
        },
    };
    if src_image.context() != q.context || dst_image.context() != q.context {
        return Err(ClError::InvalidContext);
    }
    if src.format.image_channel_order != dst.format.image_channel_order
        || src.format.image_channel_data_type != dst.format.image_channel_data_type {
        return Err(ClError::ImageFormatMismatch);
    }
    if is_transfer_blocked(&src) || is_transfer_blocked(&dst) {
        return Err(ClError::InvalidOperation);
    }
    if !src.desc.check_bounds(&so, &r) {
        return Err(ClError::InvalidValue);
    }
    if !dst.desc.check_bounds(&d_o, &r) {
        return Err(ClError::InvalidValue);
    }
    Ok(
        Submission {
            cmd_type: CL_COMMAND_COPY_IMAGE,
            blocking: false,
            work: Work::CopyImage {
                src: src_image.handle(),
                dst: dst_image.handle(),
                src_origin: so,
                dst_origin: d_o,
                region: r,
            },
        },
    )
}

/// The colour that an image is filled with: of a depth image the first
/// component alone counts, the others are zero.
pub open spec fn fill_color_of(info: ImageInfo, color: [u32; 4]) -> (u32, u32, u32, u32) {
    if info.format.image_channel_order == CL_DEPTH {
        (color[0], 0u32, 0u32, 0u32)
    } else {
        (color[0], color[1], color[2], color[3])
    }
}

/// What a fill of a box of an image with a colour comes to. In this order:
/// the object is an image; the colour, the origin and the region are
/// given; image and queue belong to one context; the image can be
/// transferred; and the box lies within the image. The command is reported as a buffer
/// fill.
pub open spec fn fill_image_checked(
    q_context: usize,
    i: MemState,
    fill_color: Option<[u32; 4]>,
    origin: Option<CLVec>,
    region: Option<CLVec>,
) -> Result<Submission, ClError> {
    if i.image is None {
        Err(ClError::InvalidMemObject)
    } else if fill_color is None || origin is None || region is None {
        Err(ClError::InvalidValue)
    } else if i.context != q_context {
        Err(ClError::InvalidContext)
    } else if transfer_blocked(i.image->0) {
        Err(ClError::InvalidOperation)
    } else if !i.image->0.desc.bounds_ok(origin->0, region->0) {
        Err(ClError::InvalidValue)
    } else {
        Ok(
            Submission {
                cmd_type: CL_COMMAND_FILL_BUFFER,
                blocking: false,
                work: Work::FillImage {
                    image: i.handle,
                    fill_color: fill_color_of(i.image->0, fill_color->0),
                    origin: origin->0,
                    region: region->0,
                },
            },
        )
    }
}

/// Accepts a fill of a box of an image with a colour.
pub fn enqueue_fill_image(
    q: &Queue,
    i: &MemObject,
    fill_color: Option<[u32; 4]>,
    origin: Option<CLVec>,
    region: Option<CLVec>,
) -> (r: CLResult<Submission>)
    requires
        i.wf(),
    ensures
        r == fill_image_checked(q.context, i@, fill_color, origin, region),
{
    let info: ImageInfo = match i.image() {
        Some(info) => info,
        None => {
            return Err(ClError::InvalidMemObject);
        },
    };
    let (c, o, r): ([u32; 4], CLVec, CLVec) = match (fill_color, origin, region) {
        (Some(c), Some(o), Some(r)) => (c, o, r),
        _ => {
            return Err(ClError::InvalidValue);
        },
    };
    if i.context() != q.context {
        return Err(ClError::InvalidContext);
    }
    if is_transfer_blocked(&info) {
        return Err(ClError::InvalidOperation);
    }
    if !info.desc.check_bounds(&o, &r) {
        return Err(ClError::InvalidValue);
    }
    let color: (u32, u32, u32, u32) = if info.format.image_channel_order == CL_DEPTH {
        (c[0], 0, 0, 0)
    } else {
        (c[0], c[1], c[2], c[3])
    };
    Ok(
        Submission {
            cmd_type: CL_COMMAND_FILL_BUFFER,
            blocking: false,
            work: Work::FillImage { image: i.handle(), fill_color: color, origin: o, region: r },
        },
    )
}

/// What a copy from a buffer to a box of an image comes to. In this order:
/// the source is a buffer and the destination an image; the origin and the
/// region are given; the objects and the queue belong to one context; the
/// image can be transferred; and the box lies within the image.
pub open spec fn copy_buffer_to_image_checked(
    q_context: usize,
    src: MemState,
    dst: MemState,
    src_offset: usize,
    dst_origin: Option<CLVec>,
    region: Option<CLVec>,
) -> Result<Submission, ClError> {
    if src.mem_type != CL_MEM_OBJECT_BUFFER || dst.image is None {
        Err(ClError::InvalidMemObject)
    } else if dst_origin is None || region is None {
        Err(ClError::InvalidValue)
    } else if q_context != src.context || q_context != dst.context {
        Err(ClError::InvalidContext)
    } else if transfer_blocked(dst.image->0) {
        Err(ClError::InvalidOperation)
    } else if !dst.image->0.desc.bounds_ok(dst_origin->0, region->0) {
        Err(ClError::InvalidValue)
    } else {
        Ok(
            Submission {
                cmd_type: CL_COMMAND_COPY_BUFFER_TO_IMAGE,
                blocking: false,
                work: Work::CopyBufferToImage {
                    src: src.handle,
                    dst: dst.handle,
                    src_offset,
                    dst_origin: dst_origin->0,
                    region: region->0,
                },
            },
        )
    }
}

/// Accepts a copy from `src_offset` of a buffer to a box of an image.
pub fn enqueue_copy_buffer_to_image(
    q: &Queue,
    src: &MemObject,
    dst: &MemObject,
    src_offset: usize,
    dst_origin: Option<CLVec>,
    region: Option<CLVec>,
) -> (r: CLResult<Submission>)
    requires
        dst.wf(),
    ensures
        r == copy_buffer_to_image_checked(q.context, src@, dst@, src_offset, dst_origin, region),
{
    if !src.is_buffer() {
        return Err(ClError::InvalidMemObject);
    }
    let info: ImageInfo = match dst.image() {
        Some(info) => info,
        None => {
            return Err(ClError::InvalidMemObject);
        },
    };
    let (o, r): (CLVec, CLVec) = match (dst_origin, region) {
        (Some(o), Some(r)) => (o, r),
        _ => {
            return Err(ClError::InvalidValue);
        },
    };
    if q.context != src.context() || q.context != dst.context() {
        return Err(ClError::InvalidContext);
    }
    if is_transfer_blocked(&info) {
        return Err(ClError::InvalidOperation);
    }
    if !info.desc.check_bounds(&o, &r) {
        return Err(ClError::InvalidValue);
    }
    Ok(
        Submission {
            cmd_type: CL_COMMAND_COPY_BUFFER_TO_IMAGE,
            blocking: false,
            work: Work::CopyBufferToImage {
                src: src.handle(),
                dst: dst.handle(),
                src_offset,
                dst_origin: o,
                region: r,
            },
        },
    )
}

/// What a copy from a box of an image to a buffer comes to; the rules are
/// those of the copy the other way round.
pub open spec fn copy_image_to_buffer_checked(
    q_context: usize,
    src: MemState,
    dst: MemState,
    src_origin: Option<CLVec>,
    region: Option<CLVec>,
    dst_offset: usize,
) -> Result<Submission, ClError> {
    if src.image is None || dst.mem_type != CL_MEM_OBJECT_BUFFER {
        Err(ClError::InvalidMemObject)
    } else if src_origin is None || region is None {
        Err(ClError::InvalidValue)
    } else if q_context != src.context || q_context != dst.context {
        Err(ClError::InvalidContext)
    } else if transfer_blocked(src.image->0) {
        Err(ClError::InvalidOperation)
    } else if !src.image->0.desc.bounds_ok(src_origin->0, region->0) {
        Err(ClError::InvalidValue)
    } else {
        Ok(
            Submission {
                cmd_type: CL_COMMAND_COPY_IMAGE_TO_BUFFER,
                blocking: false,
                work: Work::CopyImageToBuffer {
                    src: src.handle,
                    dst: dst.handle,
                    src_origin: src_origin->0,
                    dst_offset,
                    region: region->0,
                },
            },
        )
    }
}

/// Accepts a copy from a box of an image to `dst_offset` of a buffer.
pub fn enqueue_copy_image_to_buffer(
    q: &Queue,
    src: &MemObject,
    dst: &MemObject,
    src_origin: Option<CLVec>,
    region: Option<CLVec>,
    dst_offset: usize,
) -> (r: CLResult<Submission>)
    requires
        src.wf(),
    ensures
        r == copy_image_to_buffer_checked(q.context, src@, dst@, src_origin, region, dst_offset),
{
    let info: ImageInfo = match src.image() {
        Some(info) => info,
        None => {
            return Err(ClError::InvalidMemObject);
        },
    };
    if !dst.is_buffer() {
        return Err(ClError::InvalidMemObject);
    }
    let (o, r): (CLVec, CLVec) = match (src_origin, region) {
        (Some(o), Some(r)) => (o, r),
        _ => {
            return Err(ClError::InvalidValue);
        },
    };
    if q.context != src.context() || q.context != dst.context() {
        return Err(ClError::InvalidContext);
    }
    if is_transfer_blocked(&info) {
        return Err(ClError::InvalidOperation);
    }
    if !info.desc.check_bounds(&o, &r) {
        return Err(ClError::InvalidValue);
    }
    Ok(
        Submission {
            cmd_type: CL_COMMAND_COPY_IMAGE_TO_BUFFER,
            blocking: false,
            work: Work::CopyImageToBuffer {
                src: src.handle(),
                dst: dst.handle(),
                src_origin: o,
                dst_offset,
                region: r,
            },
        },
    )
}

} // verus!

//! Creating images, and the bounds of a box of pixels within one.

use vstd::prelude::*;
use crate::buffer::{kept_host_ptr, pairs_or_empty};
use crate::context::{Context, ContextState};
use crate::desc::{
    checked_image_desc, desc_eq_no_buffer, image_type_valid, spec_image_type_valid,
    validate_image_desc, ImageDesc, CL_MEM_OBJECT_BUFFER,
    CL_MEM_OBJECT_IMAGE1D_BUFFER, CL_MEM_OBJECT_IMAGE2D, CL_MEM_OBJECT_IMAGE3D,
};
use crate::device::{
    any_device_has, any_device_supports, any_has, any_supports, entry_accepts,
    entry_accepts_exec, Device, Feature, FormatSupport,
};
use crate::error::{CLResult, ClError};
use crate::flags::{
    bit_check, filter_image_access_flags, flags_conflict, has_bit, host_ptr_matches,
    inherit_mem_flags, inherited_flags, mem_flags_valid, validate_host_ptr,
    validate_matching_buffer_flags, validate_mem_flags, ACCESS_MASK, CL_MEM_READ_WRITE,
    CL_MEM_USE_HOST_PTR,
};
use crate::format::{
    image_format_valid, spec_pixel_size, validate_image_format, ImageFormat, CL_BGRA, CL_DEPTH,
    CL_R, CL_RGB, CL_RGBA, CL_RGBX, CL_SBGRA, CL_SRGB, CL_SRGBA, CL_SRGBX,
};
use crate::mem::{image_state, opt_state, ImageInfo, MemObject, MemState};
use crate::properties::{parse, Properties};
use crate::util::{opt_seq, opt_val, CLVec};

verus! {
/// An image in the first channel order can be made from an image in the
/// second: the orders are the same, or one is the sRGB form of the other,
/// or a depth image is made from a single red channel.
pub open spec fn compatible_orders(requested: u32, parent: u32) -> bool {
    ||| requested == parent
    ||| requested == CL_SBGRA && parent == CL_BGRA
    ||| requested == CL_BGRA && parent == CL_SBGRA
    ||| requested == CL_SRGBA && parent == CL_RGBA
    ||| requested == CL_RGBA && parent == CL_SRGBA
    ||| requested == CL_SRGB && parent == CL_RGB
    ||| requested == CL_RGB && parent == CL_SRGB
    ||| requested == CL_SRGBX && parent == CL_RGBX
    ||| requested == CL_RGBX && parent == CL_SRGBX
    ||| requested == CL_DEPTH && parent == CL_R
}

fn orders_compatible(requested: u32, parent: u32) -> (r: bool)
    ensures
        r == compatible_orders(requested, parent),
{
    requested == parent || requested == CL_SBGRA && parent == CL_BGRA || requested == CL_BGRA
        && parent == CL_SBGRA || requested == CL_SRGBA && parent == CL_RGBA || requested
        == CL_RGBA && parent == CL_SRGBA || requested == CL_SRGB && parent == CL_RGB || requested
        == CL_RGB && parent == CL_SRGB || requested == CL_SRGBX && parent == CL_RGBX || requested
        == CL_RGBX && parent == CL_SRGBX || requested == CL_DEPTH && parent == CL_R
}

/// What the first device from index `from` on that cannot take the host
/// memory of a buffer as that of a 2D image fails with: a device without a
/// base address alignment makes the operation invalid, one whose alignment
/// the host pointer does not meet makes the descriptor invalid.
pub open spec fn base_alignment_error(devs: Seq<Device>, host_ptr: usize, from: int) -> Option<
    ClError,
>
    decreases devs.len() - from,
{
    if from < 0 || from >= devs.len() {
        None
    } else if devs[from].image_base_address_alignment == 0 {
        Some(ClError::InvalidOperation)
    } else if host_ptr as int % devs[from].image_base_address_alignment as int != 0 {
        Some(ClError::InvalidImageDescriptor)
    } else {
        base_alignment_error(devs, host_ptr, from + 1)
    }
}

fn check_base_alignment(devs: &Vec<Device>, host_ptr: usize) -> (r: CLResult<()>)
    ensures
        match r {
            Ok(_) => base_alignment_error(devs@, host_ptr, 0) is None,
            Err(e) => base_alignment_error(devs@, host_ptr, 0) == Some(e),
        },
{
    let mut i: usize = 0;
    while i < devs.len()
        invariant
            i <= devs@.len(),
            base_alignment_error(devs@, host_ptr, 0) == base_alignment_error(
                devs@,
                host_ptr,
                i as int,
            ),
        decreases devs@.len() - i,
    {
        let addr_alignment: u64 = devs[i].image_base_address_alignment;
        if addr_alignment == 0 {
            return Err(ClError::InvalidOperation);
        } else if host_ptr as u64 % addr_alignment != 0 {
            return Err(ClError::InvalidImageDescriptor);
        }
        i = i + 1;
    }
    Ok(())
}

/// Why an image of this descriptor and format cannot be made from the
/// parent; none where it can.
///
/// From a buffer a 1D buffer image can be made, if its row fits the
/// buffer, and a 2D image, if its rows fit the buffer and every device can
/// take the buffer's host memory. From a 2D image a 2D image of the same
/// descriptor and data type and of a compatible channel order can be made.
pub open spec fn parent_error(
    desc: ImageDesc,
    format: ImageFormat,
    host_ptr: usize,
    elem_size: usize,
    parent: MemState,
    devs: Seq<Device>,
) -> Option<ClError> {
    if parent.mem_type == CL_MEM_OBJECT_BUFFER {
        if desc.image_type == CL_MEM_OBJECT_IMAGE1D_BUFFER {
            if desc.image_width * elem_size > parent.size {
                Some(ClError::InvalidImageDescriptor)
            } else {
                None
            }
        } else if desc.image_type == CL_MEM_OBJECT_IMAGE2D {
            if desc.image_row_pitch * desc.image_height > parent.size {
                Some(ClError::InvalidImageDescriptor)
            } else if has_bit(parent.flags, CL_MEM_USE_HOST_PTR) {
                base_alignment_error(devs, host_ptr, 0)
            } else {
                None
            }
        } else {
            Some(ClError::InvalidImageDescriptor)
        }
    } else if parent.mem_type == CL_MEM_OBJECT_IMAGE2D && parent.image is Some {
        let info = parent.image->0;
        if desc.image_type != CL_MEM_OBJECT_IMAGE2D || desc != info.desc {
            Some(ClError::InvalidImageDescriptor)
        } else if format.image_channel_data_type != info.format.image_channel_data_type {
            Some(ClError::InvalidImageFormatDescriptor)
        } else if !compatible_orders(format.image_channel_order, info.format.image_channel_order) {
            Some(ClError::InvalidImageFormatDescriptor)
        } else {
            None
        }
    } else {
        Some(ClError::InvalidImageDescriptor)
    }
}

/// The flags of an image once its parent has been taken into account: with
/// a parent that the image can be made from and whose flags the request
/// does not contradict, the request completed from the parent's flags;
/// without a parent the request itself, unless the image is a 1D buffer
/// image, which needs a parent.
pub open spec fn checked_parent_flags(
    desc: ImageDesc,
    flags: u64,
    format: ImageFormat,
    host_ptr: usize,
    elem_size: usize,
    parent: Option<MemState>,
    devs: Seq<Device>,
) -> Result<u64, ClError> {
    match parent {
        Some(p) => {
            if parent_error(desc, format, host_ptr, elem_size, p, devs) is Some {
                Err(parent_error(desc, format, host_ptr, elem_size, p, devs)->0)
            } else if flags_conflict(p.flags, flags) {
                Err(ClError::InvalidValue)
            } else {
                Ok(inherited_flags(flags, p.flags))
            }
        },
        None => {
            if desc.image_type == CL_MEM_OBJECT_IMAGE1D_BUFFER {
                Err(ClError::InvalidImageDescriptor)
            } else {
                Ok(flags)
            }
        },
    }
}

fn product_exceeds(a: usize, b: usize, limit: usize) -> (r: bool)
    ensures
        r == (a * b > limit),
{
    match a.checked_mul(b) {
        Some(p) => p > limit,
        None => true,
    }
}

/// Checks an image descriptor and format against the object that the image
/// is to be made from, and completes the flags from that object's.
pub fn validate_buffer(
    desc: &ImageDesc,
    flags: u64,
    format: &ImageFormat,
    host_ptr: usize,
    elem_size: usize,
    parent: Option<&MemObject>,
    devs: &Vec<Device>,
) -> (r: CLResult<u64>)
    requires
        parent matches Some(p) ==> p.wf(),
    ensures
        r == checked_parent_flags(
            *desc,
            flags,
            *format,
            host_ptr,
            elem_size,
            opt_state(parent),
            devs@,
        ),
{
    match parent {
        Some(mem) => {
            if mem.mem_type() == CL_MEM_OBJECT_BUFFER {
                if desc.image_type == CL_MEM_OBJECT_IMAGE1D_BUFFER {
                    if product_exceeds(desc.image_width, elem_size, mem.size()) {
                        return Err(ClError::InvalidImageDescriptor);
                    }
                } else if desc.image_type == CL_MEM_OBJECT_IMAGE2D {
                    if product_exceeds(desc.image_row_pitch, desc.image_height, mem.size()) {
                        return Err(ClError::InvalidImageDescriptor);
                    }
                    if mem.flags() & CL_MEM_USE_HOST_PTR != 0 {
                        check_base_alignment(devs, host_ptr)?;
                    }
                } else {
                    return Err(ClError::InvalidImageDescriptor);
                }
            } else if mem.mem_type() == CL_MEM_OBJECT_IMAGE2D {
                let info: ImageInfo = match mem.image() {
                    Some(i) => i,
                    None => {
                        return Err(ClError::InvalidImageDescriptor);
                    },
                };
                if desc.image_type != mem.mem_type() || !desc_eq_no_buffer(desc, &info.desc) {
                    return Err(ClError::InvalidImageDescriptor);
                }
                if format.image_channel_data_type != info.format.image_channel_data_type {
                    return Err(ClError::InvalidImageFormatDescriptor);
                }
                if !orders_compatible(format.image_channel_order, info.format.image_channel_order) {
                    return Err(ClError::InvalidImageFormatDescriptor);
                }
            } else {
                return Err(ClError::InvalidImageDescriptor);
            }
            validate_matching_buffer_flags(mem.flags(), flags)?;
            Ok(inherit_mem_flags(flags, mem.flags()))
        },
        None => {
            if desc.image_type == CL_MEM_OBJECT_IMAGE1D_BUFFER {
                return Err(ClError::InvalidImageDescriptor);
            }
            Ok(flags)
        },
    }
}

/// The number of pixels of an image: the product of the dimensions that
/// its type has.
pub open spec fn image_pixels(desc: ImageDesc) -> int {
    desc.image_width * (if desc.spec_dims() >= 2 {
        desc.image_height as int
    } else {
        1
    }) * (if desc.spec_dims() >= 3 {
        desc.image_depth as int
    } else {
        1
    }) * (if desc.spec_is_array() {
        desc.image_array_size as int
    } else {
        1
    })
}

/// The flags that an image is made with: read-write where nothing at all
/// is asked of an image that is not a 1D buffer image.
pub open spec fn default_image_flags(flags: u64, image_type: u32) -> u64 {
    if flags == 0 && image_type != CL_MEM_OBJECT_IMAGE1D_BUFFER {
        CL_MEM_READ_WRITE
    } else {
        flags
    }
}

/// The image that a request makes, or the first rule that the request
/// breaks.
///
/// In this order: some device supports images; the format is valid; the
/// descriptor is valid for the devices and the parent; a host pointer is
/// given exactly when the flags ask for one; the image can be made from
/// the parent; the flags, completed from the parent's and defaulted, are
/// valid; some device supports the format for the type with the kernel
/// access asked for; no property is given; the image, of one element per
/// pixel, and the memory it uses end within the address space; and the
/// context has a handle left.
pub open spec fn created_image(
    ctx: ContextState,
    properties: Option<Seq<u64>>,
    flags: u64,
    image_format: Option<ImageFormat>,
    image_desc: Option<ImageDesc>,
    parent: Option<MemState>,
    host_ptr: usize,
) -> Result<MemState, ClError> {
    if !any_has(ctx.devs, Feature::Images) {
        Err(ClError::InvalidOperation)
    } else if image_format is None || !image_format_valid(image_format->0) {
        Err(ClError::InvalidImageFormatDescriptor)
    } else {
        let format = image_format->0;
        let elem = spec_pixel_size(format)->0;
        let parent_type = match parent {
            Some(p) => Some(p.mem_type),
            None => None,
        };
        match checked_image_desc(image_desc, parent_type, host_ptr, elem as usize, ctx.devs) {
            Err(e) => Err(e),
            Ok(desc) => {
                if !host_ptr_matches(host_ptr, flags) {
                    Err(ClError::InvalidHostPtr)
                } else {
                    match checked_parent_flags(
                        desc,
                        flags,
                        format,
                        host_ptr,
                        elem as usize,
                        parent,
                        ctx.devs,
                    ) {
                        Err(e) => Err(e),
                        Ok(inherited) => {
                            let f = default_image_flags(inherited, desc.image_type);
                            let size = image_pixels(desc) * elem;
                            if !mem_flags_valid(f, false) {
                                Err(ClError::InvalidValue)
                            } else if !any_supports(
                                ctx.devs,
                                format,
                                desc.image_type,
                                f & ACCESS_MASK,
                            ) {
                                Err(ClError::ImageFormatNotSupported)
                            } else if properties is Some && parse(properties->0) is None {
                                Err(ClError::InvalidProperty)
                            } else if pairs_or_empty(properties).len() != 0 {
                                Err(ClError::InvalidProperty)
                            } else if size > usize::MAX {
                                Err(ClError::MemObjectAllocationFailure)
                            } else if parent is Some && (parent->0.offset + size > usize::MAX || (
                            parent->0.host_ptr != 0 && parent->0.host_ptr + size > usize::MAX)) {
                                Err(ClError::MemObjectAllocationFailure)
                            } else if parent is None && kept_host_ptr(flags, host_ptr) != 0
                                && host_ptr + size > usize::MAX {
                                Err(ClError::InvalidHostPtr)
                            } else if ctx.next_handle == usize::MAX {
                                Err(ClError::OutOfHostMemory)
                            } else {
                                Ok(
                                    image_state(
                                        ctx.next_handle,
                                        ctx.id,
                                        parent,
                                        f,
                                        ImageInfo { format, desc, elem_size: elem },
                                        size as usize,
                                        kept_host_ptr(flags, host_ptr),
                                        Seq::empty(),
                                        properties is Some,
                                    ),
                                )
                            }
                        },
                    }
                }
            },
        }
    }
}

/// The size in bytes of an image of one element per pixel; none where it
/// does not fit the address space.
fn image_bytes(desc: &ImageDesc, elem_size: u8) -> (r: Option<usize>)
    requires
        crate::desc::spec_image_type_valid(desc.image_type),
    ensures
        match r {
            Some(n) => n == image_pixels(*desc) * elem_size,
            None => image_pixels(*desc) * elem_size > usize::MAX,
        },
{
    let (dims, array): (u8, bool) = desc.type_info();
    let h: usize = if dims >= 2 {
        desc.image_height
    } else {
        1
    };
    let d: usize = if dims >= 3 {
        desc.image_depth
    } else {
        1
    };
    let a: usize = if array {
        desc.image_array_size
    } else {
        1
    };
    let e: usize = elem_size as usize;
    let w: usize = desc.image_width;
    proof {
        lemma_product_monotone(w as int, h as int, d as int, a as int, e as int);
    }
    let wh: usize = match w.checked_mul(h) {
        Some(v) => v,
        None => {
            return if d == 0 || a == 0 || e == 0 {
                Some(0)
            } else {
                None
            };
        },
    };
    let whd: usize = match wh.checked_mul(d) {
        Some(v) => v,
        None => {
            return if a == 0 || e == 0 {
                Some(0)
            } else {
                None
            };
        },
    };
    let whda: usize = match whd.checked_mul(a) {
        Some(v) => v,
        None => {
            return if e == 0 {
                Some(0)
            } else {
                None
            };
        },
    };
    whda.checked_mul(e)
}

proof fn lemma_product_monotone(w: int, h: int, d: int, a: int, e: int)
    requires
        w >= 0,
        h >= 0,
        d >= 0,
        a >= 0,
        e >= 0,
    ensures
        w * h >= 0,
        w * h * d >= 0,
        w * h * d * a >= 0,
        d >= 1 ==> w * h * d >= w * h,
        a >= 1 ==> w * h * d * a >= w * h * d,
        e >= 1 ==> w * h * d * a * e >= w * h * d * a,
        d == 0 ==> w * h * d * a * e == 0,
        a == 0 ==> w * h * d * a * e == 0,
        e == 0 ==> w * h * d * a * e == 0,
{
    let x = w * h;
    assert(x * d >= 0 && (d >= 1 ==> x * d >= x) && (d == 0 ==> x * d == 0)) by (nonlinear_arith)
        requires
            x >= 0,
            d >= 0,
    ;
    let y = x * d;
    assert(y * a >= 0 && (a >= 1 ==> y * a >= y) && (a == 0 ==> y * a == 0) && (y == 0 ==> y * a
        == 0)) by (nonlinear_arith)
        requires
            y >= 0,
            a >= 0,
    ;
    let z = y * a;
    assert(z * e >= 0 && (e >= 1 ==> z * e >= z) && (e == 0 ==> z * e == 0) && (z == 0 ==> z * e
        == 0)) by (nonlinear_arith)
        requires
            z >= 0,
            e >= 0,
    ;
}

/// The context after it has given out its next handle.
pub open spec fn after_handle(ctx: ContextState) -> ContextState {
    ContextState { next_handle: (ctx.next_handle + 1) as usize, ..ctx }
}

/// Makes an image in the context, with its own memory or from a parent.
pub fn create_image_with_properties(
    c: &mut Context,
    properties: Option<&[u64]>,
    flags: u64,
    image_format: Option<&ImageFormat>,
    image_desc: Option<ImageDesc>,
    parent: Option<&MemObject>,
    host_ptr: usize,
) -> (r: CLResult<MemObject>)
    requires
        old(c).wf(),
        parent matches Some(p) ==> p.wf(),
    ensures
        final(c).wf(),
        match r {
            Ok(m) => m.wf() && Ok::<MemState, ClError>(m@) == created_image(
                old(c)@,
                opt_seq(properties),
                flags,
                opt_val(image_format),
                image_desc,
                opt_state(parent),
                host_ptr,
            ) && final(c)@ == after_handle(old(c)@),
            Err(e) => Err::<MemState, ClError>(e) == created_image(
                old(c)@,
                opt_seq(properties),
                flags,
                opt_val(image_format),
                image_desc,
                opt_state(parent),
                host_ptr,
            ) && final(c)@ == old(c)@,
        },
{
    if !any_device_has(c.devs(), Feature::Images) {
        return Err(ClError::InvalidOperation);
    }
    let (format, elem_size): (ImageFormat, u8) = validate_image_format(image_format)?;
    let parent_type: Option<u32> = match parent {
        Some(p) => Some(p.mem_type()),
        None => None,
    };
    let desc: ImageDesc = validate_image_desc(
        image_desc,
        parent_type,
        host_ptr,
        elem_size as usize,
        c.devs(),
    )?;

    validate_host_ptr(host_ptr, flags)?;

    let inherited: u64 = validate_buffer(
        &desc,
        flags,
        &format,
        host_ptr,
        elem_size as usize,
        parent,
        c.devs(),
    )?;
    let f: u64 = if inherited == 0 && desc.image_type != CL_MEM_OBJECT_IMAGE1D_BUFFER {
        CL_MEM_READ_WRITE
    } else {
        inherited
    };
    validate_mem_flags(f, false)?;

    let filtered_flags: u64 = filter_image_access_flags(f);
    if !any_device_supports(c.devs(), &format, desc.image_type, filtered_flags) {
        return Err(ClError::ImageFormatNotSupported);
    }
    let props: Properties = match Properties::new(properties) {
        Some(p) => p,
        None => {
            return Err(ClError::InvalidProperty);
        },
    };
    if !props.is_empty() {
        return Err(ClError::InvalidProperty);
    }
    let size: usize = match image_bytes(&desc, elem_size) {
        Some(s) => s,
        None => {
            return Err(ClError::MemObjectAllocationFailure);
        },
    };
    let kept: usize = if bit_check(flags, CL_MEM_USE_HOST_PTR) {
        host_ptr
    } else {
        0
    };
    match parent {
        Some(p) => {
            if size > usize::MAX - p.offset() || (p.host_ptr() != 0 && size > usize::MAX
                - p.host_ptr()) {
                return Err(ClError::MemObjectAllocationFailure);
            }
        },
        None => {
            if kept != 0 && size > usize::MAX - host_ptr {
                return Err(ClError::InvalidHostPtr);
            }
        },
    }
    let handle: usize = match c.fresh_handle() {
        Some(h) => h,
        None => {
            return Err(ClError::OutOfHostMemory);
        },
    };
    let info: ImageInfo = ImageInfo { format, desc, elem_size };
    proof {
        assert(props@ =~= Seq::<(u64, u64)>::empty());
    }
    Ok(MemObject::new_image(handle, c.id(), parent, f, info, size, kept, props))
}

/// Makes an image without properties.
pub fn create_image(
    c: &mut Context,
    flags: u64,
    image_format: Option<&ImageFormat>,
    image_desc: Option<ImageDesc>,
    parent: Option<&MemObject>,
    host_ptr: usize,
) -> (r: CLResult<MemObject>)
    requires
        old(c).wf(),
        parent matches Some(p) ==> p.wf(),
    ensures
        final(c).wf(),
        match r {
            Ok(m) => m.wf() && Ok::<MemState, ClError>(m@) == created_image(
                old(c)@,
                None,
                flags,
                opt_val(image_format),
                image_desc,
                opt_state(parent),
                host_ptr,
            ) && final(c)@ == after_handle(old(c)@),
            Err(e) => Err::<MemState, ClError>(e) == created_image(
                old(c)@,
                None,
                flags,
                opt_val(image_format),
                image_desc,
                opt_state(parent),
                host_ptr,
            ) && final(c)@ == old(c)@,
        },
{
    create_image_with_properties(c, None, flags, image_format, image_desc, parent, host_ptr)
}

/// The descriptor of a 2D image of the given width, height and row pitch.
pub open spec fn desc_2d(image_width: usize, image_height: usize, image_row_pitch: usize) -> ImageDesc {
    ImageDesc {
        image_type: CL_MEM_OBJECT_IMAGE2D,
        image_width,
        image_height,
        image_depth: 0,
        image_array_size: 0,
        image_row_pitch,
        image_slice_pitch: 0,
        num_mip_levels: 0,
        num_samples: 0,
    }
}

/// The descriptor of a 3D image of the given dimensions and pitches.
pub open spec fn desc_3d(
    image_width: usize,
    image_height: usize,
    image_depth: usize,
    image_row_pitch: usize,
    image_slice_pitch: usize,
) -> ImageDesc {
    ImageDesc {
        image_type: CL_MEM_OBJECT_IMAGE3D,
        image_width,
        image_height,
        image_depth,
        image_array_size: 0,
        image_row_pitch,
        image_slice_pitch,
        num_mip_levels: 0,
        num_samples: 0,
    }
}

/// Makes a 2D image with its own memory.
pub fn create_image_2d(
    c: &mut Context,
    flags: u64,
    image_format: Option<&ImageFormat>,
    image_width: usize,
    image_height: usize,
    image_row_pitch: usize,
    host_ptr: usize,
) -> (r: CLResult<MemObject>)
    requires
        old(c).wf(),
    ensures
        final(c).wf(),
        match r {
            Ok(m) => m.wf() && Ok::<MemState, ClError>(m@) == created_image(
                old(c)@,
                None,
                flags,
                opt_val(image_format),
                Some(desc_2d(image_width, image_height, image_row_pitch)),
                None,
                host_ptr,
            ) && final(c)@ == after_handle(old(c)@),
            Err(e) => Err::<MemState, ClError>(e) == created_image(
                old(c)@,
                None,
                flags,
                opt_val(image_format),
                Some(desc_2d(image_width, image_height, image_row_pitch)),
                None,
                host_ptr,
            ) && final(c)@ == old(c)@,
        },
{
    let image_desc: ImageDesc = ImageDesc {
        image_type: CL_MEM_OBJECT_IMAGE2D,
        image_width,
        image_height,
        image_depth: 0,
        image_array_size: 0,
        image_row_pitch,
        image_slice_pitch: 0,
        num_mip_levels: 0,
        num_samples: 0,
    };
    create_image(c, flags, image_format, Some(image_desc), None, host_ptr)
}

/// Makes a 3D image with its own memory.
pub fn create_image_3d(
    c: &mut Context,
    flags: u64,
    image_format: Option<&ImageFormat>,
    image_width: usize,
    image_height: usize,
    image_depth: usize,
    image_row_pitch: usize,
    image_slice_pitch: usize,
    host_ptr: usize,
) -> (r: CLResult<MemObject>)
    requires
        old(c).wf(),
    ensures
        final(c).wf(),
        match r {
            Ok(m) => m.wf() && Ok::<MemState, ClError>(m@) == created_image(
                old(c)@,
                None,
                flags,
                opt_val(image_format),
                Some(
                    desc_3d(
                        image_width,
                        image_height,
                        image_depth,
                        image_row_pitch,
                        image_slice_pitch,
                    ),
                ),
                None,
                host_ptr,
            ) && final(c)@ == after_handle(old(c)@),
            Err(e) => Err::<MemState, ClError>(e) == created_image(
                old(c)@,
                None,
                flags,
                opt_val(image_format),
                Some(
                    desc_3d(
                        image_width,
                        image_height,
                        image_depth,
                        image_row_pitch,
                        image_slice_pitch,
                    ),
                ),
                None,
                host_ptr,
            ) && final(c)@ == old(c)@,
        },
{
    let image_desc: ImageDesc = ImageDesc {
        image_type: CL_MEM_OBJECT_IMAGE3D,
        image_width,
        image_height,
        image_depth,
        image_array_size: 0,
        image_row_pitch,
        image_slice_pitch,
        num_mip_levels: 0,
        num_samples: 0,
    };
    create_image(c, flags, image_format, Some(image_desc), None, host_ptr)
}

/// Checks that a box of pixels lies within an image. An object that is no
/// image is refused as a memory object, a box that does not lie within the
/// image as a value.
pub fn validate_image_bounds(i: &MemObject, origin: CLVec, region: CLVec) -> (r: CLResult<()>)
    requires
        i.wf(),
    ensures
        r == image_bounds_checked(i@, origin, region),
{
    match i.image() {
        None => Err(ClError::InvalidMemObject),
        Some(info) => {
            if info.desc.check_bounds(&origin, &region) {
                Ok(())
            } else {
                Err(ClError::InvalidValue)
            }
        },
    }
}

/// Whether a box of pixels lies within an image.
pub open spec fn image_bounds_checked(i: MemState, origin: CLVec, region: CLVec) -> Result<
    (),
    ClError,
> {
    match i.image {
        None => Err(ClError::InvalidMemObject),
        Some(info) => if info.desc.bounds_ok(origin, region) {
            Ok(())
        } else {
            Err(ClError::InvalidValue)
        },
    }
}

/// The order of formats: by channel order first, by data type second.
pub open spec fn format_lt(a: ImageFormat, b: ImageFormat) -> bool {
    a.image_channel_order < b.image_channel_order || (a.image_channel_order
        == b.image_channel_order && a.image_channel_data_type < b.image_channel_data_type)
}

/// Every format stands before those behind it, so none occurs twice.
pub open spec fn strictly_sorted(s: Seq<ImageFormat>) -> bool {
    forall|i: int, j: int| 0 <= i < j < s.len() ==> format_lt(#[trigger] s[i], #[trigger] s[j])
}

/// The entry is listed for the image type and the kernel access: it grants
/// images of the type that access, or no access is asked for.
pub open spec fn entry_lists(entry: FormatSupport, image_type: u32, access: u64) -> bool {
    access == 0 || entry_accepts(entry, image_type, access)
}

/// The first `upto` entries of the device's format table list the format.
pub open spec fn listed_by(
    dev: Device,
    upto: int,
    image_type: u32,
    access: u64,
    f: ImageFormat,
) -> bool {
    exists|k: int|
        0 <= k < upto && k < dev.formats@.len() && (#[trigger] dev.formats@[k]).format == f
            && entry_lists(dev.formats@[k], image_type, access)
}

/// One of the first `upto` devices lists the format.
pub open spec fn listed(
    devs: Seq<Device>,
    upto: int,
    image_type: u32,
    access: u64,
    f: ImageFormat,
) -> bool {
    exists|d: int|
        0 <= d < upto && d < devs.len() && listed_by(
            #[trigger] devs[d],
            devs[d].formats@.len() as int,
            image_type,
            access,
            f,
        )
}

fn format_less(a: &ImageFormat, b: &ImageFormat) -> (r: bool)
    ensures
        r == format_lt(*a, *b),
{
    a.image_channel_order < b.image_channel_order || (a.image_channel_order
        == b.image_channel_order && a.image_channel_data_type < b.image_channel_data_type)
}

/// Puts a format into a sorted list at its place, unless it is there.
fn insert_sorted(res: &mut Vec<ImageFormat>, f: ImageFormat)
    requires
        strictly_sorted(old(res)@),
    ensures
        strictly_sorted(final(res)@),
        forall|g: ImageFormat| final(res)@.contains(g) <==> old(res)@.contains(g) || g == f,
{
    let mut p: usize = 0;
    while p < res.len() && format_less(&res[p], &f)
        invariant
            p <= res.len(),
            res@ == old(res)@,
            forall|k: int| 0 <= k < p ==> format_lt(#[trigger] res@[k], f),
        decreases res.len() - p,
    {
        p = p + 1;
    }
    let ghost before = res@;
    if p < res.len() && res[p].image_channel_order == f.image_channel_order
        && res[p].image_channel_data_type == f.image_channel_data_type {
        return ;
    }
    res.insert(p, f);
    proof {
        let after = res@;
        assert forall|g: ImageFormat| after.contains(g) <==> before.contains(g) || g == f by {
            if before.contains(g) {
                let i = choose|i: int| 0 <= i < before.len() && before[i] == g;
                if i < p {
                    assert(after[i] == g);
                } else {
                    assert(after[i + 1] == g);
                }
            }
            if g == f {
                assert(after[p as int] == g);
            }
        }
    }
}

/// Adds the formats that a device lists to a sorted list.
fn collect_formats(dev: &Device, image_type: u32, access: u64, res: &mut Vec<ImageFormat>)
    requires
        strictly_sorted(old(res)@),
    ensures
        strictly_sorted(final(res)@),
        forall|g: ImageFormat|
            final(res)@.contains(g) <==> old(res)@.contains(g) || listed_by(
                *dev,
                dev.formats@.len() as int,
                image_type,
                access,
                g,
            ),
{
    let mut k: usize = 0;
    while k < dev.formats.len()
        invariant
            k <= dev.formats.len(),
            strictly_sorted(res@),
            forall|g: ImageFormat|
                res@.contains(g) <==> old(res)@.contains(g) || listed_by(
                    *dev,
                    k as int,
                    image_type,
                    access,
                    g,
                ),
        decreases dev.formats.len() - k,
    {
        let e: &FormatSupport = &dev.formats[k];
        let lists: bool = access == 0 || entry_accepts_exec(e, image_type, access);
        if lists {
            insert_sorted(res, e.format);
        }
        k = k + 1;
    }
}

/// What a query for the supported formats gives back.
#[derive(Debug, PartialEq, Eq)]
pub struct SupportedFormats {
    /// How many formats are supported, whatever room the caller has.
    pub count: usize,
    /// The first of them, as many as the caller has room for.
    pub formats: Vec<ImageFormat>,
}

/// The formats that images of the type can have in the context with the
/// kernel access that the flags ask for: those that some device lists, in
/// order and each once. The result holds how many there are, and the first
/// `num_entries` of them where `want_formats` says that the caller has
/// room for formats.
///
/// Invalid flags, an invalid image type, and room that is offered but
/// holds no entry are refused.
pub fn get_supported_image_formats(
    c: &Context,
    flags: u64,
    image_type: u32,
    num_entries: u32,
    want_formats: bool,
) -> (r: CLResult<SupportedFormats>)
    ensures
        r is Ok <==> mem_flags_valid(flags, true) && spec_image_type_valid(image_type) && !(
        num_entries == 0 && want_formats),
        r is Err ==> r == Err::<SupportedFormats, ClError>(ClError::InvalidValue),
        r matches Ok(s) ==> exists|all: Seq<ImageFormat>|
            {
                &&& strictly_sorted(all)
                &&& forall|g: ImageFormat| #[trigger]
                    all.contains(g) <==> listed(
                        c@.devs,
                        c@.devs.len() as int,
                        image_type,
                        flags & ACCESS_MASK,
                        g,
                    )
                &&& s.count == all.len()
                &&& s.formats@ == (if want_formats && num_entries < all.len() {
                    all.take(num_entries as int)
                } else if want_formats {
                    all
                } else {
                    Seq::empty()
                })
            },
{
    validate_mem_flags(flags, true)?;
    if !image_type_valid(image_type) {
        return Err(ClError::InvalidValue);
    }
    if num_entries == 0 && want_formats {
        return Err(ClError::InvalidValue);
    }
    let mut res: Vec<ImageFormat> = Vec::new();
    let filtered_flags: u64 = filter_image_access_flags(flags);
    let devs: &Vec<Device> = c.devs();
    let mut d: usize = 0;
    while d < devs.len()
        invariant
            d <= devs.len(),
            devs@ == c@.devs,
            strictly_sorted(res@),
            forall|g: ImageFormat|
                res@.contains(g) <==> listed(devs@, d as int, image_type, filtered_flags, g),
        decreases devs.len() - d,
    {
        collect_formats(&devs[d], image_type, filtered_flags, &mut res);
        d = d + 1;
    }
    let count: usize = res.len();
    if !want_formats {
        res.truncate(0);
    } else if (num_entries as usize) < count {
        res.truncate(num_entries as usize);
    }
    Ok(SupportedFormats { count, formats: res })
}

} // verus!

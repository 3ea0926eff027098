//! Image descriptors: the type and the dimensions of an image, its pitches,
//! and the rules that a descriptor must meet before an image is made of it.

use vstd::prelude::*;
use crate::device::{
    any_device_has, any_has, max_cap, max_cap_of, min_cap, within_all, Cap,
    Device, Feature,
};
use crate::error::{CLResult, ClError};
use crate::util::CLVec;

verus! {
// The types of memory objects.
pub const CL_MEM_OBJECT_BUFFER: u32 = 0x10F0;
pub const CL_MEM_OBJECT_IMAGE2D: u32 = 0x10F1;
pub const CL_MEM_OBJECT_IMAGE3D: u32 = 0x10F2;
pub const CL_MEM_OBJECT_IMAGE2D_ARRAY: u32 = 0x10F3;
pub const CL_MEM_OBJECT_IMAGE1D: u32 = 0x10F4;
pub const CL_MEM_OBJECT_IMAGE1D_ARRAY: u32 = 0x10F5;
pub const CL_MEM_OBJECT_IMAGE1D_BUFFER: u32 = 0x10F6;

/// The type is one of the six image types.
pub open spec fn spec_image_type_valid(image_type: u32) -> bool {
    image_type == CL_MEM_OBJECT_IMAGE1D || image_type == CL_MEM_OBJECT_IMAGE1D_ARRAY || image_type
        == CL_MEM_OBJECT_IMAGE1D_BUFFER || image_type == CL_MEM_OBJECT_IMAGE2D || image_type
        == CL_MEM_OBJECT_IMAGE2D_ARRAY || image_type == CL_MEM_OBJECT_IMAGE3D
}

/// Whether the type is one of the six image types.
pub fn image_type_valid(image_type: u32) -> (r: bool)
    ensures
        r == spec_image_type_valid(image_type),
{
    image_type == CL_MEM_OBJECT_IMAGE1D || image_type == CL_MEM_OBJECT_IMAGE1D_ARRAY || image_type
        == CL_MEM_OBJECT_IMAGE1D_BUFFER || image_type == CL_MEM_OBJECT_IMAGE2D || image_type
        == CL_MEM_OBJECT_IMAGE2D_ARRAY || image_type == CL_MEM_OBJECT_IMAGE3D
}

/// The number of dimensions of one image of the type: 3 for a 3D image, 2
/// for a 2D image or an array of them, else 1.
pub open spec fn spec_dims(image_type: u32) -> int {
    if image_type == CL_MEM_OBJECT_IMAGE3D {
        3
    } else if image_type == CL_MEM_OBJECT_IMAGE2D || image_type == CL_MEM_OBJECT_IMAGE2D_ARRAY {
        2
    } else {
        1
    }
}

/// The type is an array of images.
pub open spec fn spec_is_array(image_type: u32) -> bool {
    image_type == CL_MEM_OBJECT_IMAGE1D_ARRAY || image_type == CL_MEM_OBJECT_IMAGE2D_ARRAY
}

/// The type and the dimensions of an image, and the pitches of its rows
/// and slices in bytes.
#[derive(Clone, Copy, Debug, PartialEq, Eq, Structural)]
pub struct ImageDesc {
    pub image_type: u32,
    pub image_width: usize,
    pub image_height: usize,
    pub image_depth: usize,
    pub image_array_size: usize,
    pub image_row_pitch: usize,
    pub image_slice_pitch: usize,
    pub num_mip_levels: u32,
    pub num_samples: u32,
}

/// The larger of a number and one.
pub open spec fn at_least_one(v: usize) -> usize {
    if v < 1 {
        1
    } else {
        v
    }
}

impl ImageDesc {
    /// The number of dimensions of one image.
    pub open spec fn spec_dims(&self) -> int {
        spec_dims(self.image_type)
    }

    /// Whether the descriptor is that of an array of images.
    pub open spec fn spec_is_array(&self) -> bool {
        spec_is_array(self.image_type)
    }

    /// The number of dimensions, that of the array counted.
    pub open spec fn spec_dims_with_array(&self) -> int {
        self.spec_dims() + if self.spec_is_array() {
            1int
        } else {
            0int
        }
    }

    /// The extent of the image along each axis. An axis that the type does
    /// not have is one wide; the images of an array lie along the axis
    /// behind those of one image.
    pub open spec fn spec_size(&self) -> CLVec {
        CLVec {
            x: self.image_width,
            y: if self.image_type == CL_MEM_OBJECT_IMAGE1D_ARRAY {
                self.image_array_size
            } else {
                at_least_one(self.image_height)
            },
            z: if self.image_type == CL_MEM_OBJECT_IMAGE2D_ARRAY {
                self.image_array_size
            } else {
                at_least_one(self.image_depth)
            },
        }
    }

    /// The number of dimensions of one image, and whether the descriptor is
    /// that of an array.
    pub fn type_info(&self) -> (r: (u8, bool))
        requires
            spec_image_type_valid(self.image_type),
        ensures
            r.0 == self.spec_dims(),
            r.1 == self.spec_is_array(),
    {
        let t: u32 = self.image_type;
        if t == CL_MEM_OBJECT_IMAGE1D || t == CL_MEM_OBJECT_IMAGE1D_BUFFER {
            (1, false)
        } else if t == CL_MEM_OBJECT_IMAGE1D_ARRAY {
            (1, true)
        } else if t == CL_MEM_OBJECT_IMAGE2D {
            (2, false)
        } else if t == CL_MEM_OBJECT_IMAGE2D_ARRAY {
            (2, true)
        } else {
            (3, false)
        }
    }

    /// The number of dimensions of one image.
    pub fn dims(&self) -> (r: u8)
        requires
            spec_image_type_valid(self.image_type),
        ensures
            r == self.spec_dims(),
    {
        self.type_info().0
    }

    /// Whether the descriptor is that of an array of images.
    pub fn is_array(&self) -> (r: bool)
        requires
            spec_image_type_valid(self.image_type),
        ensures
            r == self.spec_is_array(),
    {
        self.type_info().1
    }

    /// The number of dimensions, that of the array counted.
    pub fn dims_with_array(&self) -> (r: u8)
        requires
            spec_image_type_valid(self.image_type),
        ensures
            r == self.spec_dims_with_array(),
    {
        let (dims, array): (u8, bool) = self.type_info();
        if array {
            dims + 1
        } else {
            dims
        }
    }

    /// Whether the image has more than one slice: a 3D image, or an array.
    pub fn has_slice(&self) -> (r: bool)
        requires
            spec_image_type_valid(self.image_type),
        ensures
            r == (self.spec_dims() == 3 || self.spec_is_array()),
    {
        let (dims, array): (u8, bool) = self.type_info();
        dims == 3 || array
    }

    /// The extent of the image along each axis.
    pub fn size(&self) -> (r: CLVec)
        ensures
            r == self.spec_size(),
    {
        let mut height: usize = if self.image_height < 1 {
            1
        } else {
            self.image_height
        };
        let mut depth: usize = if self.image_depth < 1 {
            1
        } else {
            self.image_depth
        };
        if self.image_type == CL_MEM_OBJECT_IMAGE1D_ARRAY {
            height = self.image_array_size;
        } else if self.image_type == CL_MEM_OBJECT_IMAGE2D_ARRAY {
            depth = self.image_array_size;
        }
        CLVec { x: self.image_width, y: height, z: depth }
    }

    /// A box lies within the image: along no axis does it end beyond the
    /// image, along an axis that the image does not have it begins at 0 and
    /// is one wide, and it is nowhere empty.
    pub open spec fn bounds_ok(&self, origin: CLVec, region: CLVec) -> bool {
        let size = self.spec_size();
        let dims = self.spec_dims_with_array();
        &&& origin.x + region.x <= size.x
        &&& origin.y + region.y <= size.y
        &&& origin.z + region.z <= size.z
        &&& dims < 3 ==> origin.z == 0 && region.z == 1
        &&& dims < 2 ==> origin.y == 0 && region.y == 1
        &&& !region.contains(0)
    }

    /// Whether a box lies within the image.
    pub fn check_bounds(&self, origin: &CLVec, region: &CLVec) -> (r: bool)
        requires
            spec_image_type_valid(self.image_type),
        ensures
            r == self.bounds_ok(*origin, *region),
    {
        let dims: u8 = self.dims_with_array();
        let size: CLVec = self.size();
        if origin.x > size.x || region.x > size.x - origin.x || origin.y > size.y || region.y
            > size.y - origin.y || origin.z > size.z || region.z > size.z - origin.z {
            return false;
        }
        if dims < 3 && origin.z != 0 || dims < 2 && origin.y != 0 {
            return false;
        }
        if dims < 3 && region.z != 1 || dims < 2 && region.y != 1 || region.contains(0) {
            return false;
        }
        true
    }
}

/// Whether two descriptors agree in everything but the object that the
/// image is made from.
pub fn desc_eq_no_buffer(a: &ImageDesc, b: &ImageDesc) -> (r: bool)
    ensures
        r == (*a == *b),
{
    a.image_type == b.image_type && a.image_width == b.image_width && a.image_height
        == b.image_height && a.image_depth == b.image_depth && a.image_array_size
        == b.image_array_size && a.image_row_pitch == b.image_row_pitch && a.image_slice_pitch
        == b.image_slice_pitch && a.num_mip_levels == b.num_mip_levels && a.num_samples
        == b.num_samples
}

/// `a` is a multiple of `m`; of zero only zero is a multiple.
pub open spec fn multiple_of(a: int, m: int) -> bool {
    if m == 0 {
        a == 0
    } else {
        a % m == 0
    }
}

/// A dimension that the type has is zero.
pub open spec fn dimension_missing(desc: ImageDesc) -> bool {
    ||| desc.image_width < 1
    ||| desc.image_height < 1 && desc.spec_dims() >= 2
    ||| desc.image_depth < 1 && desc.spec_dims() >= 3
    ||| desc.image_array_size < 1 && desc.spec_is_array()
}

/// The limit that holds for the width, height and depth of an image of the
/// type.
pub open spec fn size_cap(image_type: u32) -> Cap {
    if spec_dims(image_type) == 3 {
        Cap::Image3dSize
    } else if image_type == CL_MEM_OBJECT_IMAGE1D_BUFFER {
        Cap::ImageBufferSize
    } else {
        Cap::Image2dSize
    }
}

/// Every dimension that the type has is within the limit of every device.
pub open spec fn within_limits(desc: ImageDesc, devs: Seq<Device>) -> bool {
    let c = size_cap(desc.image_type);
    &&& within_all(devs, c, desc.image_width as int)
    &&& desc.spec_dims() >= 2 ==> within_all(devs, c, desc.image_height as int)
    &&& desc.spec_dims() >= 3 ==> within_all(devs, c, desc.image_depth as int)
    &&& desc.spec_is_array() ==> within_all(devs, Cap::ImageArraySize, desc.image_array_size as int)
}

/// An image of the type may be made from an object of the parent's type: a
/// 1D buffer image from a buffer, a 2D image from a 2D image, or from a
/// buffer where some device supports that.
pub open spec fn parent_allowed(image_type: u32, parent_type: u32, devs: Seq<Device>) -> bool {
    if image_type == CL_MEM_OBJECT_IMAGE1D_BUFFER {
        parent_type == CL_MEM_OBJECT_BUFFER
    } else if image_type == CL_MEM_OBJECT_IMAGE2D {
        (parent_type == CL_MEM_OBJECT_BUFFER && any_has(devs, Feature::Image2dFromBuffer))
            || parent_type == CL_MEM_OBJECT_IMAGE2D
    } else {
        false
    }
}

/// The pitches of the image in bytes, row pitch first, or none where the
/// descriptor's pitches are refused.
///
/// A pitch of zero stands for the packed one: the width times the element
/// size for a row, the row pitch times the height (at least one) for a
/// slice. Without a host pointer a pitch may be given only for an image
/// made from a buffer, and the row pitch of such an image, unless it is a
/// 1D buffer image, is a multiple of `pitch_alignment` elements. With a
/// host pointer a given row pitch is a multiple of the element size, and,
/// for an image with slices, a given slice pitch is a multiple of the row
/// pitch and not below the packed slice pitch; the slice pitch of an image
/// without slices is left as it was given. A pitch that does not fit the
/// address space is refused.
pub open spec fn resolved_pitches(
    desc: ImageDesc,
    buffer_parent: bool,
    host_ptr: usize,
    elem_size: usize,
    pitch_alignment: u64,
) -> Option<(usize, usize)> {
    let packed_row = desc.image_width * elem_size;
    let row: int = if desc.image_row_pitch == 0 {
        packed_row
    } else {
        desc.image_row_pitch as int
    };
    let packed_slice = row * at_least_one(desc.image_height);
    if row > usize::MAX {
        None
    } else if host_ptr == 0 {
        let slice: int = if desc.image_slice_pitch == 0 {
            packed_slice
        } else {
            desc.image_slice_pitch as int
        };
        if (desc.image_row_pitch != 0 || desc.image_slice_pitch != 0) && !buffer_parent {
            None
        } else if slice > usize::MAX {
            None
        } else if buffer_parent && desc.image_type != CL_MEM_OBJECT_IMAGE1D_BUFFER && !multiple_of(
            row,
            pitch_alignment * elem_size,
        ) {
            None
        } else {
            Some((row as usize, slice as usize))
        }
    } else if desc.image_row_pitch != 0 && desc.image_row_pitch % elem_size != 0 {
        None
    } else if desc.spec_dims() == 3 || desc.spec_is_array() {
        if desc.image_slice_pitch == 0 {
            if packed_slice > usize::MAX {
                None
            } else {
                Some((row as usize, packed_slice as usize))
            }
        } else if desc.image_slice_pitch < packed_slice || desc.image_slice_pitch as int % row != 0 {
            None
        } else {
            Some((row as usize, desc.image_slice_pitch))
        }
    } else {
        Some((row as usize, desc.image_slice_pitch))
    }
}

/// What the validation of a descriptor comes to: the descriptor with its
/// pitches filled in, or the first rule that it breaks.
pub open spec fn checked_image_desc(
    image_desc: Option<ImageDesc>,
    parent_type: Option<u32>,
    host_ptr: usize,
    elem_size: usize,
    devs: Seq<Device>,
) -> Result<ImageDesc, ClError> {
    if image_desc is None {
        Err(ClError::InvalidImageDescriptor)
    } else {
        let desc = image_desc->0;
        let buffer_parent = parent_type == Some(CL_MEM_OBJECT_BUFFER);
        if !spec_image_type_valid(desc.image_type) {
            Err(ClError::InvalidImageDescriptor)
        } else if dimension_missing(desc) {
            Err(ClError::InvalidImageDescriptor)
        } else if !within_limits(desc, devs) {
            Err(ClError::InvalidImageSize)
        } else if desc.num_mip_levels != 0 || desc.num_samples != 0 {
            Err(ClError::InvalidImageDescriptor)
        } else if parent_type is Some && !parent_allowed(desc.image_type, parent_type->0, devs) {
            Err(ClError::InvalidOperation)
        } else {
            match resolved_pitches(
                desc,
                buffer_parent,
                host_ptr,
                elem_size,
                max_cap_of(devs, Cap::ImagePitchAlignment),
            ) {
                None => Err(ClError::InvalidImageDescriptor),
                Some((row, slice)) => Ok(
                    ImageDesc { image_row_pitch: row, image_slice_pitch: slice, ..desc },
                ),
            }
        }
    }
}

fn exceeds(v: usize, limit: u64) -> (r: bool)
    ensures
        r == (v > limit),
{
    v as u64 > limit
}

/// Whether `a` is a multiple of the product of `m` and `n`.
fn is_multiple_of_product(a: usize, m: u64, n: usize) -> (r: bool)
    ensures
        r == multiple_of(a as int, m * n),
{
    proof {
        assert(0 <= m * n <= 0xffff_ffff_ffff_fffe_0000_0000_0000_0001) by (nonlinear_arith)
            requires
                0 <= m <= 0xffff_ffff_ffff_ffff,
                0 <= n <= 0xffff_ffff_ffff_ffff,
        ;
    }
    match (m as u128).checked_mul(n as u128) {
        None => a == 0,
        Some(p) => {
            if p == 0 {
                a == 0
            } else {
                a as u128 % p == 0
            }
        },
    }
}

/// Checks a descriptor against the limits of the devices and against the
/// object that the image is to be made from, of which `parent_type` gives
/// the type, and fills in the pitches that the descriptor leaves at zero.
pub fn validate_image_desc(
    image_desc: Option<ImageDesc>,
    parent_type: Option<u32>,
    host_ptr: usize,
    elem_size: usize,
    devs: &Vec<Device>,
) -> (r: CLResult<ImageDesc>)
    requires
        devs@.len() > 0,
        elem_size > 0,
    ensures
        r == checked_image_desc(image_desc, parent_type, host_ptr, elem_size, devs@),
{
    let pitch_alignment: u64 = max_cap(devs, Cap::ImagePitchAlignment);
    let mut desc: ImageDesc = match image_desc {
        None => {
            return Err(ClError::InvalidImageDescriptor);
        },
        Some(d) => d,
    };
    if !image_type_valid(desc.image_type) {
        return Err(ClError::InvalidImageDescriptor);
    }
    let (dims, array): (u8, bool) = desc.type_info();

    if desc.image_width < 1 || desc.image_height < 1 && dims >= 2 || desc.image_depth < 1 && dims
        >= 3 || desc.image_array_size < 1 && array {
        return Err(ClError::InvalidImageDescriptor);
    }
    let max_size: u64 = if dims == 3 {
        min_cap(devs, Cap::Image3dSize)
    } else if desc.image_type == CL_MEM_OBJECT_IMAGE1D_BUFFER {
        min_cap(devs, Cap::ImageBufferSize)
    } else {
        min_cap(devs, Cap::Image2dSize)
    };
    let max_array: u64 = min_cap(devs, Cap::ImageArraySize);
    if exceeds(desc.image_width, max_size) || exceeds(desc.image_height, max_size) && dims >= 2
        || exceeds(desc.image_depth, max_size) && dims >= 3 || exceeds(
        desc.image_array_size,
        max_array,
    ) && array {
        return Err(ClError::InvalidImageSize);
    }
    if desc.num_mip_levels != 0 || desc.num_samples != 0 {
        return Err(ClError::InvalidImageDescriptor);
    }
    let has_buf_parent: bool = match parent_type {
        Some(pt) => {
            let allowed: bool = if desc.image_type == CL_MEM_OBJECT_IMAGE1D_BUFFER {
                pt == CL_MEM_OBJECT_BUFFER
            } else if desc.image_type == CL_MEM_OBJECT_IMAGE2D {
                (pt == CL_MEM_OBJECT_BUFFER && any_device_has(devs, Feature::Image2dFromBuffer))
                    || pt == CL_MEM_OBJECT_IMAGE2D
            } else {
                false
            };
            if !allowed {
                return Err(ClError::InvalidOperation);
            }
            pt == CL_MEM_OBJECT_BUFFER
        },
        None => false,
    };
    let height: usize = if desc.image_height < 1 {
        1
    } else {
        desc.image_height
    };
    let row_given: bool = desc.image_row_pitch != 0;
    proof {
        assert(desc.image_width * elem_size >= 1) by (nonlinear_arith)
            requires
                desc.image_width >= 1,
                elem_size >= 1,
        ;
    }
    if desc.image_row_pitch == 0 {
        desc.image_row_pitch = match desc.image_width.checked_mul(elem_size) {
            Some(v) => v,
            None => {
                return Err(ClError::InvalidImageDescriptor);
            },
        };
    } else if host_ptr != 0 && desc.image_row_pitch % elem_size != 0 {
        return Err(ClError::InvalidImageDescriptor);
    }
    let packed_slice: Option<usize> = desc.image_row_pitch.checked_mul(height);
    if host_ptr == 0 {
        if (row_given || desc.image_slice_pitch != 0) && !has_buf_parent {
            return Err(ClError::InvalidImageDescriptor);
        }
        if desc.image_slice_pitch == 0 {
            desc.image_slice_pitch = match packed_slice {
                Some(v) => v,
                None => {
                    return Err(ClError::InvalidImageDescriptor);
                },
            };
        }
        if has_buf_parent && desc.image_type != CL_MEM_OBJECT_IMAGE1D_BUFFER {
            if !is_multiple_of_product(desc.image_row_pitch, pitch_alignment, elem_size) {
                return Err(ClError::InvalidImageDescriptor);
            }
        }
    } else if dims == 3 || array {
        if desc.image_slice_pitch == 0 {
            desc.image_slice_pitch = match packed_slice {
                Some(v) => v,
                None => {
                    return Err(ClError::InvalidImageDescriptor);
                },
            };
        } else {
            let too_small: bool = match packed_slice {
                Some(v) => desc.image_slice_pitch < v,
                None => true,
            };
            if too_small || desc.image_slice_pitch % desc.image_row_pitch != 0 {
                return Err(ClError::InvalidImageDescriptor);
            }
        }
    }
    Ok(desc)
}

} // verus!

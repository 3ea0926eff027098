//! Image formats: a channel order, a channel data type, and the size of a
//! pixel that the two give.

use vstd::prelude::*;
use crate::error::{CLResult, ClError};

verus! {
// Channel orders.
pub const CL_R: u32 = 0x10B0;
pub const CL_A: u32 = 0x10B1;
pub const CL_RG: u32 = 0x10B2;
pub const CL_RA: u32 = 0x10B3;
pub const CL_RGB: u32 = 0x10B4;
pub const CL_RGBA: u32 = 0x10B5;
pub const CL_BGRA: u32 = 0x10B6;
pub const CL_ARGB: u32 = 0x10B7;
pub const CL_INTENSITY: u32 = 0x10B8;
pub const CL_LUMINANCE: u32 = 0x10B9;
pub const CL_RX: u32 = 0x10BA;
pub const CL_RGX: u32 = 0x10BB;
pub const CL_RGBX: u32 = 0x10BC;
pub const CL_DEPTH: u32 = 0x10BD;
pub const CL_DEPTH_STENCIL: u32 = 0x10BE;
pub const CL_SRGB: u32 = 0x10BF;
pub const CL_SRGBX: u32 = 0x10C0;
pub const CL_SRGBA: u32 = 0x10C1;
pub const CL_SBGRA: u32 = 0x10C2;
pub const CL_ABGR: u32 = 0x10C3;

// Channel data types.
pub const CL_SNORM_INT8: u32 = 0x10D0;
pub const CL_SNORM_INT16: u32 = 0x10D1;
pub const CL_UNORM_INT8: u32 = 0x10D2;
pub const CL_UNORM_INT16: u32 = 0x10D3;
pub const CL_UNORM_SHORT_565: u32 = 0x10D4;
pub const CL_UNORM_SHORT_555: u32 = 0x10D5;
pub const CL_UNORM_INT_101010: u32 = 0x10D6;
pub const CL_SIGNED_INT8: u32 = 0x10D7;
pub const CL_SIGNED_INT16: u32 = 0x10D8;
pub const CL_SIGNED_INT32: u32 = 0x10D9;
pub const CL_UNSIGNED_INT8: u32 = 0x10DA;
pub const CL_UNSIGNED_INT16: u32 = 0x10DB;
pub const CL_UNSIGNED_INT32: u32 = 0x10DC;
pub const CL_HALF_FLOAT: u32 = 0x10DD;
pub const CL_FLOAT: u32 = 0x10DE;
pub const CL_UNORM_INT_101010_2: u32 = 0x10E0;

/// A channel order together with a channel data type.
#[derive(Clone, Copy, Debug, PartialEq, Eq, PartialOrd, Ord, Hash, Structural)]
pub struct ImageFormat {
    pub image_channel_order: u32,
    pub image_channel_data_type: u32,
}

/// The number of channels of a channel order; none for an order that is
/// not known.
pub open spec fn spec_channels(order: u32) -> Option<u8> {
    if order == CL_R || order == CL_A || order == CL_DEPTH || order == CL_INTENSITY || order
        == CL_LUMINANCE {
        Some(1u8)
    } else if order == CL_RG || order == CL_RA || order == CL_RX {
        Some(2u8)
    } else if order == CL_RGB || order == CL_RGX || order == CL_SRGB {
        Some(3u8)
    } else if order == CL_RGBA || order == CL_ARGB || order == CL_BGRA || order == CL_ABGR
        || order == CL_RGBX || order == CL_SRGBA || order == CL_SBGRA || order == CL_SRGBX {
        Some(4u8)
    } else {
        None
    }
}

/// The data type packs a whole pixel into one value.
pub open spec fn spec_packed(data_type: u32) -> bool {
    data_type == CL_UNORM_SHORT_555 || data_type == CL_UNORM_SHORT_565 || data_type
        == CL_UNORM_INT_101010 || data_type == CL_UNORM_INT_101010_2
}

/// The number of bytes of one value of a channel data type; none for a
/// type that is not known.
pub open spec fn spec_type_size(data_type: u32) -> Option<u8> {
    if data_type == CL_SIGNED_INT8 || data_type == CL_UNSIGNED_INT8 || data_type == CL_SNORM_INT8
        || data_type == CL_UNORM_INT8 {
        Some(1u8)
    } else if data_type == CL_SIGNED_INT16 || data_type == CL_UNSIGNED_INT16 || data_type
        == CL_SNORM_INT16 || data_type == CL_UNORM_INT16 || data_type == CL_HALF_FLOAT
        || data_type == CL_UNORM_SHORT_555 || data_type == CL_UNORM_SHORT_565 {
        Some(2u8)
    } else if data_type == CL_SIGNED_INT32 || data_type == CL_UNSIGNED_INT32 || data_type
        == CL_FLOAT || data_type == CL_UNORM_INT_101010 || data_type == CL_UNORM_INT_101010_2 {
        Some(4u8)
    } else {
        None
    }
}

/// The number of bytes of one pixel: the size of the data type where it
/// packs a pixel, else that size once per channel.
pub open spec fn spec_pixel_size(format: ImageFormat) -> Option<u8> {
    match spec_type_size(format.image_channel_data_type) {
        None => None,
        Some(size) => if spec_packed(format.image_channel_data_type) {
            Some(size)
        } else {
            match spec_channels(format.image_channel_order) {
                None => None,
                Some(c) => Some((c * size) as u8),
            }
        },
    }
}

/// A format that an image can be created with: its pixel has a size, it is
/// not a depth-stencil format, and a packed data type goes with a channel
/// order that it can hold.
pub open spec fn image_format_valid(format: ImageFormat) -> bool {
    let order = format.image_channel_order;
    let data_type = format.image_channel_data_type;
    &&& spec_pixel_size(format) is Some
    &&& order != CL_DEPTH_STENCIL
    &&& (data_type == CL_UNORM_SHORT_565 || data_type == CL_UNORM_SHORT_555 || data_type
        == CL_UNORM_INT_101010) ==> (order == CL_RGB || order == CL_RGBX)
    &&& data_type == CL_UNORM_INT_101010_2 ==> order == CL_RGBA
}

impl ImageFormat {
    /// The number of channels of the channel order.
    pub fn channels(&self) -> (r: Option<u8>)
        ensures
            r == spec_channels(self.image_channel_order),
    {
        let order: u32 = self.image_channel_order;
        if order == CL_R || order == CL_A || order == CL_DEPTH || order == CL_INTENSITY || order
            == CL_LUMINANCE {
            Some(1)
        } else if order == CL_RG || order == CL_RA || order == CL_RX {
            Some(2)
        } else if order == CL_RGB || order == CL_RGX || order == CL_SRGB {
            Some(3)
        } else if order == CL_RGBA || order == CL_ARGB || order == CL_BGRA || order == CL_ABGR
            || order == CL_RGBX || order == CL_SRGBA || order == CL_SBGRA || order == CL_SRGBX {
            Some(4)
        } else {
            None
        }
    }

    /// The size of one value of the channel data type, and whether the type
    /// packs a whole pixel into it.
    pub fn format_info(&self) -> (r: Option<(u8, bool)>)
        ensures
            r == (match spec_type_size(self.image_channel_data_type) {
                Some(size) => Some((size, spec_packed(self.image_channel_data_type))),
                None => None,
            }),
    {
        let t: u32 = self.image_channel_data_type;
        if t == CL_SIGNED_INT8 || t == CL_UNSIGNED_INT8 || t == CL_SNORM_INT8 || t
            == CL_UNORM_INT8 {
            Some((1, false))
        } else if t == CL_SIGNED_INT16 || t == CL_UNSIGNED_INT16 || t == CL_SNORM_INT16 || t
            == CL_UNORM_INT16 || t == CL_HALF_FLOAT {
            Some((2, false))
        } else if t == CL_SIGNED_INT32 || t == CL_UNSIGNED_INT32 || t == CL_FLOAT {
            Some((4, false))
        } else if t == CL_UNORM_SHORT_555 || t == CL_UNORM_SHORT_565 {
            Some((2, true))
        } else if t == CL_UNORM_INT_101010 || t == CL_UNORM_INT_101010_2 {
            Some((4, true))
        } else {
            None
        }
    }

    /// The number of bytes of one pixel.
    pub fn pixel_size(&self) -> (r: Option<u8>)
        ensures
            r == spec_pixel_size(*self),
            r matches Some(n) ==> 1 <= n <= 16,
    {
        match self.format_info() {
            None => None,
            Some((size, packed)) => {
                if packed {
                    Some(size)
                } else {
                    match self.channels() {
                        None => None,
                        Some(c) => {
                            proof {
                                lemma_channel_bytes(c as int, size as int);
                            }
                            Some(c * size)
                        },
                    }
                }
            },
        }
    }
}

proof fn lemma_channel_bytes(c: int, size: int)
    requires
        1 <= c <= 4,
        1 <= size <= 4,
    ensures
        1 <= c * size <= 16,
{
    assert(1 <= c * size <= 16) by (nonlinear_arith)
        requires
            1 <= c <= 4,
            1 <= size <= 4,
    ;
}

/// Accepts a format that an image can be created with and returns it with
/// the size of its pixel. A format that was left out is refused like an
/// invalid one.
pub fn validate_image_format(image_format: Option<&ImageFormat>) -> (r: CLResult<(ImageFormat, u8)>)
    ensures
        r is Ok <==> image_format is Some && image_format_valid(*image_format->0),
        r matches Ok((format, size)) ==> format == *image_format->0 && spec_pixel_size(format)
            == Some(size) && 1 <= size <= 16,
        r is Err ==> r == Err::<(ImageFormat, u8), ClError>(ClError::InvalidImageFormatDescriptor),
{
    let format: ImageFormat = match image_format {
        None => {
            return Err(ClError::InvalidImageFormatDescriptor);
        },
        Some(f) => *f,
    };
    let pixel_size: u8 = match format.pixel_size() {
        None => {
            return Err(ClError::InvalidImageFormatDescriptor);
        },
        Some(s) => s,
    };
    if format.image_channel_order == CL_DEPTH_STENCIL {
        return Err(ClError::InvalidImageFormatDescriptor);
    }
    let t: u32 = format.image_channel_data_type;
    let valid_combination: bool = if t == CL_UNORM_SHORT_565 || t == CL_UNORM_SHORT_555 || t
        == CL_UNORM_INT_101010 {
        format.image_channel_order == CL_RGB || format.image_channel_order == CL_RGBX
    } else if t == CL_UNORM_INT_101010_2 {
        format.image_channel_order == CL_RGBA
    } else {
        true
    };
    if !valid_combination {
        return Err(ClError::InvalidImageFormatDescriptor);
    }
    Ok((format, pixel_size))
}

} // verus!

//! What a device reports of itself: its limits, its features, and the image
//! formats it supports.

use vstd::prelude::*;
use crate::format::ImageFormat;

verus! {
/// The access that a device grants to images of one type in one format.
#[derive(Clone, Copy, Debug, PartialEq, Eq, Structural)]
pub struct TypeSupport {
    pub image_type: u32,
    pub flags: u64,
}

/// One format of a device's format table, with the image types that the
/// device supports in it.
///
/// The tables are lists, and are read as what their entries say together:
/// a device supports a format for a type with some access when one entry
/// of the format names the type with that access. So a table in which a
/// format or a type occurs more than once stands for the union of its
/// entries, and none needs to be refused.
#[derive(Debug, PartialEq, Eq)]
pub struct FormatSupport {
    pub format: ImageFormat,
    pub types: Vec<TypeSupport>,
}

/// A limit that a device reports.
#[derive(Clone, Copy, Debug, PartialEq, Eq, Structural)]
pub enum Cap {
    /// The largest allocation, in bytes.
    MaxMemAlloc,
    /// The largest width and height of a 1D or 2D image.
    Image2dSize,
    /// The largest width, height and depth of a 3D image.
    Image3dSize,
    /// The largest width, in pixels, of a 1D image made from a buffer.
    ImageBufferSize,
    /// The largest number of images in an image array.
    ImageArraySize,
    /// The row pitch alignment, in pixels, of a 2D image made from a buffer.
    ImagePitchAlignment,
    /// The alignment, in bytes, of the memory of a 2D image made from a
    /// buffer.
    ImageBaseAddressAlignment,
}

/// Something that a device supports or does not.
#[derive(Clone, Copy, Debug, PartialEq, Eq, Structural)]
pub enum Feature {
    Images,
    Image2dFromBuffer,
    Svm,
    BufferDeviceAddress,
}

/// The capabilities of one device.
#[derive(Debug, PartialEq, Eq)]
pub struct Device {
    pub max_mem_alloc: u64,
    pub image_2d_size: u64,
    pub image_3d_size: u64,
    pub image_buffer_size: u64,
    pub image_array_size: u64,
    pub image_pitch_alignment: u64,
    pub image_base_address_alignment: u64,
    pub has_images: bool,
    pub image2d_from_buffer: bool,
    pub svm: bool,
    pub bda: bool,
    pub formats: Vec<FormatSupport>,
}

/// The entry grants images of the type every access in `access`.
pub open spec fn entry_accepts(entry: FormatSupport, image_type: u32, access: u64) -> bool {
    exists|j: int|
        0 <= j < entry.types@.len() && (#[trigger] entry.types@[j]).image_type == image_type
            && entry.types@[j].flags & access == access
}

impl Device {
    /// The limit that the device reports.
    pub open spec fn cap(&self, c: Cap) -> u64 {
        match c {
            Cap::MaxMemAlloc => self.max_mem_alloc,
            Cap::Image2dSize => self.image_2d_size,
            Cap::Image3dSize => self.image_3d_size,
            Cap::ImageBufferSize => self.image_buffer_size,
            Cap::ImageArraySize => self.image_array_size,
            Cap::ImagePitchAlignment => self.image_pitch_alignment,
            Cap::ImageBaseAddressAlignment => self.image_base_address_alignment,
        }
    }

    /// The limit that the device reports.
    pub fn get_cap(&self, c: Cap) -> (r: u64)
        ensures
            r == self.cap(c),
    {
        match c {
            Cap::MaxMemAlloc => self.max_mem_alloc,
            Cap::Image2dSize => self.image_2d_size,
            Cap::Image3dSize => self.image_3d_size,
            Cap::ImageBufferSize => self.image_buffer_size,
            Cap::ImageArraySize => self.image_array_size,
            Cap::ImagePitchAlignment => self.image_pitch_alignment,
            Cap::ImageBaseAddressAlignment => self.image_base_address_alignment,
        }
    }

    /// Whether the device supports the feature.
    pub open spec fn spec_has(&self, f: Feature) -> bool {
        match f {
            Feature::Images => self.has_images,
            Feature::Image2dFromBuffer => self.image2d_from_buffer,
            Feature::Svm => self.svm,
            Feature::BufferDeviceAddress => self.bda,
        }
    }

    /// Whether the device supports the feature.
    pub fn has_feature(&self, f: Feature) -> (r: bool)
        ensures
            r == self.spec_has(f),
    {
        match f {
            Feature::Images => self.has_images,
            Feature::Image2dFromBuffer => self.image2d_from_buffer,
            Feature::Svm => self.svm,
            Feature::BufferDeviceAddress => self.bda,
        }
    }

    /// The format table grants images of the type and format every access in
    /// `access`.
    pub open spec fn supports(&self, format: ImageFormat, image_type: u32, access: u64) -> bool {
        exists|i: int|
            0 <= i < self.formats@.len() && (#[trigger] self.formats@[i]).format == format
                && entry_accepts(self.formats@[i], image_type, access)
    }

    /// Whether the format table grants images of the type and format every
    /// access in `access`.
    pub fn supports_format(&self, format: &ImageFormat, image_type: u32, access: u64) -> (r: bool)
        ensures
            r == self.supports(*format, image_type, access),
    {
        let mut i: usize = 0;
        while i < self.formats.len()
            invariant
                i <= self.formats.len(),
                forall|k: int|
                    0 <= k < i ==> !((#[trigger] self.formats@[k]).format == *format
                        && entry_accepts(self.formats@[k], image_type, access)),
            decreases self.formats.len() - i,
        {
            let e: &FormatSupport = &self.formats[i];
            if e.format.image_channel_order == format.image_channel_order
                && e.format.image_channel_data_type == format.image_channel_data_type
                && entry_accepts_exec(e, image_type, access) {
                return true;
            }
            i = i + 1;
        }
        false
    }
}

/// Whether the entry grants images of the type every access in `access`.
pub fn entry_accepts_exec(entry: &FormatSupport, image_type: u32, access: u64) -> (r: bool)
    ensures
        r == entry_accepts(*entry, image_type, access),
{
    let mut j: usize = 0;
    while j < entry.types.len()
        invariant
            j <= entry.types.len(),
            forall|k: int|
                0 <= k < j ==> !((#[trigger] entry.types@[k]).image_type == image_type
                    && entry.types@[k].flags & access == access),
        decreases entry.types.len() - j,
    {
        let t: TypeSupport = entry.types[j];
        if t.image_type == image_type && t.flags & access == access {
            return true;
        }
        j = j + 1;
    }
    false
}

/// No device reports a limit below `v`.
pub open spec fn within_all(devs: Seq<Device>, c: Cap, v: int) -> bool {
    forall|i: int| 0 <= i < devs.len() ==> v <= (#[trigger] devs[i]).cap(c)
}

/// `m` is the smallest value that a device reports for the limit.
pub open spec fn is_min_cap(devs: Seq<Device>, c: Cap, m: u64) -> bool {
    &&& forall|i: int| 0 <= i < devs.len() ==> m <= (#[trigger] devs[i]).cap(c)
    &&& exists|i: int| 0 <= i < devs.len() && (#[trigger] devs[i]).cap(c) == m
}

/// `m` is the largest value that a device reports for the limit.
pub open spec fn is_max_cap(devs: Seq<Device>, c: Cap, m: u64) -> bool {
    &&& forall|i: int| 0 <= i < devs.len() ==> m >= (#[trigger] devs[i]).cap(c)
    &&& exists|i: int| 0 <= i < devs.len() && (#[trigger] devs[i]).cap(c) == m
}

/// The smallest value that a device reports for the limit.
pub open spec fn min_cap_of(devs: Seq<Device>, c: Cap) -> u64 {
    choose|m: u64| is_min_cap(devs, c, m)
}

/// The largest value that a device reports for the limit.
pub open spec fn max_cap_of(devs: Seq<Device>, c: Cap) -> u64 {
    choose|m: u64| is_max_cap(devs, c, m)
}

proof fn lemma_extremes_exist(devs: Seq<Device>, c: Cap)
    requires
        devs.len() > 0,
    ensures
        exists|m: u64| is_min_cap(devs, c, m),
        exists|m: u64| is_max_cap(devs, c, m),
    decreases devs.len(),
{
    let last = devs.last().cap(c);
    if devs.len() == 1 {
        assert(is_min_cap(devs, c, last));
        assert(is_max_cap(devs, c, last));
    } else {
        let front = devs.drop_last();
        lemma_extremes_exist(front, c);
        let lo = choose|m: u64| is_min_cap(front, c, m);
        let hi = choose|m: u64| is_max_cap(front, c, m);
        assert forall|k: int| 0 <= k < devs.len() - 1 implies (#[trigger] devs[k]) == front[k] by {}
        let new_lo = if last < lo {
            last
        } else {
            lo
        };
        let new_hi = if last > hi {
            last
        } else {
            hi
        };
        assert(is_min_cap(devs, c, new_lo));
        assert(is_max_cap(devs, c, new_hi));
    }
}

/// The smallest limit is a limit that some device reports and that none
/// goes below, and a value is within it exactly when it is within the
/// limit of every device; likewise the largest.
pub proof fn lemma_cap_extremes(devs: Seq<Device>, c: Cap, v: int)
    requires
        devs.len() > 0,
    ensures
        is_min_cap(devs, c, min_cap_of(devs, c)),
        is_max_cap(devs, c, max_cap_of(devs, c)),
        v <= min_cap_of(devs, c) <==> within_all(devs, c, v),
{
    lemma_extremes_exist(devs, c);
    let m = min_cap_of(devs, c);
}

/// Some device supports the feature.
pub open spec fn any_has(devs: Seq<Device>, f: Feature) -> bool {
    exists|i: int| 0 <= i < devs.len() && (#[trigger] devs[i]).spec_has(f)
}

/// Some device grants images of the type and format every access in
/// `access`.
pub open spec fn any_supports(
    devs: Seq<Device>,
    format: ImageFormat,
    image_type: u32,
    access: u64,
) -> bool {
    exists|i: int| 0 <= i < devs.len() && (#[trigger] devs[i]).supports(format, image_type, access)
}

/// The smallest value that the devices report for a limit.
pub fn min_cap(devs: &Vec<Device>, c: Cap) -> (m: u64)
    requires
        devs@.len() > 0,
    ensures
        is_min_cap(devs@, c, m),
        m == min_cap_of(devs@, c),
{
    let mut m: u64 = devs[0].get_cap(c);
    let mut i: usize = 1;
    while i < devs.len()
        invariant
            1 <= i <= devs.len(),
            forall|k: int| 0 <= k < i ==> m <= (#[trigger] devs@[k]).cap(c),
            exists|k: int| 0 <= k < i && (#[trigger] devs@[k]).cap(c) == m,
        decreases devs.len() - i,
    {
        let v: u64 = devs[i].get_cap(c);
        if v < m {
            m = v;
        }
        i = i + 1;
    }
    m
}

/// The largest value that the devices report for a limit.
pub fn max_cap(devs: &Vec<Device>, c: Cap) -> (m: u64)
    requires
        devs@.len() > 0,
    ensures
        is_max_cap(devs@, c, m),
        m == max_cap_of(devs@, c),
{
    let mut m: u64 = devs[0].get_cap(c);
    let mut i: usize = 1;
    while i < devs.len()
        invariant
            1 <= i <= devs.len(),
            forall|k: int| 0 <= k < i ==> m >= (#[trigger] devs@[k]).cap(c),
            exists|k: int| 0 <= k < i && (#[trigger] devs@[k]).cap(c) == m,
        decreases devs.len() - i,
    {
        let v: u64 = devs[i].get_cap(c);
        if v > m {
            m = v;
        }
        i = i + 1;
    }
    m
}

/// Whether some device supports the feature.
pub fn any_device_has(devs: &Vec<Device>, f: Feature) -> (r: bool)
    ensures
        r == any_has(devs@, f),
{
    let mut i: usize = 0;
    while i < devs.len()
        invariant
            i <= devs.len(),
            forall|k: int| 0 <= k < i ==> !(#[trigger] devs@[k]).spec_has(f),
        decreases devs.len() - i,
    {
        if devs[i].has_feature(f) {
            return true;
        }
        i = i + 1;
    }
    false
}

/// Whether some device grants images of the type and format every access
/// in `access`.
pub fn any_device_supports(
    devs: &Vec<Device>,
    format: &ImageFormat,
    image_type: u32,
    access: u64,
) -> (r: bool)
    ensures
        r == any_supports(devs@, *format, image_type, access),
{
    let mut i: usize = 0;
    while i < devs.len()
        invariant
            i <= devs.len(),
            forall|k: int|
                0 <= k < i ==> !(#[trigger] devs@[k]).supports(*format, image_type, access),
        decreases devs.len() - i,
    {
        if devs[i].supports_format(format, image_type, access) {
            return true;
        }
        i = i + 1;
    }
    false
}

} // verus!

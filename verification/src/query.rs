//! What a memory object, an image or a sampler answers when asked about
//! itself.

use vstd::prelude::*;
use vstd::slice::slice_to_vec;
use crate::desc::CL_MEM_OBJECT_BUFFER;
use crate::error::{CLResult, ClError};
use crate::format::ImageFormat;
use crate::mem::{ImageInfo, MemObject, MemState};
use crate::properties::{pairs_of, terminated_at};
use crate::sampler::{
    Sampler, CL_SAMPLER_ADDRESSING_MODE, CL_SAMPLER_CONTEXT, CL_SAMPLER_FILTER_MODE,
    CL_SAMPLER_NORMALIZED_COORDS, CL_SAMPLER_PROPERTIES, CL_SAMPLER_REFERENCE_COUNT,
};

verus! {
// What a memory object can be asked.
pub const CL_MEM_TYPE: u32 = 0x1100;
pub const CL_MEM_FLAGS: u32 = 0x1101;
pub const CL_MEM_SIZE: u32 = 0x1102;
pub const CL_MEM_HOST_PTR: u32 = 0x1103;
pub const CL_MEM_MAP_COUNT: u32 = 0x1104;
pub const CL_MEM_REFERENCE_COUNT: u32 = 0x1105;
pub const CL_MEM_CONTEXT: u32 = 0x1106;
pub const CL_MEM_ASSOCIATED_MEMOBJECT: u32 = 0x1107;
pub const CL_MEM_OFFSET: u32 = 0x1108;
pub const CL_MEM_USES_SVM_POINTER: u32 = 0x1109;
pub const CL_MEM_PROPERTIES: u32 = 0x110A;
pub const CL_MEM_USES_SVM_POINTER_ARM: u32 = 0x40B7;
pub const CL_MEM_DEVICE_ADDRESS_EXT: u32 = 0x5001;

// What an image can be asked.
pub const CL_IMAGE_FORMAT: u32 = 0x1110;
pub const CL_IMAGE_ELEMENT_SIZE: u32 = 0x1111;
pub const CL_IMAGE_ROW_PITCH: u32 = 0x1112;
pub const CL_IMAGE_SLICE_PITCH: u32 = 0x1113;
pub const CL_IMAGE_WIDTH: u32 = 0x1114;
pub const CL_IMAGE_HEIGHT: u32 = 0x1115;
pub const CL_IMAGE_DEPTH: u32 = 0x1116;
pub const CL_IMAGE_ARRAY_SIZE: u32 = 0x1117;
pub const CL_IMAGE_BUFFER: u32 = 0x1118;
pub const CL_IMAGE_NUM_MIP_LEVELS: u32 = 0x1119;
pub const CL_IMAGE_NUM_SAMPLES: u32 = 0x111A;

// What can be asked about a GL texture.
pub const CL_GL_TEXTURE_TARGET: u32 = 0x2004;
pub const CL_GL_MIPMAP_LEVEL: u32 = 0x2005;

/// The answer to a query.
#[derive(Debug, PartialEq, Eq)]
pub enum InfoValue {
    /// The handle of a memory object, or 0 for none.
    Handle(usize),
    /// The identity of a context.
    Context(usize),
    Bitfield(u64),
    Uint(u32),
    Int(i32),
    /// A host address, or 0 for none.
    Ptr(usize),
    Size(usize),
    Bool(bool),
    Format(ImageFormat),
    /// A list of words: device addresses, or a property list.
    Words(Vec<u64>),
}

/// The answer to a query, as contracts see it.
pub enum Info {
    Handle(usize),
    Context(usize),
    Bitfield(u64),
    Uint(u32),
    Int(i32),
    Ptr(usize),
    Size(usize),
    Bool(bool),
    Format(ImageFormat),
    Words(Seq<u64>),
}

impl View for InfoValue {
    type V = Info;

    open spec fn view(&self) -> Info {
        match self {
            InfoValue::Handle(h) => Info::Handle(*h),
            InfoValue::Context(c) => Info::Context(*c),
            InfoValue::Bitfield(b) => Info::Bitfield(*b),
            InfoValue::Uint(u) => Info::Uint(*u),
            InfoValue::Int(i) => Info::Int(*i),
            InfoValue::Ptr(p) => Info::Ptr(*p),
            InfoValue::Size(s) => Info::Size(*s),
            InfoValue::Bool(b) => Info::Bool(*b),
            InfoValue::Format(f) => Info::Format(*f),
            InfoValue::Words(w) => Info::Words(w@),
        }
    }
}

/// The handle of the parent, or 0 where there is none.
pub open spec fn parent_handle(parent: Option<usize>) -> usize {
    match parent {
        Some(h) => h,
        None => 0,
    }
}

/// The words that spell out a property list: nothing for a list that was
/// left out, else the pairs and the closing zero.
pub open spec fn raw_props(pairs: Seq<(u64, u64)>, given: bool, words: Seq<u64>) -> bool {
    if given {
        words.len() == 2 * pairs.len() + 1 && terminated_at(words, pairs.len() as int) && pairs_of(
            words,
            pairs.len() as int,
        ) == pairs
    } else {
        words.len() == 0
    }
}

/// What a memory object answers to a query that has one answer whatever
/// the list of words may be; `refcnt` is the number of references to the
/// object. The device addresses and the properties are lists of words and
/// are stated apart.
pub open spec fn mem_info_plain(mem: MemState, q: u32, refcnt: u32) -> Result<Info, ClError> {
    if q == CL_MEM_ASSOCIATED_MEMOBJECT {
        Ok(Info::Handle(parent_handle(mem.parent)))
    } else if q == CL_MEM_CONTEXT {
        Ok(Info::Context(mem.context))
    } else if q == CL_MEM_FLAGS {
        Ok(Info::Bitfield(mem.flags))
    } else if q == CL_MEM_MAP_COUNT {
        Ok(Info::Uint(0))
    } else if q == CL_MEM_HOST_PTR {
        Ok(Info::Ptr(mem.host_ptr))
    } else if q == CL_MEM_OFFSET {
        Ok(
            Info::Size(
                if mem.mem_type == CL_MEM_OBJECT_BUFFER {
                    mem.offset
                } else {
                    0
                },
            ),
        )
    } else if q == CL_MEM_REFERENCE_COUNT {
        Ok(Info::Uint(refcnt))
    } else if q == CL_MEM_SIZE {
        Ok(Info::Size(mem.size))
    } else if q == CL_MEM_TYPE {
        Ok(Info::Uint(mem.mem_type))
    } else if q == CL_MEM_USES_SVM_POINTER || q == CL_MEM_USES_SVM_POINTER_ARM {
        Ok(Info::Bool(mem.svm))
    } else {
        Err(ClError::InvalidValue)
    }
}

/// Answers a query about a memory object. `refcnt` is the number of
/// references to the object, which the caller counts.
///
/// The device addresses are those of a buffer that has any; an object
/// that is no buffer is refused as a memory object, a buffer without
/// addresses as an operation. The properties are the words of the list
/// that the object was made with. A query that there is not is refused as
/// a value.
pub fn mem_info(mem: &MemObject, q: u32, refcnt: u32) -> (r: CLResult<InfoValue>)
    ensures
        q == CL_MEM_DEVICE_ADDRESS_EXT ==> (match r {
            Ok(v) => mem@.mem_type == CL_MEM_OBJECT_BUFFER && mem@.dev_addresses == Some(
                v@->Words_0,
            ) && v@ is Words,
            Err(e) => if mem@.mem_type != CL_MEM_OBJECT_BUFFER {
                e == ClError::InvalidMemObject
            } else {
                e == ClError::InvalidOperation && mem@.dev_addresses is None
            },
        }),
        q == CL_MEM_PROPERTIES ==> r is Ok && r->Ok_0@ is Words && raw_props(
            mem@.props,
            mem@.props_given,
            r->Ok_0@->Words_0,
        ),
        q != CL_MEM_DEVICE_ADDRESS_EXT && q != CL_MEM_PROPERTIES ==> (match r {
            Ok(v) => Ok::<Info, ClError>(v@) == mem_info_plain(mem@, q, refcnt),
            Err(e) => Err::<Info, ClError>(e) == mem_info_plain(mem@, q, refcnt),
        }),
{
    if q == CL_MEM_ASSOCIATED_MEMOBJECT {
        let handle: usize = match mem.parent() {
            Some(h) => h,
            None => 0,
        };
        Ok(InfoValue::Handle(handle))
    } else if q == CL_MEM_CONTEXT {
        Ok(InfoValue::Context(mem.context()))
    } else if q == CL_MEM_DEVICE_ADDRESS_EXT {
        if !mem.is_buffer() {
            return Err(ClError::InvalidMemObject);
        }
        match mem.dev_addresses() {
            Some(a) => Ok(InfoValue::Words(slice_to_vec(a.as_slice()))),
            None => Err(ClError::InvalidOperation),
        }
    } else if q == CL_MEM_FLAGS {
        Ok(InfoValue::Bitfield(mem.flags()))
    } else if q == CL_MEM_MAP_COUNT {
        Ok(InfoValue::Uint(0))
    } else if q == CL_MEM_HOST_PTR {
        Ok(InfoValue::Ptr(mem.host_ptr()))
    } else if q == CL_MEM_OFFSET {
        Ok(
            InfoValue::Size(
                if mem.is_buffer() {
                    mem.offset()
                } else {
                    0
                },
            ),
        )
    } else if q == CL_MEM_PROPERTIES {
        Ok(InfoValue::Words(mem.props().raw_data()))
    } else if q == CL_MEM_REFERENCE_COUNT {
        Ok(InfoValue::Uint(refcnt))
    } else if q == CL_MEM_SIZE {
        Ok(InfoValue::Size(mem.size()))
    } else if q == CL_MEM_TYPE {
        Ok(InfoValue::Uint(mem.mem_type()))
    } else if q == CL_MEM_USES_SVM_POINTER || q == CL_MEM_USES_SVM_POINTER_ARM {
        Ok(InfoValue::Bool(mem.is_svm()))
    } else {
        Err(ClError::InvalidValue)
    }
}

/// What an image answers to a query. The slice pitch of an image of one
/// dimension is zero. An object that is no image is refused as a memory
/// object, a query that there is not as a value.
pub open spec fn image_info_spec(mem: MemState, q: u32) -> Result<Info, ClError> {
    match mem.image {
        None => Err(ClError::InvalidMemObject),
        Some(i) => {
            if q == CL_IMAGE_ARRAY_SIZE {
                Ok(Info::Size(i.desc.image_array_size))
            } else if q == CL_IMAGE_BUFFER {
                Ok(Info::Handle(parent_handle(mem.parent)))
            } else if q == CL_IMAGE_DEPTH {
                Ok(Info::Size(i.desc.image_depth))
            } else if q == CL_IMAGE_ELEMENT_SIZE {
                Ok(Info::Size(i.elem_size as usize))
            } else if q == CL_IMAGE_FORMAT {
                Ok(Info::Format(i.format))
            } else if q == CL_IMAGE_HEIGHT {
                Ok(Info::Size(i.desc.image_height))
            } else if q == CL_IMAGE_NUM_MIP_LEVELS {
                Ok(Info::Uint(i.desc.num_mip_levels))
            } else if q == CL_IMAGE_NUM_SAMPLES {
                Ok(Info::Uint(i.desc.num_samples))
            } else if q == CL_IMAGE_ROW_PITCH {
                Ok(Info::Size(i.desc.image_row_pitch))
            } else if q == CL_IMAGE_SLICE_PITCH {
                Ok(
                    Info::Size(
                        if i.desc.spec_dims() == 1 {
                            0
                        } else {
                            i.desc.image_slice_pitch
                        },
                    ),
                )
            } else if q == CL_IMAGE_WIDTH {
                Ok(Info::Size(i.desc.image_width))
            } else {
                Err(ClError::InvalidValue)
            }
        },
    }
}

/// Answers a query about an image.
pub fn image_info(mem: &MemObject, q: u32) -> (r: CLResult<InfoValue>)
    requires
        mem.wf(),
    ensures
        match r {
            Ok(v) => Ok::<Info, ClError>(v@) == image_info_spec(mem@, q),
            Err(e) => Err::<Info, ClError>(e) == image_info_spec(mem@, q),
        },
{
    let i: ImageInfo = match mem.image() {
        Some(i) => i,
        None => {
            return Err(ClError::InvalidMemObject);
        },
    };
    if q == CL_IMAGE_ARRAY_SIZE {
        Ok(InfoValue::Size(i.desc.image_array_size))
    } else if q == CL_IMAGE_BUFFER {
        let handle: usize = match mem.parent() {
            Some(h) => h,
            None => 0,
        };
        Ok(InfoValue::Handle(handle))
    } else if q == CL_IMAGE_DEPTH {
        Ok(InfoValue::Size(i.desc.image_depth))
    } else if q == CL_IMAGE_ELEMENT_SIZE {
        Ok(InfoValue::Size(i.elem_size as usize))
    } else if q == CL_IMAGE_FORMAT {
        Ok(InfoValue::Format(i.format))
    } else if q == CL_IMAGE_HEIGHT {
        Ok(InfoValue::Size(i.desc.image_height))
    } else if q == CL_IMAGE_NUM_MIP_LEVELS {
        Ok(InfoValue::Uint(i.desc.num_mip_levels))
    } else if q == CL_IMAGE_NUM_SAMPLES {
        Ok(InfoValue::Uint(i.desc.num_samples))
    } else if q == CL_IMAGE_ROW_PITCH {
        Ok(InfoValue::Size(i.desc.image_row_pitch))
    } else if q == CL_IMAGE_SLICE_PITCH {
        Ok(
            InfoValue::Size(
                if i.desc.dims() == 1 {
                    0
                } else {
                    i.desc.image_slice_pitch
                },
            ),
        )
    } else if q == CL_IMAGE_WIDTH {
        Ok(InfoValue::Size(i.desc.image_width))
    } else {
        Err(ClError::InvalidValue)
    }
}

/// What a sampler answers to a query that has one answer whatever the list
/// of words may be; the properties are stated apart.
pub open spec fn sampler_info_plain(s: Sampler, q: u32, refcnt: u32) -> Result<Info, ClError> {
    if q == CL_SAMPLER_ADDRESSING_MODE {
        Ok(Info::Uint(s.addressing_mode))
    } else if q == CL_SAMPLER_CONTEXT {
        Ok(Info::Context(s.context))
    } else if q == CL_SAMPLER_FILTER_MODE {
        Ok(Info::Uint(s.filter_mode))
    } else if q == CL_SAMPLER_NORMALIZED_COORDS {
        Ok(Info::Bool(s.normalized_coords))
    } else if q == CL_SAMPLER_REFERENCE_COUNT {
        Ok(Info::Uint(refcnt))
    } else {
        Err(ClError::InvalidValue)
    }
}

/// Answers a query about a sampler. `refcnt` is the number of references
/// to the sampler, which the caller counts.
pub fn sampler_info(sampler: &Sampler, q: u32, refcnt: u32) -> (r: CLResult<InfoValue>)
    ensures
        q == CL_SAMPLER_PROPERTIES ==> r is Ok && r->Ok_0@ is Words && raw_props(
            sampler.props@,
            sampler.props.spec_is_given(),
            r->Ok_0@->Words_0,
        ),
        q != CL_SAMPLER_PROPERTIES ==> (match r {
            Ok(v) => Ok::<Info, ClError>(v@) == sampler_info_plain(*sampler, q, refcnt),
            Err(e) => Err::<Info, ClError>(e) == sampler_info_plain(*sampler, q, refcnt),
        }),
{
    if q == CL_SAMPLER_ADDRESSING_MODE {
        Ok(InfoValue::Uint(sampler.addressing_mode))
    } else if q == CL_SAMPLER_CONTEXT {
        Ok(InfoValue::Context(sampler.context))
    } else if q == CL_SAMPLER_FILTER_MODE {
        Ok(InfoValue::Uint(sampler.filter_mode))
    } else if q == CL_SAMPLER_NORMALIZED_COORDS {
        Ok(InfoValue::Bool(sampler.normalized_coords))
    } else if q == CL_SAMPLER_REFERENCE_COUNT {
        Ok(InfoValue::Uint(refcnt))
    } else if q == CL_SAMPLER_PROPERTIES {
        Ok(InfoValue::Words(sampler.props.raw_data()))
    } else {
        Err(ClError::InvalidValue)
    }
}

/// Answers a query about a pipe: there are no pipes, so no memory object
/// is one.
pub fn pipe_info(_mem: &MemObject, _q: u32) -> (r: CLResult<InfoValue>)
    ensures
        r is Err && r->Err_0 == ClError::InvalidMemObject,
{
    Err(ClError::InvalidMemObject)
}

/// What a memory object answers to a query about the GL texture that it
/// was made from: its mipmap level, which is always the base level, and
/// its texture target, which only an object made from a GL object has.
pub open spec fn gl_texture_info_spec(mem: MemState, q: u32) -> Result<Info, ClError> {
    if q == CL_GL_MIPMAP_LEVEL {
        Ok(Info::Int(0))
    } else if q == CL_GL_TEXTURE_TARGET {
        match mem.gl_obj {
            Some(o) => Ok(Info::Uint(o.gl_object_target)),
            None => Err(ClError::InvalidGlObject),
        }
    } else {
        Err(ClError::InvalidValue)
    }
}

/// Answers a query about the GL texture that a memory object was made
/// from.
pub fn gl_texture_info(mem: &MemObject, q: u32) -> (r: CLResult<InfoValue>)
    ensures
        match r {
            Ok(v) => Ok::<Info, ClError>(v@) == gl_texture_info_spec(mem@, q),
            Err(e) => Err::<Info, ClError>(e) == gl_texture_info_spec(mem@, q),
        },
{
    if q == CL_GL_MIPMAP_LEVEL {
        Ok(InfoValue::Int(0))
    } else if q == CL_GL_TEXTURE_TARGET {
        match mem.gl_obj() {
            Some(o) => Ok(InfoValue::Uint(o.gl_object_target)),
            None => Err(ClError::InvalidGlObject),
        }
    } else {
        Err(ClError::InvalidValue)
    }
}

} // verus!

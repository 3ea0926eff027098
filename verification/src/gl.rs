//! Memory objects made from GL objects: what is checked before a GL
//! object is taken over, and the commands that acquire and release such
//! objects.

use vstd::prelude::*;
use crate::command::{
    Submission, Work, CL_COMMAND_ACQUIRE_GL_OBJECTS, CL_COMMAND_RELEASE_GL_OBJECTS,
};
use crate::context::{Context, ContextState, Queue};
use crate::error::{CLResult, ClError};
use crate::flags::{mem_flags_valid, validate_mem_flags};
use crate::mem::{GLObject, MemObject};

verus! {
// The targets of GL objects.
pub const GL_TEXTURE_1D: u32 = 0x0DE0;
pub const GL_TEXTURE_2D: u32 = 0x0DE1;
pub const GL_TEXTURE_3D: u32 = 0x806F;
pub const GL_TEXTURE_RECTANGLE: u32 = 0x84F5;
pub const GL_TEXTURE_CUBE_MAP_POSITIVE_X: u32 = 0x8515;
pub const GL_TEXTURE_CUBE_MAP_NEGATIVE_X: u32 = 0x8516;
pub const GL_TEXTURE_CUBE_MAP_POSITIVE_Y: u32 = 0x8517;
pub const GL_TEXTURE_CUBE_MAP_NEGATIVE_Y: u32 = 0x8518;
pub const GL_TEXTURE_CUBE_MAP_POSITIVE_Z: u32 = 0x8519;
pub const GL_TEXTURE_CUBE_MAP_NEGATIVE_Z: u32 = 0x851A;
pub const GL_ARRAY_BUFFER: u32 = 0x8892;
pub const GL_TEXTURE_1D_ARRAY: u32 = 0x8C18;
pub const GL_TEXTURE_2D_ARRAY: u32 = 0x8C1A;
pub const GL_TEXTURE_BUFFER: u32 = 0x8C2A;
pub const GL_RENDERBUFFER: u32 = 0x8D41;

/// The target is a 2D texture, a rectangle texture or a face of a cube
/// map.
pub open spec fn gl_texture_2d_valid(target: u32) -> bool {
    target == GL_TEXTURE_2D || target == GL_TEXTURE_RECTANGLE || (GL_TEXTURE_CUBE_MAP_POSITIVE_X
        <= target <= GL_TEXTURE_CUBE_MAP_NEGATIVE_Z)
}

/// The target is a texture that a memory object can be made from.
pub open spec fn gl_texture_valid(target: u32) -> bool {
    target == GL_TEXTURE_1D || target == GL_TEXTURE_1D_ARRAY || target == GL_TEXTURE_BUFFER
        || target == GL_TEXTURE_2D_ARRAY || target == GL_TEXTURE_3D || gl_texture_2d_valid(target)
}

/// Whether the target is a 2D texture, a rectangle texture or a face of a
/// cube map.
pub fn is_valid_gl_texture_2d(target: u32) -> (r: bool)
    ensures
        r == gl_texture_2d_valid(target),
{
    target == GL_TEXTURE_2D || target == GL_TEXTURE_RECTANGLE || (GL_TEXTURE_CUBE_MAP_POSITIVE_X
        <= target && target <= GL_TEXTURE_CUBE_MAP_NEGATIVE_Z)
}

/// Whether the target is a texture that a memory object can be made from.
pub fn is_valid_gl_texture(target: u32) -> (r: bool)
    ensures
        r == gl_texture_valid(target),
{
    target == GL_TEXTURE_1D || target == GL_TEXTURE_1D_ARRAY || target == GL_TEXTURE_BUFFER
        || target == GL_TEXTURE_2D_ARRAY || target == GL_TEXTURE_3D || is_valid_gl_texture_2d(
        target,
    )
}

/// A GL object that is to be taken over as a memory object.
#[derive(Clone, Copy, Debug, PartialEq, Eq, Structural)]
pub struct GLImport {
    pub target: u32,
    pub flags: u64,
    pub miplevel: i32,
    pub object: u32,
}

/// What a request to make a memory object from a GL object comes to: the
/// object to take over, or the first rule that the request breaks. The
/// context was made from a GL context; the flags are valid for the class
/// of the object, which is a buffer where the target is a GL buffer and an
/// image for every other target; and the mipmap level is the base level.
pub open spec fn gl_import_checked(
    ctx: ContextState,
    flags: u64,
    target: u32,
    miplevel: i32,
    object: u32,
) -> Result<GLImport, ClError> {
    if !ctx.gl {
        Err(ClError::InvalidContext)
    } else if !mem_flags_valid(flags, target != GL_ARRAY_BUFFER) {
        Err(ClError::InvalidValue)
    } else if miplevel > 0 {
        Err(ClError::InvalidMipLevel)
    } else {
        Ok(GLImport { target, flags, miplevel, object })
    }
}

/// Checks a request to make a memory object from a GL object.
pub fn create_from_gl(c: &Context, flags: u64, target: u32, miplevel: i32, texture: u32) -> (r:
    CLResult<GLImport>)
    ensures
        r == gl_import_checked(c@, flags, target, miplevel, texture),
{
    if !c.has_gl() {
        return Err(ClError::InvalidContext);
    }
    validate_mem_flags(flags, target != GL_ARRAY_BUFFER)?;
    if miplevel > 0 {
        return Err(ClError::InvalidMipLevel);
    }
    Ok(GLImport { target, flags, miplevel, object: texture })
}

/// Checks a request to make an image from a GL texture of any kind.
pub fn create_from_gl_texture(
    c: &Context,
    flags: u64,
    target: u32,
    miplevel: i32,
    texture: u32,
) -> (r: CLResult<GLImport>)
    ensures
        r == (if gl_texture_valid(target) {
            gl_import_checked(c@, flags, target, miplevel, texture)
        } else {
            Err(ClError::InvalidValue)
        }),
{
    if !is_valid_gl_texture(target) {
        return Err(ClError::InvalidValue);
    }
    create_from_gl(c, flags, target, miplevel, texture)
}

/// Checks a request to make an image from a 2D GL texture.
pub fn create_from_gl_texture_2d(
    c: &Context,
    flags: u64,
    target: u32,
    miplevel: i32,
    texture: u32,
) -> (r: CLResult<GLImport>)
    ensures
        r == (if gl_texture_2d_valid(target) {
            gl_import_checked(c@, flags, target, miplevel, texture)
        } else {
            Err(ClError::InvalidValue)
        }),
{
    if !is_valid_gl_texture_2d(target) {
        return Err(ClError::InvalidValue);
    }
    create_from_gl(c, flags, target, miplevel, texture)
}

/// Checks a request to make an image from a 3D GL texture.
pub fn create_from_gl_texture_3d(
    c: &Context,
    flags: u64,
    target: u32,
    miplevel: i32,
    texture: u32,
) -> (r: CLResult<GLImport>)
    ensures
        r == (if target == GL_TEXTURE_3D {
            gl_import_checked(c@, flags, target, miplevel, texture)
        } else {
            Err(ClError::InvalidValue)
        }),
{
    if target != GL_TEXTURE_3D {
        return Err(ClError::InvalidValue);
    }
    create_from_gl(c, flags, target, miplevel, texture)
}

/// Checks a request to make a buffer from a GL buffer.
pub fn create_from_gl_buffer(c: &Context, flags: u64, bufobj: u32) -> (r: CLResult<GLImport>)
    ensures
        r == gl_import_checked(c@, flags, GL_ARRAY_BUFFER, 0, bufobj),
{
    create_from_gl(c, flags, GL_ARRAY_BUFFER, 0, bufobj)
}

/// Checks a request to make an image from a GL renderbuffer.
pub fn create_from_gl_renderbuffer(c: &Context, flags: u64, renderbuffer: u32) -> (r: CLResult<
    GLImport,
>)
    ensures
        r == gl_import_checked(c@, flags, GL_RENDERBUFFER, 0, renderbuffer),
{
    create_from_gl(c, flags, GL_RENDERBUFFER, 0, renderbuffer)
}

/// The GL object that a memory object was made from; an object that was
/// made otherwise has none.
pub fn get_gl_object_info(memobj: &MemObject) -> (r: CLResult<GLObject>)
    ensures
        match memobj@.gl_obj {
            Some(o) => r == Ok::<GLObject, ClError>(o),
            None => r == Err::<GLObject, ClError>(ClError::InvalidGlObject),
        },
{
    match memobj.gl_obj() {
        Some(o) => Ok(o),
        None => Err(ClError::InvalidGlObject),
    }
}

/// Why the memory objects cannot be acquired from GL, or released to it;
/// none where they can: the context of the queue was made from a GL
/// context, and every object was made from a GL object.
pub open spec fn gl_objects_error(q: Queue, ctx: ContextState, objects: Seq<&MemObject>) -> Option<
    ClError,
> {
    if ctx.id != q.context || !ctx.gl {
        Some(ClError::InvalidContext)
    } else if exists|i: int| 0 <= i < objects.len() && (#[trigger] objects[i])@.gl_obj is None {
        Some(ClError::InvalidGlObject)
    } else {
        None
    }
}

/// The handles of the objects, in their order.
pub open spec fn handles_of(objects: Seq<&MemObject>) -> Seq<usize> {
    Seq::new(objects.len(), |i: int| objects[i]@.handle)
}

fn check_gl_objects(q: &Queue, c: &Context, objects: &[&MemObject]) -> (r: CLResult<Vec<usize>>)
    ensures
        match r {
            Ok(h) => gl_objects_error(*q, c@, objects@) is None && h@ == handles_of(objects@),
            Err(e) => gl_objects_error(*q, c@, objects@) == Some(e),
        },
{
    if c.id() != q.context || !c.has_gl() {
        return Err(ClError::InvalidContext);
    }
    let mut handles: Vec<usize> = Vec::new();
    let mut i: usize = 0;
    while i < objects.len()
        invariant
            i <= objects.len(),
            c@.id == q.context,
            c@.gl,
            handles@.len() == i,
            forall|j: int| 0 <= j < i ==> (#[trigger] objects@[j])@.gl_obj is Some,
            forall|j: int| 0 <= j < i ==> #[trigger] handles@[j] == objects@[j]@.handle,
        decreases objects.len() - i,
    {
        let o: &MemObject = objects[i];
        if o.gl_obj().is_none() {
            return Err(ClError::InvalidGlObject);
        }
        handles.push(o.handle());
        i = i + 1;
    }
    Ok(handles)
}

/// Accepts a command that acquires memory objects from GL. `c` is the
/// context of the queue.
pub fn enqueue_acquire_gl_objects(q: &Queue, c: &Context, mem_objects: &[&MemObject]) -> (r:
    CLResult<Submission>)
    ensures
        match r {
            Ok(s) => gl_objects_error(*q, c@, mem_objects@) is None && s.cmd_type
                == CL_COMMAND_ACQUIRE_GL_OBJECTS && !s.blocking && (
            s.work matches Work::AcquireGLObjects { objects } && objects@ == handles_of(
                mem_objects@,
            )),
            Err(e) => gl_objects_error(*q, c@, mem_objects@) == Some(e),
        },
{
    let objects: Vec<usize> = check_gl_objects(q, c, mem_objects)?;
    Ok(
        Submission {
            cmd_type: CL_COMMAND_ACQUIRE_GL_OBJECTS,
            blocking: false,
            work: Work::AcquireGLObjects { objects },
        },
    )
}

/// Accepts a command that releases memory objects to GL. `c` is the
/// context of the queue.
pub fn enqueue_release_gl_objects(q: &Queue, c: &Context, mem_objects: &[&MemObject]) -> (r:
    CLResult<Submission>)
    ensures
        match r {
            Ok(s) => gl_objects_error(*q, c@, mem_objects@) is None && s.cmd_type
                == CL_COMMAND_RELEASE_GL_OBJECTS && !s.blocking && (
            s.work matches Work::ReleaseGLObjects { objects } && objects@ == handles_of(
                mem_objects@,
            )),
            Err(e) => gl_objects_error(*q, c@, mem_objects@) == Some(e),
        },
{
    let objects: Vec<usize> = check_gl_objects(q, c, mem_objects)?;
    Ok(
        Submission {
            cmd_type: CL_COMMAND_RELEASE_GL_OBJECTS,
            blocking: false,
            work: Work::ReleaseGLObjects { objects },
        },
    )
}

} // verus!

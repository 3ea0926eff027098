//! What a transfer request comes to once it has been accepted: a unit of
//! work for the engine that runs the queue, with the type of the command
//! and whether the caller waits for it.

use vstd::prelude::*;
use crate::util::CLVec;

verus! {
// The types of commands.
pub const CL_COMMAND_READ_BUFFER: u32 = 0x11F3;
pub const CL_COMMAND_WRITE_BUFFER: u32 = 0x11F4;
pub const CL_COMMAND_COPY_BUFFER: u32 = 0x11F5;
pub const CL_COMMAND_READ_IMAGE: u32 = 0x11F6;
pub const CL_COMMAND_WRITE_IMAGE: u32 = 0x11F7;
pub const CL_COMMAND_COPY_IMAGE: u32 = 0x11F8;
pub const CL_COMMAND_COPY_IMAGE_TO_BUFFER: u32 = 0x11F9;
pub const CL_COMMAND_COPY_BUFFER_TO_IMAGE: u32 = 0x11FA;
pub const CL_COMMAND_MAP_BUFFER: u32 = 0x11FB;
pub const CL_COMMAND_MAP_IMAGE: u32 = 0x11FC;
pub const CL_COMMAND_UNMAP_MEM_OBJECT: u32 = 0x11FD;
pub const CL_COMMAND_ACQUIRE_GL_OBJECTS: u32 = 0x11FF;
pub const CL_COMMAND_RELEASE_GL_OBJECTS: u32 = 0x1200;
pub const CL_COMMAND_READ_BUFFER_RECT: u32 = 0x1201;
pub const CL_COMMAND_WRITE_BUFFER_RECT: u32 = 0x1202;
pub const CL_COMMAND_COPY_BUFFER_RECT: u32 = 0x1203;
pub const CL_COMMAND_MIGRATE_MEM_OBJECTS: u32 = 0x1206;
pub const CL_COMMAND_FILL_BUFFER: u32 = 0x1207;
pub const CL_COMMAND_FILL_IMAGE: u32 = 0x1208;
pub const CL_COMMAND_SVM_FREE: u32 = 0x1209;
pub const CL_COMMAND_SVM_MEMCPY: u32 = 0x120A;
pub const CL_COMMAND_SVM_MEMFILL: u32 = 0x120B;
pub const CL_COMMAND_SVM_MAP: u32 = 0x120C;
pub const CL_COMMAND_SVM_UNMAP: u32 = 0x120D;
pub const CL_COMMAND_SVM_MIGRATE_MEM: u32 = 0x120E;
pub const CL_COMMAND_SVM_FREE_ARM: u32 = 0x40BA;
pub const CL_COMMAND_SVM_MEMCPY_ARM: u32 = 0x40BB;
pub const CL_COMMAND_SVM_MEMFILL_ARM: u32 = 0x40BC;
pub const CL_COMMAND_SVM_MAP_ARM: u32 = 0x40BD;
pub const CL_COMMAND_SVM_UNMAP_ARM: u32 = 0x40BE;

/// A pitched box in linear memory: where it begins, and how far apart its
/// rows and slices lie.
#[derive(Clone, Copy, Debug, PartialEq, Eq, Structural)]
pub struct Layout {
    pub origin: CLVec,
    pub row_pitch: usize,
    pub slice_pitch: usize,
}

/// The function that frees shared virtual memory in place of the library,
/// and the word that is handed to it.
#[derive(Clone, Copy, Debug, PartialEq, Eq, Structural)]
pub struct SvmFreeCB {
    pub func: usize,
    pub user_data: usize,
}

/// A unit of work. Memory objects are named by their handles, host memory
/// by its address.
#[derive(Debug, PartialEq, Eq)]
pub enum Work {
    /// There is nothing to do but to complete.
    Nothing,
    ReadBuffer { buffer: usize, offset: usize, ptr: usize, size: usize },
    WriteBuffer { buffer: usize, offset: usize, ptr: usize, size: usize },
    CopyBuffer { src: usize, dst: usize, src_offset: usize, dst_offset: usize, size: usize },
    ReadBufferRect {
        buffer: usize,
        ptr: usize,
        region: CLVec,
        buffer_layout: Layout,
        host_layout: Layout,
    },
    WriteBufferRect {
        buffer: usize,
        ptr: usize,
        region: CLVec,
        buffer_layout: Layout,
        host_layout: Layout,
    },
    CopyBufferRect {
        src: usize,
        dst: usize,
        region: CLVec,
        src_layout: Layout,
        dst_layout: Layout,
    },
    FillBuffer { buffer: usize, pattern: Vec<u8>, offset: usize, size: usize },
    /// Bring the content of a mapped region to the host.
    SyncMap { mem: usize, ptr: usize },
    /// Bring the content of a region that was mapped back to the device.
    SyncUnmap { mem: usize, ptr: usize },
    ReadImage {
        image: usize,
        ptr: usize,
        origin: CLVec,
        region: CLVec,
        row_pitch: usize,
        slice_pitch: usize,
    },
    WriteImage {
        image: usize,
        ptr: usize,
        origin: CLVec,
        region: CLVec,
        row_pitch: usize,
        slice_pitch: usize,
    },
    CopyImage { src: usize, dst: usize, src_origin: CLVec, dst_origin: CLVec, region: CLVec },
    FillImage { image: usize, fill_color: (u32, u32, u32, u32), origin: CLVec, region: CLVec },
    CopyBufferToImage {
        src: usize,
        dst: usize,
        src_offset: usize,
        dst_origin: CLVec,
        region: CLVec,
    },
    CopyImageToBuffer {
        src: usize,
        dst: usize,
        src_origin: CLVec,
        dst_offset: usize,
        region: CLVec,
    },
    /// Free the allocations, through the callback where there is one.
    SvmFree { pointers: Vec<usize>, callback: Option<SvmFreeCB> },
    SvmMemcpy { src: usize, dst: usize, size: usize },
    SvmMemFill { ptr: usize, size: usize, pattern: Vec<u8> },
    SvmMap { ptr: usize, flags: u64 },
    SvmMigrate {
        pointers: Vec<usize>,
        sizes: Vec<usize>,
        to_device: bool,
        content_undefined: bool,
    },
    AcquireGLObjects { objects: Vec<usize> },
    ReleaseGLObjects { objects: Vec<usize> },
}

/// An accepted request, ready for the engine.
#[derive(Debug, PartialEq, Eq)]
pub struct Submission {
    pub cmd_type: u32,
    /// Whether the caller waits until the work is done.
    pub blocking: bool,
    pub work: Work,
}

} // verus!

//! Result codes reported by the validations of this crate.

use vstd::prelude::*;

verus! {
/// A validation failure, one variant per result code.
#[derive(Clone, Copy, Debug, PartialEq, Eq, Structural)]
pub enum ClError {
    /// A memory object could not get its backing store.
    MemObjectAllocationFailure,
    /// The host could not provide memory.
    OutOfHostMemory,
    /// A copy whose source and destination share bytes.
    MemCopyOverlap,
    /// Source and destination images differ in format.
    ImageFormatMismatch,
    /// No device supports the image format with the requested access.
    ImageFormatNotSupported,
    /// A region could not be mapped into host memory.
    MapFailure,
    /// A sub-buffer whose offset a device cannot address.
    MisalignedSubBufferOffset,
    /// An argument outside its documented set of values.
    InvalidValue,
    /// An object that belongs to another context.
    InvalidContext,
    /// A host pointer that does not agree with the flags.
    InvalidHostPtr,
    /// A memory object of the wrong kind.
    InvalidMemObject,
    /// A channel order and data type that do not go together.
    InvalidImageFormatDescriptor,
    /// Image dimensions beyond what the devices report.
    InvalidImageSize,
    /// An operation the object or the device does not permit.
    InvalidOperation,
    /// A memory object that was not made from a GL object.
    InvalidGlObject,
    /// A buffer of size zero, or larger than the devices allow.
    InvalidBufferSize,
    /// A mip level other than the base level.
    InvalidMipLevel,
    /// A property list with an unknown or repeated key.
    InvalidProperty,
    /// An image descriptor whose fields contradict each other.
    InvalidImageDescriptor,
}

/// What every fallible entry point returns.
pub type CLResult<T> = Result<T, ClError>;

impl ClError {
    /// The numeric result code of the error.
    pub open spec fn spec_code(self) -> int {
        match self {
            ClError::MemObjectAllocationFailure => -4,
            ClError::OutOfHostMemory => -6,
            ClError::MemCopyOverlap => -8,
            ClError::ImageFormatMismatch => -9,
            ClError::ImageFormatNotSupported => -10,
            ClError::MapFailure => -12,
            ClError::MisalignedSubBufferOffset => -13,
            ClError::InvalidValue => -30,
            ClError::InvalidContext => -34,
            ClError::InvalidHostPtr => -37,
            ClError::InvalidMemObject => -38,
            ClError::InvalidImageFormatDescriptor => -39,
            ClError::InvalidImageSize => -40,
            ClError::InvalidOperation => -59,
            ClError::InvalidGlObject => -60,
            ClError::InvalidBufferSize => -61,
            ClError::InvalidMipLevel => -62,
            ClError::InvalidProperty => -64,
            ClError::InvalidImageDescriptor => -65,
        }
    }

    /// The numeric result code of the error.
    pub fn code(self) -> (c: i32)
        ensures
            c == self.spec_code(),
    {
        match self {
            ClError::MemObjectAllocationFailure => -4,
            ClError::OutOfHostMemory => -6,
            ClError::MemCopyOverlap => -8,
            ClError::ImageFormatMismatch => -9,
            ClError::ImageFormatNotSupported => -10,
            ClError::MapFailure => -12,
            ClError::MisalignedSubBufferOffset => -13,
            ClError::InvalidValue => -30,
            ClError::InvalidContext => -34,
            ClError::InvalidHostPtr => -37,
            ClError::InvalidMemObject => -38,
            ClError::InvalidImageFormatDescriptor => -39,
            ClError::InvalidImageSize => -40,
            ClError::InvalidOperation => -59,
            ClError::InvalidGlObject => -60,
            ClError::InvalidBufferSize => -61,
            ClError::InvalidMipLevel => -62,
            ClError::InvalidProperty => -64,
            ClError::InvalidImageDescriptor => -65,
        }
    }
}

} // verus!

//! The memory objects of an OpenCL-style compute API: buffers, sub-buffers,
//! images, samplers and shared virtual memory, and the commands that move
//! data between them.
//!
//! The crate decides; it touches no memory of the caller and runs no
//! command. A request for an object is checked against the flags, the
//! limits of the devices and the object it derives from, and comes back as
//! the object or as the first rule that the request breaks. A request for
//! a transfer is checked against the objects it names and comes back as a
//! unit of work for the engine that runs the queue. Host memory is named by
//! its address, with 0 for none; what the caller may leave out is an
//! `Option`.
//!
//! Every function is verified against its contract. The contracts speak
//! of the objects through their views (`MemState`, `ContextState`), and of
//! the rules through the spec functions beside each function.

pub mod buffer;
pub mod command;
pub mod context;
pub mod desc;
pub mod device;
pub mod error;
pub mod flags;
pub mod format;
pub mod gl;
pub mod image;
pub mod image_transfer;
pub mod map;
pub mod mem;
pub mod properties;
pub mod query;
pub mod sampler;
pub mod svm;
pub mod svm_ops;
pub mod transfer;
pub mod util;

//! The protocol core of a zygote process manager.
//!
//! A zygote is a small process, cloned off its parent early, into which the
//! parent dispatches tasks: it sends the code address of a function and its
//! serialized arguments, and receives the serialized result or the error that
//! the task ended in. File descriptors travel with either.
//!
//! This crate holds what such a manager decides and what it puts on the wire:
//! the layout of a frame and of its descriptor chunks, the side-channel that
//! pairs descriptors with a payload, the errors that cross the process
//! boundary, and the readings of the system calls that create a process. It
//! performs no I/O and creates no process itself.

pub mod call;
pub mod codec;
pub mod error;
pub mod fd;
pub mod fds;
pub mod pipe;
pub mod process;
pub mod task;
pub mod wire;

pub use error::{Error, WireError};
pub use fd::WireFd;

//! Decoder for user-mode minidump files.
//!
//! A minidump records the memory, threads, loaded modules and open handles of a
//! process at the time of its capture. `UserDump::parse` decodes one from the
//! bytes of its file, without copying them: the header and the stream directory
//! are validated, and each stream is decoded into a map of its entities.

pub mod bytes;
pub mod context;
pub mod data;
pub mod error;
pub mod handle;
pub mod memory;
pub mod module;
pub mod order;
pub mod parse;
pub mod stream;
pub mod system;
pub mod text;
pub mod thread;

pub use parse::{
    Arch, Handle, Handles, Memory, Memorys, MinidumpStream, Module, Modules, System, Thread,
    ThreadContext, Threads, UserDump,
};

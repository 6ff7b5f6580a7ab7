//! Errors reported while a minidump is opened and decoded.

use vstd::prelude::*;

verus! {

/// Represents errors that may occur during the processing of a minidump file.
#[derive(Debug, Clone, Copy, PartialEq, Eq, Structural)]
pub enum UserDmpError {
    /// The file could not be opened or read by the buffer provider.
    FileOpenError,
    /// The buffer does not start with the minidump signature.
    InvalidSignature,
    /// The header has at least one bit of `DUMP_FLAGS` set; carries the header's flags.
    InvalidFlags(u64),
    /// The system information names an architecture that is neither x86 nor x64;
    /// carries the raw architecture tag.
    UnsupportedArchitecture(u16),
    /// A module or memory record describes an empty address range, or one that
    /// does not end within the 64-bit address space.
    InvalidMemoryRange,
    /// The buffer provider could not create a file mapping.
    CreateFileMappingError,
    /// The buffer provider could not map a view of the file (Windows).
    MapViewOfFileError,
    /// The buffer provider could not map the file (Unix).
    MmapError,
    /// A record with a fixed layout does not lie inside the buffer, or declares a
    /// size smaller than its fixed fields; carries the offset at which the record
    /// or its stream starts.
    MalformedRecord(u64),
    /// Data addressed by a relative offset does not lie inside the buffer;
    /// carries the offset, or, for the content of a range of the memory64
    /// stream, the start address of the range.
    AddressNotFound(u64),
    /// A thread context has the wrong size for the architecture of the dump, or
    /// the architecture is not known.
    InvalidContext,
}

} // verus!

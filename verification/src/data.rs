//! The records of the minidump format, as they lie in the file.
//!
//! Every record has a fixed layout of little-endian fields. `Record::decoded` says
//! which value a record has at a given place of a byte sequence, and
//! `Record::decode` computes it.
#![allow(non_snake_case, non_camel_case_types)]

pub use crate::context::{CONTEXT_X64, CONTEXT_X86};

use crate::bytes::{
    array_fits, array_of, fits, has_room, has_room_for_array, le_u16, le_u32, le_u64, read_u16,
    read_u32, read_u64, read_u64s,
};
use crate::error::UserDmpError;
use vstd::prelude::*;

verus! {

/// Maximum number of parameters associated with an exception.
pub const EXCEPTION_MAXIMUM_PARAMETERS: usize = 15;

/// Signature that identifies minidump files ("MDMP" in ASCII).
pub const MINIDUMP_SIGNATURE: u32 = 0x504D_444D;

/// The header flags that this decoder does not accept.
pub const DUMP_FLAGS: u64 = 0x001F_FFFF;

/// Architecture code for 64-bit systems (x86_64).
pub const ARCH_X64: u16 = 9;

/// Architecture code for 32-bit systems (x86).
pub const ARCH_X86: u16 = 0;

/// A value with a fixed layout in the file.
pub trait Record: Sized {
    /// The number of bytes that the value occupies.
    spec fn size() -> nat;

    /// The value that lies in `bytes` at `at`.
    spec fn decoded(bytes: Seq<u8>, at: int) -> Self;

    /// The number of bytes that the value occupies.
    fn encoded_size() -> (n: usize)
        ensures
            n == Self::size(),
            n > 0,
    ;

    /// Decodes the value that lies in `buf` at `at`.
    fn decode(buf: &[u8], at: usize) -> (r: Self)
        requires
            at + Self::size() <= buf.len(),
        ensures
            r == Self::decoded(buf@, at as int),
    ;
}

/// The `count` values that lie `stride` bytes apart in `bytes`, the first of them at
/// `at`.
pub open spec fn records<T: Record>(bytes: Seq<u8>, at: int, count: nat, stride: nat) -> Seq<T> {
    Seq::new(count, |i: int| T::decoded(bytes, at + i * stride))
}

/// Decodes `count` values that lie `stride` bytes apart, the first of them at `at`.
pub fn read_records<T: Record>(buf: &[u8], at: usize, count: usize, stride: usize) -> (v: Vec<T>)
    requires
        T::size() <= stride,
        array_fits(buf@.len(), at as int, count as nat, stride as nat, T::size()),
    ensures
        v@ == records::<T>(buf@, at as int, count as nat, stride as nat),
{
    let mut v: Vec<T> = Vec::new();
    let mut i: usize = 0;
    let mut pos: usize = at;
    while i < count
        invariant
            i <= count,
            i < count ==> pos == at + i * stride,
            T::size() <= stride,
            array_fits(buf@.len(), at as int, count as nat, stride as nat, T::size()),
            v@ == records::<T>(buf@, at as int, i as nat, stride as nat),
            buf@.len() == buf.len(),
        decreases count - i,
    {
        proof {
            assert(i * stride <= (count - 1) * stride) by (nonlinear_arith)
                requires
                    i <= count - 1,
                    stride >= 0,
            ;
        }
        let item = T::decode(buf, pos);
        v.push(item);
        i += 1;
        if i < count {
            proof {
                assert(i * stride <= (count - 1) * stride) by (nonlinear_arith)
                    requires
                        i <= count - 1,
                        stride >= 0,
                ;
                assert(i * stride == (i - 1) * stride + stride) by (nonlinear_arith);
            }
            pos += stride;
        }
    }
    v
}

impl Record for u16 {
    open spec fn size() -> nat {
        2
    }

    open spec fn decoded(bytes: Seq<u8>, at: int) -> Self {
        le_u16(bytes, at)
    }

    fn encoded_size() -> usize {
        2
    }

    fn decode(buf: &[u8], at: usize) -> Self {
        read_u16(buf, at)
    }
}

/// The attributes of a module file, as a bit mask.
#[derive(Debug, Clone, Copy, PartialEq, Eq)]
pub struct VS_FIXEDFILEINFO_FILE_FLAGS(pub u32);

/// The operating system that a module file was built for.
#[derive(Debug, Clone, Copy, PartialEq, Eq)]
pub struct VS_FIXEDFILEINFO_FILE_OS(pub u32);

/// Where a block of data lies in the dump: its size and its offset from the start of
/// the buffer.
#[derive(Debug, Clone, Copy, PartialEq, Eq)]
pub struct MINIDUMP_LOCATION_DESCRIPTOR {
    /// The size of the data, in bytes.
    pub DataSize: u32,
    /// The offset of the data from the start of the buffer.
    pub RVA: u32,
}

impl Record for MINIDUMP_LOCATION_DESCRIPTOR {
    open spec fn size() -> nat {
        8
    }

    open spec fn decoded(bytes: Seq<u8>, at: int) -> Self {
        MINIDUMP_LOCATION_DESCRIPTOR {
            DataSize: le_u32(bytes, at),
            RVA: le_u32(bytes, at + 4),
        }
    }

    fn encoded_size() -> usize {
        8
    }

    fn decode(buf: &[u8], at: usize) -> Self {
        MINIDUMP_LOCATION_DESCRIPTOR {
            DataSize: read_u32(buf, at),
            RVA: read_u32(buf, at + 4),
        }
    }
}

/// A range of memory and the place of its content in the dump.
#[derive(Debug, Clone, Copy, PartialEq, Eq)]
pub struct MINIDUMP_MEMORY_DESCRIPTOR {
    /// The starting address of the memory range.
    pub StartOfMemoryRange: u64,
    /// Where the content of the range lies.
    pub Memory: MINIDUMP_LOCATION_DESCRIPTOR,
}

impl Record for MINIDUMP_MEMORY_DESCRIPTOR {
    open spec fn size() -> nat {
        16
    }

    open spec fn decoded(bytes: Seq<u8>, at: int) -> Self {
        MINIDUMP_MEMORY_DESCRIPTOR {
            StartOfMemoryRange: le_u64(bytes, at),
            Memory: MINIDUMP_LOCATION_DESCRIPTOR::decoded(bytes, at + 8),
        }
    }

    fn encoded_size() -> usize {
        16
    }

    fn decode(buf: &[u8], at: usize) -> Self {
        MINIDUMP_MEMORY_DESCRIPTOR {
            StartOfMemoryRange: read_u64(buf, at),
            Memory: MINIDUMP_LOCATION_DESCRIPTOR::decode(buf, at + 8),
        }
    }
}

/// The header at the start of every minidump.
#[derive(Debug, Clone, Copy, PartialEq, Eq)]
pub struct MINIDUMP_HEADER {
    /// The signature, `MINIDUMP_SIGNATURE` in a valid dump.
    pub Signature: u32,
    /// The version of the minidump format.
    pub Version: u32,
    /// The number of entries in the stream directory.
    pub NumberOfStreams: u32,
    /// The offset of the stream directory.
    pub StreamDirectoryRva: u32,
    /// The checksum of the file; not checked.
    pub CheckSum: u32,
    /// Reserved.
    pub Reserved: u32,
    /// Time and date of the capture, in `time_t` format.
    pub TimeDateStamp: u32,
    /// The kinds of data that the dump was written with.
    pub Flags: u64,
}

impl Record for MINIDUMP_HEADER {
    open spec fn size() -> nat {
        36
    }

    open spec fn decoded(bytes: Seq<u8>, at: int) -> Self {
        MINIDUMP_HEADER {
            Signature: le_u32(bytes, at),
            Version: le_u32(bytes, at + 4),
            NumberOfStreams: le_u32(bytes, at + 8),
            StreamDirectoryRva: le_u32(bytes, at + 12),
            CheckSum: le_u32(bytes, at + 16),
            Reserved: le_u32(bytes, at + 20),
            TimeDateStamp: le_u32(bytes, at + 24),
            Flags: le_u64(bytes, at + 28),
        }
    }

    fn encoded_size() -> usize {
        36
    }

    fn decode(buf: &[u8], at: usize) -> Self {
        MINIDUMP_HEADER {
            Signature: read_u32(buf, at),
            Version: read_u32(buf, at + 4),
            NumberOfStreams: read_u32(buf, at + 8),
            StreamDirectoryRva: read_u32(buf, at + 12),
            CheckSum: read_u32(buf, at + 16),
            Reserved: read_u32(buf, at + 20),
            TimeDateStamp: read_u32(buf, at + 24),
            Flags: read_u64(buf, at + 28),
        }
    }
}

/// One entry of the stream directory: the type of a stream and where it lies.
#[derive(Debug, Clone, Copy, PartialEq, Eq)]
pub struct MINIDUMP_DIRECTORY {
    /// The numeric type of the stream.
    pub StreamType: u32,
    /// Where the stream lies.
    pub Location: MINIDUMP_LOCATION_DESCRIPTOR,
}

impl Record for MINIDUMP_DIRECTORY {
    open spec fn size() -> nat {
        12
    }

    open spec fn decoded(bytes: Seq<u8>, at: int) -> Self {
        MINIDUMP_DIRECTORY {
            StreamType: le_u32(bytes, at),
            Location: MINIDUMP_LOCATION_DESCRIPTOR::decoded(bytes, at + 4),
        }
    }

    fn encoded_size() -> usize {
        12
    }

    fn decode(buf: &[u8], at: usize) -> Self {
        MINIDUMP_DIRECTORY {
            StreamType: read_u32(buf, at),
            Location: MINIDUMP_LOCATION_DESCRIPTOR::decode(buf, at + 4),
        }
    }
}

/// The exception that a dump was captured for.
#[derive(Debug, Clone, Copy, PartialEq, Eq)]
pub struct MINIDUMP_EXCEPTION {
    /// The reason the exception occurred.
    pub ExceptionCode: u32,
    /// Zero for a continuable exception.
    pub ExceptionFlags: u32,
    /// The address of an associated exception record.
    pub ExceptionRecord: u64,
    /// The address where the exception occurred.
    pub ExceptionAddress: u64,
    /// The number of entries of `ExceptionInformation` in use.
    pub NumberParameters: u32,
    /// Alignment padding.
    pub unusedAlignment: u32,
    /// Additional arguments that describe the exception.
    pub ExceptionInformation: [u64; EXCEPTION_MAXIMUM_PARAMETERS],
}

impl Record for MINIDUMP_EXCEPTION {
    open spec fn size() -> nat {
        152
    }

    open spec fn decoded(bytes: Seq<u8>, at: int) -> Self {
        MINIDUMP_EXCEPTION {
            ExceptionCode: le_u32(bytes, at),
            ExceptionFlags: le_u32(bytes, at + 4),
            ExceptionRecord: le_u64(bytes, at + 8),
            ExceptionAddress: le_u64(bytes, at + 16),
            NumberParameters: le_u32(bytes, at + 24),
            unusedAlignment: le_u32(bytes, at + 28),
            ExceptionInformation: array_of(
                Seq::new(
                    EXCEPTION_MAXIMUM_PARAMETERS as nat,
                    |j: int| le_u64(bytes, at + 32 + 8 * j),
                ),
            ),
        }
    }

    fn encoded_size() -> usize {
        152
    }

    fn decode(buf: &[u8], at: usize) -> Self {
        MINIDUMP_EXCEPTION {
            ExceptionCode: read_u32(buf, at),
            ExceptionFlags: read_u32(buf, at + 4),
            ExceptionRecord: read_u64(buf, at + 8),
            ExceptionAddress: read_u64(buf, at + 16),
            NumberParameters: read_u32(buf, at + 24),
            unusedAlignment: read_u32(buf, at + 28),
            ExceptionInformation: read_u64s(buf, at + 32),
        }
    }
}

/// The content of the exception stream.
#[derive(Debug, Clone, Copy, PartialEq, Eq)]
pub struct MINIDUMP_EXCEPTION_STREAM {
    /// The identifier of the thread that caused the exception.
    pub ThreadId: u32,
    /// Alignment padding.
    pub alignment: u32,
    /// The exception.
    pub ExceptionRecord: MINIDUMP_EXCEPTION,
    /// Where the context of the faulting thread lies.
    pub ThreadContext: MINIDUMP_LOCATION_DESCRIPTOR,
}

impl Record for MINIDUMP_EXCEPTION_STREAM {
    open spec fn size() -> nat {
        168
    }

    open spec fn decoded(bytes: Seq<u8>, at: int) -> Self {
        MINIDUMP_EXCEPTION_STREAM {
            ThreadId: le_u32(bytes, at),
            alignment: le_u32(bytes, at + 4),
            ExceptionRecord: MINIDUMP_EXCEPTION::decoded(bytes, at + 8),
            ThreadContext: MINIDUMP_LOCATION_DESCRIPTOR::decoded(bytes, at + 160),
        }
    }

    fn encoded_size() -> usize {
        168
    }

    fn decode(buf: &[u8], at: usize) -> Self {
        MINIDUMP_EXCEPTION_STREAM {
            ThreadId: read_u32(buf, at),
            alignment: read_u32(buf, at + 4),
            ExceptionRecord: MINIDUMP_EXCEPTION::decode(buf, at + 8),
            ThreadContext: MINIDUMP_LOCATION_DESCRIPTOR::decode(buf, at + 160),
        }
    }
}

/// One region of the address space, as the memory-info stream describes it.
#[derive(Debug, Clone, Copy, PartialEq, Eq)]
pub struct MINIDUMP_MEMORY_INFO {
    /// The base address of the region.
    pub BaseAddress: u64,
    /// The base address of the allocation that holds the region.
    pub AllocationBase: u64,
    /// The protection applied when the region was allocated.
    pub AllocationProtect: u32,
    /// Alignment padding.
    pub alignment1: u32,
    /// The size of the region, in bytes.
    pub RegionSize: u64,
    /// The state of the region (committed, reserved, free).
    pub State: u32,
    /// The current protection of the region.
    pub Protect: u32,
    /// The type of the region (private, mapped, image).
    pub Type: u32,
    /// Alignment padding.
    pub alignment2: u32,
}

impl Record for MINIDUMP_MEMORY_INFO {
    open spec fn size() -> nat {
        48
    }

    open spec fn decoded(bytes: Seq<u8>, at: int) -> Self {
        MINIDUMP_MEMORY_INFO {
            BaseAddress: le_u64(bytes, at),
            AllocationBase: le_u64(bytes, at + 8),
            AllocationProtect: le_u32(bytes, at + 16),
            alignment1: le_u32(bytes, at + 20),
            RegionSize: le_u64(bytes, at + 24),
            State: le_u32(bytes, at + 32),
            Protect: le_u32(bytes, at + 36),
            Type: le_u32(bytes, at + 40),
            alignment2: le_u32(bytes, at + 44),
        }
    }

    fn encoded_size() -> usize {
        48
    }

    fn decode(buf: &[u8], at: usize) -> Self {
        MINIDUMP_MEMORY_INFO {
            BaseAddress: read_u64(buf, at),
            AllocationBase: read_u64(buf, at + 8),
            AllocationProtect: read_u32(buf, at + 16),
            alignment1: read_u32(buf, at + 20),
            RegionSize: read_u64(buf, at + 24),
            State: read_u32(buf, at + 32),
            Protect: read_u32(buf, at + 36),
            Type: read_u32(buf, at + 40),
            alignment2: read_u32(buf, at + 44),
        }
    }
}

/// One range of the memory64 stream. Its content has no offset of its own: the contents
/// of all ranges follow one another from the base offset of the list.
#[derive(Debug, Clone, Copy, PartialEq, Eq)]
pub struct MINIDUMP_MEMORY_DESCRIPTOR64 {
    /// The starting address of the memory range.
    pub StartOfMemoryRange: u64,
    /// The size of the range and of its content, in bytes.
    pub DataSize: u64,
}

impl Record for MINIDUMP_MEMORY_DESCRIPTOR64 {
    open spec fn size() -> nat {
        16
    }

    open spec fn decoded(bytes: Seq<u8>, at: int) -> Self {
        MINIDUMP_MEMORY_DESCRIPTOR64 {
            StartOfMemoryRange: le_u64(bytes, at),
            DataSize: le_u64(bytes, at + 8),
        }
    }

    fn encoded_size() -> usize {
        16
    }

    fn decode(buf: &[u8], at: usize) -> Self {
        MINIDUMP_MEMORY_DESCRIPTOR64 {
            StartOfMemoryRange: read_u64(buf, at),
            DataSize: read_u64(buf, at + 8),
        }
    }
}

/// Processor and operating system of the captured process.
#[derive(Debug, Clone, Copy, PartialEq, Eq)]
pub struct MINIDUMP_SYSTEM_INFO {
    /// The processor architecture: `ARCH_X64` or `ARCH_X86`.
    pub ProcessorArchitecture: u16,
    /// The architecture-dependent processor level.
    pub ProcessorLevel: u16,
    /// The architecture-dependent processor revision.
    pub ProcessorRevision: u16,
    /// The number of processors in the system.
    pub NumberOfProcessors: u8,
    /// The product type of the operating system.
    pub ProductType: u8,
    /// The major version of the operating system.
    pub MajorVersion: u32,
    /// The minor version of the operating system.
    pub MinorVersion: u32,
    /// The build number of the operating system.
    pub BuildNumber: u32,
    /// The operating system platform.
    pub PlatformId: u32,
    /// The offset of the string that names the latest service pack.
    pub CSDVersionRva: u32,
    /// The product suites available on the system.
    pub SuiteMask: u16,
    /// Reserved.
    pub Reserved2: u16,
}

impl Record for MINIDUMP_SYSTEM_INFO {
    open spec fn size() -> nat {
        32
    }

    open spec fn decoded(bytes: Seq<u8>, at: int) -> Self {
        MINIDUMP_SYSTEM_INFO {
            ProcessorArchitecture: le_u16(bytes, at),
            ProcessorLevel: le_u16(bytes, at + 2),
            ProcessorRevision: le_u16(bytes, at + 4),
            NumberOfProcessors: bytes[at + 6],
            ProductType: bytes[at + 7],
            MajorVersion: le_u32(bytes, at + 8),
            MinorVersion: le_u32(bytes, at + 12),
            BuildNumber: le_u32(bytes, at + 16),
            PlatformId: le_u32(bytes, at + 20),
            CSDVersionRva: le_u32(bytes, at + 24),
            SuiteMask: le_u16(bytes, at + 28),
            Reserved2: le_u16(bytes, at + 30),
        }
    }

    fn encoded_size() -> usize {
        32
    }

    fn decode(buf: &[u8], at: usize) -> Self {
        MINIDUMP_SYSTEM_INFO {
            ProcessorArchitecture: read_u16(buf, at),
            ProcessorLevel: read_u16(buf, at + 2),
            ProcessorRevision: read_u16(buf, at + 4),
            NumberOfProcessors: buf[at + 6],
            ProductType: buf[at + 7],
            MajorVersion: read_u32(buf, at + 8),
            MinorVersion: read_u32(buf, at + 12),
            BuildNumber: read_u32(buf, at + 16),
            PlatformId: read_u32(buf, at + 20),
            CSDVersionRva: read_u32(buf, at + 24),
            SuiteMask: read_u16(buf, at + 28),
            Reserved2: read_u16(buf, at + 30),
        }
    }
}

/// Version information of a module file.
#[derive(Debug, Clone, Copy, PartialEq, Eq)]
pub struct VS_FIXEDFILEINFO {
    /// The value `0xFEEF04BD`.
    pub dwSignature: u32,
    /// The version of this structure.
    pub dwStrucVersion: u32,
    /// The upper 32 bits of the file version.
    pub dwFileVersionMS: u32,
    /// The lower 32 bits of the file version.
    pub dwFileVersionLS: u32,
    /// The upper 32 bits of the product version.
    pub dwProductVersionMS: u32,
    /// The lower 32 bits of the product version.
    pub dwProductVersionLS: u32,
    /// The bits of `dwFileFlags` that are valid.
    pub dwFileFlagsMask: u32,
    /// The attributes of the file.
    pub dwFileFlags: VS_FIXEDFILEINFO_FILE_FLAGS,
    /// The operating system the file was built for.
    pub dwFileOS: VS_FIXEDFILEINFO_FILE_OS,
    /// The general type of the file.
    pub dwFileType: u32,
    /// The function of the file.
    pub dwFileSubtype: u32,
    /// The upper 32 bits of the creation time stamp.
    pub dwFileDateMS: u32,
    /// The lower 32 bits of the creation time stamp.
    pub dwFileDateLS: u32,
}

impl Record for VS_FIXEDFILEINFO {
    open spec fn size() -> nat {
        52
    }

    open spec fn decoded(bytes: Seq<u8>, at: int) -> Self {
        VS_FIXEDFILEINFO {
            dwSignature: le_u32(bytes, at),
            dwStrucVersion: le_u32(bytes, at + 4),
            dwFileVersionMS: le_u32(bytes, at + 8),
            dwFileVersionLS: le_u32(bytes, at + 12),
            dwProductVersionMS: le_u32(bytes, at + 16),
            dwProductVersionLS: le_u32(bytes, at + 20),
            dwFileFlagsMask: le_u32(bytes, at + 24),
            dwFileFlags: VS_FIXEDFILEINFO_FILE_FLAGS(le_u32(bytes, at + 28)),
            dwFileOS: VS_FIXEDFILEINFO_FILE_OS(le_u32(bytes, at + 32)),
            dwFileType: le_u32(bytes, at + 36),
            dwFileSubtype: le_u32(bytes, at + 40),
            dwFileDateMS: le_u32(bytes, at + 44),
            dwFileDateLS: le_u32(bytes, at + 48),
        }
    }

    fn encoded_size() -> usize {
        52
    }

    fn decode(buf: &[u8], at: usize) -> Self {
        VS_FIXEDFILEINFO {
            dwSignature: read_u32(buf, at),
            dwStrucVersion: read_u32(buf, at + 4),
            dwFileVersionMS: read_u32(buf, at + 8),
            dwFileVersionLS: read_u32(buf, at + 12),
            dwProductVersionMS: read_u32(buf, at + 16),
            dwProductVersionLS: read_u32(buf, at + 20),
            dwFileFlagsMask: read_u32(buf, at + 24),
            dwFileFlags: VS_FIXEDFILEINFO_FILE_FLAGS(read_u32(buf, at + 28)),
            dwFileOS: VS_FIXEDFILEINFO_FILE_OS(read_u32(buf, at + 32)),
            dwFileType: read_u32(buf, at + 36),
            dwFileSubtype: read_u32(buf, at + 40),
            dwFileDateMS: read_u32(buf, at + 44),
            dwFileDateLS: read_u32(buf, at + 48),
        }
    }
}

/// One loaded module, as the module list describes it.
#[derive(Debug, Clone, Copy, PartialEq, Eq)]
pub struct MINIDUMP_MODULE {
    /// The base address of the module image.
    pub BaseOfImage: u64,
    /// The size of the module image, in bytes.
    pub SizeOfImage: u32,
    /// The checksum of the module image.
    pub CheckSum: u32,
    /// The time stamp of the module image, in `time_t` format.
    pub TimeDateStamp: u32,
    /// The offset of the `MINIDUMP_STRING` that names the module.
    pub ModuleNameRva: u32,
    /// The version of the module.
    pub VersionInfo: VS_FIXEDFILEINFO,
    /// Where the CodeView record of the module lies.
    pub CvRecord: MINIDUMP_LOCATION_DESCRIPTOR,
    /// Where the miscellaneous record of the module lies.
    pub MiscRecord: MINIDUMP_LOCATION_DESCRIPTOR,
    /// Reserved.
    pub Reserved0: u64,
    /// Reserved.
    pub Reserved1: u64,
}

impl Record for MINIDUMP_MODULE {
    open spec fn size() -> nat {
        108
    }

    open spec fn decoded(bytes: Seq<u8>, at: int) -> Self {
        MINIDUMP_MODULE {
            BaseOfImage: le_u64(bytes, at),
            SizeOfImage: le_u32(bytes, at + 8),
            CheckSum: le_u32(bytes, at + 12),
            TimeDateStamp: le_u32(bytes, at + 16),
            ModuleNameRva: le_u32(bytes, at + 20),
            VersionInfo: VS_FIXEDFILEINFO::decoded(bytes, at + 24),
            CvRecord: MINIDUMP_LOCATION_DESCRIPTOR::decoded(bytes, at + 76),
            MiscRecord: MINIDUMP_LOCATION_DESCRIPTOR::decoded(bytes, at + 84),
            Reserved0: le_u64(bytes, at + 92),
            Reserved1: le_u64(bytes, at + 100),
        }
    }

    fn encoded_size() -> usize {
        108
    }

    fn decode(buf: &[u8], at: usize) -> Self {
        MINIDUMP_MODULE {
            BaseOfImage: read_u64(buf, at),
            SizeOfImage: read_u32(buf, at + 8),
            CheckSum: read_u32(buf, at + 12),
            TimeDateStamp: read_u32(buf, at + 16),
            ModuleNameRva: read_u32(buf, at + 20),
            VersionInfo: VS_FIXEDFILEINFO::decode(buf, at + 24),
            CvRecord: MINIDUMP_LOCATION_DESCRIPTOR::decode(buf, at + 76),
            MiscRecord: MINIDUMP_LOCATION_DESCRIPTOR::decode(buf, at + 84),
            Reserved0: read_u64(buf, at + 92),
            Reserved1: read_u64(buf, at + 100),
        }
    }
}

/// One thread, as the thread list describes it.
#[derive(Debug, Clone, Copy, PartialEq, Eq)]
pub struct MINIDUMP_THREAD {
    /// The identifier of the thread.
    pub ThreadId: u32,
    /// The suspend count of the thread.
    pub SuspendCount: u32,
    /// The priority class of the thread.
    pub PriorityClass: u32,
    /// The priority level of the thread.
    pub Priority: u32,
    /// The address of the thread environment block.
    pub Teb: u64,
    /// The stack of the thread.
    pub Stack: MINIDUMP_MEMORY_DESCRIPTOR,
    /// Where the register context of the thread lies.
    pub ThreadContext: MINIDUMP_LOCATION_DESCRIPTOR,
}

impl Record for MINIDUMP_THREAD {
    open spec fn size() -> nat {
        48
    }

    open spec fn decoded(bytes: Seq<u8>, at: int) -> Self {
        MINIDUMP_THREAD {
            ThreadId: le_u32(bytes, at),
            SuspendCount: le_u32(bytes, at + 4),
            PriorityClass: le_u32(bytes, at + 8),
            Priority: le_u32(bytes, at + 12),
            Teb: le_u64(bytes, at + 16),
            Stack: MINIDUMP_MEMORY_DESCRIPTOR::decoded(bytes, at + 24),
            ThreadContext: MINIDUMP_LOCATION_DESCRIPTOR::decoded(bytes, at + 40),
        }
    }

    fn encoded_size() -> usize {
        48
    }

    fn decode(buf: &[u8], at: usize) -> Self {
        MINIDUMP_THREAD {
            ThreadId: read_u32(buf, at),
            SuspendCount: read_u32(buf, at + 4),
            PriorityClass: read_u32(buf, at + 8),
            Priority: read_u32(buf, at + 12),
            Teb: read_u64(buf, at + 16),
            Stack: MINIDUMP_MEMORY_DESCRIPTOR::decode(buf, at + 24),
            ThreadContext: MINIDUMP_LOCATION_DESCRIPTOR::decode(buf, at + 40),
        }
    }
}

/// The fixed fields of one handle descriptor. A stream may declare a larger descriptor;
/// what follows these fields is skipped.
#[derive(Debug, Clone, Copy, PartialEq, Eq)]
pub struct MINIDUMP_HANDLE_DESCRIPTOR {
    /// The operating system handle value.
    pub Handle: u64,
    /// The offset of the `MINIDUMP_STRING` that names the object type, or zero.
    pub TypeNameRva: u32,
    /// The offset of the `MINIDUMP_STRING` that names the object, or zero.
    pub ObjectNameRva: u32,
    /// The attributes of the handle.
    pub Attributes: u32,
    /// The access rights granted to the handle.
    pub GrantedAccess: u32,
    /// The handle count of the object.
    pub HandleCount: u32,
    /// The pointer count of the object.
    pub PointerCount: u32,
}

impl Record for MINIDUMP_HANDLE_DESCRIPTOR {
    open spec fn size() -> nat {
        32
    }

    open spec fn decoded(bytes: Seq<u8>, at: int) -> Self {
        MINIDUMP_HANDLE_DESCRIPTOR {
            Handle: le_u64(bytes, at),
            TypeNameRva: le_u32(bytes, at + 8),
            ObjectNameRva: le_u32(bytes, at + 12),
            Attributes: le_u32(bytes, at + 16),
            GrantedAccess: le_u32(bytes, at + 20),
            HandleCount: le_u32(bytes, at + 24),
            PointerCount: le_u32(bytes, at + 28),
        }
    }

    fn encoded_size() -> usize {
        32
    }

    fn decode(buf: &[u8], at: usize) -> Self {
        MINIDUMP_HANDLE_DESCRIPTOR {
            Handle: read_u64(buf, at),
            TypeNameRva: read_u32(buf, at + 8),
            ObjectNameRva: read_u32(buf, at + 12),
            Attributes: read_u32(buf, at + 16),
            GrantedAccess: read_u32(buf, at + 20),
            HandleCount: read_u32(buf, at + 24),
            PointerCount: read_u32(buf, at + 28),
        }
    }
}

/// The size that the descriptors of a handle data stream declare for themselves.
#[derive(Debug, Clone, Copy, PartialEq, Eq)]
pub struct HandleArgs {
    /// The size of one descriptor, in bytes.
    pub size_of_descriptor: u32,
}

/// The memory-info stream: a header and one record for each region.
#[derive(Debug, Clone)]
pub struct MINIDUMP_MEMORY_INFO_LIST {
    /// The size of the header that the stream declares.
    pub SizeOfHeader: u32,
    /// The size of one entry that the stream declares.
    pub SizeOfEntry: u32,
    /// The number of entries.
    pub NumberOfEntries: u64,
    /// The entries, which follow the three fields above.
    pub Entries: Vec<MINIDUMP_MEMORY_INFO>,
}

impl MINIDUMP_MEMORY_INFO_LIST {
    /// Whether a complete memory-info list lies in `bytes` at `at`.
    pub open spec fn present(bytes: Seq<u8>, at: int) -> bool {
        fits(bytes.len(), at, 16) && array_fits(
            bytes.len(),
            at + 16,
            le_u64(bytes, at + 8) as nat,
            48,
            48,
        )
    }

    /// The entries of the memory-info list that lies in `bytes` at `at`: as
    /// many as its header announces, one behind the other after the header.
    pub open spec fn entries_at(bytes: Seq<u8>, at: int) -> Seq<MINIDUMP_MEMORY_INFO> {
        records::<MINIDUMP_MEMORY_INFO>(bytes, at + 16, le_u64(bytes, at + 8) as nat, 48)
    }

    /// Whether `self` is the memory-info list that lies in `bytes` at `at`.
    pub open spec fn lies_at(self, bytes: Seq<u8>, at: int) -> bool {
        &&& self.SizeOfHeader == le_u32(bytes, at)
        &&& self.SizeOfEntry == le_u32(bytes, at + 4)
        &&& self.NumberOfEntries == le_u64(bytes, at + 8)
        &&& self.Entries@ == Self::entries_at(bytes, at)
    }

    /// Reads the memory-info list at `at`. Fails when the header or one of the
    /// entries that it announces does not lie inside the buffer.
    pub fn read(buf: &[u8], at: usize) -> (r: Result<Self, UserDmpError>)
        ensures
            match r {
                Ok(list) => Self::present(buf@, at as int) && list.lies_at(buf@, at as int),
                Err(e) => !Self::present(buf@, at as int) && e == UserDmpError::MalformedRecord(
                    at as u64,
                ),
            },
    {
        if !has_room(buf, at, 16) {
            return Err(UserDmpError::MalformedRecord(at as u64));
        }
        let size_of_header = read_u32(buf, at);
        let size_of_entry = read_u32(buf, at + 4);
        let count = read_u64(buf, at + 8);
        if !has_room_for_array(buf, at + 16, count, 48, 48) {
            return Err(UserDmpError::MalformedRecord(at as u64));
        }
        let entries = read_records::<MINIDUMP_MEMORY_INFO>(buf, at + 16, count as usize, 48);
        Ok(
            MINIDUMP_MEMORY_INFO_LIST {
                SizeOfHeader: size_of_header,
                SizeOfEntry: size_of_entry,
                NumberOfEntries: count,
                Entries: entries,
            },
        )
    }
}

/// The memory64 stream: the number of ranges, the offset at which the content of
/// the first range lies, and one descriptor for each range.
#[derive(Debug, Clone)]
pub struct MINIDUMP_MEMORY64_LIST {
    /// The number of ranges.
    pub NumberOfMemoryRanges: u64,
    /// The offset of the content of the first range.
    pub BaseRva: u64,
    /// The descriptors, which follow the two fields above.
    pub Ranges: Vec<MINIDUMP_MEMORY_DESCRIPTOR64>,
}

impl MINIDUMP_MEMORY64_LIST {
    /// Whether a complete memory64 list lies in `bytes` at `at`.
    pub open spec fn present(bytes: Seq<u8>, at: int) -> bool {
        fits(bytes.len(), at, 16) && array_fits(
            bytes.len(),
            at + 16,
            le_u64(bytes, at) as nat,
            16,
            16,
        )
    }

    /// The offset of the content of the first range of the memory64 list that
    /// lies in `bytes` at `at`.
    pub open spec fn base_at(bytes: Seq<u8>, at: int) -> u64 {
        le_u64(bytes, at + 8)
    }

    /// The ranges of the memory64 list that lies in `bytes` at `at`: as many
    /// as its header announces, one behind the other after the header.
    pub open spec fn ranges_at(bytes: Seq<u8>, at: int) -> Seq<MINIDUMP_MEMORY_DESCRIPTOR64> {
        records::<MINIDUMP_MEMORY_DESCRIPTOR64>(bytes, at + 16, le_u64(bytes, at) as nat, 16)
    }

    /// Whether `self` is the memory64 list that lies in `bytes` at `at`.
    pub open spec fn lies_at(self, bytes: Seq<u8>, at: int) -> bool {
        &&& self.NumberOfMemoryRanges == le_u64(bytes, at)
        &&& self.BaseRva == Self::base_at(bytes, at)
        &&& self.Ranges@ == Self::ranges_at(bytes, at)
    }

    /// Reads the memory64 list at `at`. Fails when the header or one of the
    /// descriptors that it announces does not lie inside the buffer.
    pub fn read(buf: &[u8], at: usize) -> (r: Result<Self, UserDmpError>)
        ensures
            match r {
                Ok(list) => Self::present(buf@, at as int) && list.lies_at(buf@, at as int),
                Err(e) => !Self::present(buf@, at as int) && e == UserDmpError::MalformedRecord(
                    at as u64,
                ),
            },
    {
        if !has_room(buf, at, 16) {
            return Err(UserDmpError::MalformedRecord(at as u64));
        }
        let count = read_u64(buf, at);
        let base = read_u64(buf, at + 8);
        if !has_room_for_array(buf, at + 16, count, 16, 16) {
            return Err(UserDmpError::MalformedRecord(at as u64));
        }
        let ranges = read_records::<MINIDUMP_MEMORY_DESCRIPTOR64>(
            buf,
            at + 16,
            count as usize,
            16,
        );
        Ok(MINIDUMP_MEMORY64_LIST { NumberOfMemoryRanges: count, BaseRva: base, Ranges: ranges })
    }
}

/// The module list stream: a count and one record for each module.
#[derive(Debug, Clone)]
pub struct MINIDUMP_MODULE_LIST {
    /// The number of modules.
    pub NumberOfModules: u32,
    /// The modules, which follow the count.
    pub Modules: Vec<MINIDUMP_MODULE>,
}

impl MINIDUMP_MODULE_LIST {
    /// Whether a complete module list lies in `bytes` at `at`.
    pub open spec fn present(bytes: Seq<u8>, at: int) -> bool {
        fits(bytes.len(), at, 4) && array_fits(
            bytes.len(),
            at + 4,
            le_u32(bytes, at) as nat,
            108,
            108,
        )
    }

    /// The modules of the module list that lies in `bytes` at `at`: as many as
    /// its count announces, one behind the other after the count.
    pub open spec fn modules_at(bytes: Seq<u8>, at: int) -> Seq<MINIDUMP_MODULE> {
        records::<MINIDUMP_MODULE>(bytes, at + 4, le_u32(bytes, at) as nat, 108)
    }

    /// Whether `self` is the module list that lies in `bytes` at `at`.
    pub open spec fn lies_at(self, bytes: Seq<u8>, at: int) -> bool {
        &&& self.NumberOfModules == le_u32(bytes, at)
        &&& self.Modules@ == Self::modules_at(bytes, at)
    }

    /// Reads the module list at `at`. Fails when the count or one of the modules
    /// that it announces does not lie inside the buffer.
    pub fn read(buf: &[u8], at: usize) -> (r: Result<Self, UserDmpError>)
        ensures
            match r {
                Ok(list) => Self::present(buf@, at as int) && list.lies_at(buf@, at as int),
                Err(e) => !Self::present(buf@, at as int) && e == UserDmpError::MalformedRecord(
                    at as u64,
                ),
            },
    {
        if !has_room(buf, at, 4) {
            return Err(UserDmpError::MalformedRecord(at as u64));
        }
        let count = read_u32(buf, at);
        if !has_room_for_array(buf, at + 4, count as u64, 108, 108) {
            return Err(UserDmpError::MalformedRecord(at as u64));
        }
        let modules = read_records::<MINIDUMP_MODULE>(buf, at + 4, count as usize, 108);
        Ok(MINIDUMP_MODULE_LIST { NumberOfModules: count, Modules: modules })
    }
}

/// The thread list stream: a count and one record for each thread.
#[derive(Debug, Clone)]
pub struct MINIDUMP_THREAD_LIST {
    /// The number of threads.
    pub NumberOfThreads: u32,
    /// The threads, which follow the count.
    pub Threads: Vec<MINIDUMP_THREAD>,
}

impl MINIDUMP_THREAD_LIST {
    /// Whether a complete thread list lies in `bytes` at `at`.
    pub open spec fn present(bytes: Seq<u8>, at: int) -> bool {
        fits(bytes.len(), at, 4) && array_fits(
            bytes.len(),
            at + 4,
            le_u32(bytes, at) as nat,
            48,
            48,
        )
    }

    /// The threads of the thread list that lies in `bytes` at `at`: as many as
    /// its count announces, one behind the other after the count.
    pub open spec fn threads_at(bytes: Seq<u8>, at: int) -> Seq<MINIDUMP_THREAD> {
        records::<MINIDUMP_THREAD>(bytes, at + 4, le_u32(bytes, at) as nat, 48)
    }

    /// Whether `self` is the thread list that lies in `bytes` at `at`.
    pub open spec fn lies_at(self, bytes: Seq<u8>, at: int) -> bool {
        &&& self.NumberOfThreads == le_u32(bytes, at)
        &&& self.Threads@ == Self::threads_at(bytes, at)
    }

    /// Reads the thread list at `at`. Fails when the count or one of the threads
    /// that it announces does not lie inside the buffer.
    pub fn read(buf: &[u8], at: usize) -> (r: Result<Self, UserDmpError>)
        ensures
            match r {
                Ok(list) => Self::present(buf@, at as int) && list.lies_at(buf@, at as int),
                Err(e) => !Self::present(buf@, at as int) && e == UserDmpError::MalformedRecord(
                    at as u64,
                ),
            },
    {
        if !has_room(buf, at, 4) {
            return Err(UserDmpError::MalformedRecord(at as u64));
        }
        let count = read_u32(buf, at);
        if !has_room_for_array(buf, at + 4, count as u64, 48, 48) {
            return Err(UserDmpError::MalformedRecord(at as u64));
        }
        let threads = read_records::<MINIDUMP_THREAD>(buf, at + 4, count as usize, 48);
        Ok(MINIDUMP_THREAD_LIST { NumberOfThreads: count, Threads: threads })
    }
}

/// The handle data stream: a header and one descriptor for each handle. The
/// header says how large a descriptor is.
#[derive(Debug, Clone)]
pub struct MINIDUMP_HANDLE_DATA_STREAM {
    /// The size of the header that the stream declares.
    pub SizeOfHeader: u32,
    /// The size of one descriptor, in bytes.
    pub SizeOfDescriptor: u32,
    /// The number of descriptors.
    pub NumberOfDescriptors: u32,
    /// Reserved.
    pub Reserved: u32,
    /// The descriptors, which follow the four fields above.
    pub Handles: Vec<MINIDUMP_HANDLE_DESCRIPTOR>,
}

impl MINIDUMP_HANDLE_DATA_STREAM {
    /// Whether `count` descriptors of the declared size lie in `bytes` from `at`
    /// on: the declared size holds the fixed fields, and the fixed fields of
    /// every descriptor lie inside the buffer. No descriptors are present
    /// whatever size is declared.
    pub open spec fn descriptors_present(bytes: Seq<u8>, at: int, count: nat, args: HandleArgs)
        -> bool {
        count == 0 || (args.size_of_descriptor >= 32 && array_fits(
            bytes.len(),
            at,
            count,
            args.size_of_descriptor as nat,
            32,
        ))
    }

    /// Whether a complete handle data stream lies in `bytes` at `at`.
    pub open spec fn present(bytes: Seq<u8>, at: int) -> bool {
        fits(bytes.len(), at, 16) && Self::descriptors_present(
            bytes,
            at + 16,
            le_u32(bytes, at + 8) as nat,
            HandleArgs { size_of_descriptor: le_u32(bytes, at + 4) },
        )
    }

    /// The descriptors of the handle data stream that lies in `bytes` at `at`:
    /// as many as its header announces, after the header, each as far from the
    /// one before it as the header says a descriptor is large.
    pub open spec fn handles_at(bytes: Seq<u8>, at: int) -> Seq<MINIDUMP_HANDLE_DESCRIPTOR> {
        records::<MINIDUMP_HANDLE_DESCRIPTOR>(
            bytes,
            at + 16,
            le_u32(bytes, at + 8) as nat,
            le_u32(bytes, at + 4) as nat,
        )
    }

    /// Whether `self` is the handle data stream that lies in `bytes` at `at`.
    pub open spec fn lies_at(self, bytes: Seq<u8>, at: int) -> bool {
        &&& self.SizeOfHeader == le_u32(bytes, at)
        &&& self.SizeOfDescriptor == le_u32(bytes, at + 4)
        &&& self.NumberOfDescriptors == le_u32(bytes, at + 8)
        &&& self.Reserved == le_u32(bytes, at + 12)
        &&& self.Handles@ == Self::handles_at(bytes, at)
    }

    /// Reads `count` descriptors of the declared size from `at` on: the fixed
    /// fields of each, skipping what a larger descriptor holds after them.
    pub fn read_descriptors(buf: &[u8], at: usize, count: u32, args: HandleArgs) -> (r: Option<
        Vec<MINIDUMP_HANDLE_DESCRIPTOR>,
    >)
        ensures
            match r {
                Some(v) => Self::descriptors_present(buf@, at as int, count as nat, args) && v@
                    == records::<MINIDUMP_HANDLE_DESCRIPTOR>(
                    buf@,
                    at as int,
                    count as nat,
                    args.size_of_descriptor as nat,
                ),
                None => !Self::descriptors_present(buf@, at as int, count as nat, args),
            },
    {
        if count == 0 {
            return Some(Vec::new());
        }
        if args.size_of_descriptor < 32 {
            return None;
        }
        let stride = args.size_of_descriptor as usize;
        if !has_room_for_array(buf, at, count as u64, stride, 32) {
            return None;
        }
        Some(read_records::<MINIDUMP_HANDLE_DESCRIPTOR>(buf, at, count as usize, stride))
    }

    /// Reads the handle data stream at `at`. Fails when the header does not lie
    /// inside the buffer, when it announces descriptors and declares them
    /// smaller than their fixed fields, or when the fixed fields of one of the
    /// descriptors that it announces do not lie inside the buffer.
    pub fn read(buf: &[u8], at: usize) -> (r: Result<Self, UserDmpError>)
        ensures
            match r {
                Ok(list) => Self::present(buf@, at as int) && list.lies_at(buf@, at as int),
                Err(e) => !Self::present(buf@, at as int) && e == UserDmpError::MalformedRecord(
                    at as u64,
                ),
            },
    {
        if !has_room(buf, at, 16) {
            return Err(UserDmpError::MalformedRecord(at as u64));
        }
        let size_of_header = read_u32(buf, at);
        let size_of_descriptor = read_u32(buf, at + 4);
        let count = read_u32(buf, at + 8);
        let reserved = read_u32(buf, at + 12);
        let args = HandleArgs { size_of_descriptor };
        match Self::read_descriptors(buf, at + 16, count, args) {
            Some(handles) => Ok(
                MINIDUMP_HANDLE_DATA_STREAM {
                    SizeOfHeader: size_of_header,
                    SizeOfDescriptor: size_of_descriptor,
                    NumberOfDescriptors: count,
                    Reserved: reserved,
                    Handles: handles,
                },
            ),
            None => Err(UserDmpError::MalformedRecord(at as u64)),
        }
    }
}

/// A string of the dump: the length of its text in bytes, then the text in
/// UTF-16, little-endian.
#[derive(Debug, Clone)]
pub struct MINIDUMP_STRING {
    /// The size of the text, in bytes.
    pub Length: u32,
    /// The UTF-16 code units of the text: half as many as `Length` says, rounded down.
    pub Buffer: Vec<u16>,
}

impl MINIDUMP_STRING {
    /// Whether a complete string lies in `bytes` at `at`.
    pub open spec fn present(bytes: Seq<u8>, at: int) -> bool {
        fits(bytes.len(), at, 4) && fits(bytes.len(), at + 4, 2 * (le_u32(bytes, at) / 2))
    }

    /// The code units of the string that lies in `bytes` at `at`.
    pub open spec fn units(bytes: Seq<u8>, at: int) -> Seq<u16> {
        records::<u16>(bytes, at + 4, (le_u32(bytes, at) / 2) as nat, 2)
    }

    /// Whether `self` is the string that lies in `bytes` at `at`.
    pub open spec fn lies_at(self, bytes: Seq<u8>, at: int) -> bool {
        self.Length == le_u32(bytes, at) && self.Buffer@ == Self::units(bytes, at)
    }

    /// Reads the string at `at`. Fails when the length or the text that it
    /// announces does not lie inside the buffer.
    pub fn read(buf: &[u8], at: usize) -> (r: Result<Self, UserDmpError>)
        ensures
            match r {
                Ok(s) => Self::present(buf@, at as int) && s.lies_at(buf@, at as int),
                Err(e) => !Self::present(buf@, at as int) && e == UserDmpError::AddressNotFound(
                    at as u64,
                ),
            },
    {
        if !has_room(buf, at, 4) {
            return Err(UserDmpError::AddressNotFound(at as u64));
        }
        let length = read_u32(buf, at);
        let count = (length / 2) as usize;
        if !has_room(buf, at + 4, 2 * count) {
            return Err(UserDmpError::AddressNotFound(at as u64));
        }
        let units = read_records::<u16>(buf, at + 4, count, 2);
        Ok(MINIDUMP_STRING { Length: length, Buffer: units })
    }
}

/// The type of a stream of the dump. Each type has a number, by which the
/// stream directory names it.
#[derive(Debug, Clone, Copy, PartialEq, Eq, Structural)]
pub enum MINIDUMP_STREAM_TYPE {
    UnusedStream,
    ReservedStream0,
    ReservedStream1,
    ThreadListStream,
    ModuleListStream,
    MemoryListStream,
    ExceptionStream,
    SystemInfoStream,
    ThreadExListStream,
    Memory64ListStream,
    CommentStreamA,
    CommentStreamW,
    HandleDataStream,
    FunctionTableStream,
    UnloadedModuleListStream,
    MiscInfoStream,
    MemoryInfoListStream,
    ThreadInfoListStream,
    HandleOperationListStream,
    TokenStream,
    JavaScriptDataStream,
    SystemMemoryInfoStream,
    ProcessVmCountersStream,
    IptTraceStream,
    ThreadNamesStream,
    ceStreamNull,
    ceStreamSystemInfo,
    ceStreamException,
    ceStreamModuleList,
    ceStreamProcessList,
    ceStreamThreadList,
    ceStreamThreadContextList,
    ceStreamThreadCallStackList,
    ceStreamMemoryVirtualList,
    ceStreamMemoryPhysicalList,
    ceStreamBucketParameters,
    ceStreamProcessModuleMap,
    ceStreamDiagnosisList,
    LastReservedStream,
}

impl MINIDUMP_STREAM_TYPE {
    /// The number of the stream type.
    pub open spec fn code(self) -> u32 {
        match self {
            MINIDUMP_STREAM_TYPE::UnusedStream => 0,
            MINIDUMP_STREAM_TYPE::ReservedStream0 => 1,
            MINIDUMP_STREAM_TYPE::ReservedStream1 => 2,
            MINIDUMP_STREAM_TYPE::ThreadListStream => 3,
            MINIDUMP_STREAM_TYPE::ModuleListStream => 4,
            MINIDUMP_STREAM_TYPE::MemoryListStream => 5,
            MINIDUMP_STREAM_TYPE::ExceptionStream => 6,
            MINIDUMP_STREAM_TYPE::SystemInfoStream => 7,
            MINIDUMP_STREAM_TYPE::ThreadExListStream => 8,
            MINIDUMP_STREAM_TYPE::Memory64ListStream => 9,
            MINIDUMP_STREAM_TYPE::CommentStreamA => 10,
            MINIDUMP_STREAM_TYPE::CommentStreamW => 11,
            MINIDUMP_STREAM_TYPE::HandleDataStream => 12,
            MINIDUMP_STREAM_TYPE::FunctionTableStream => 13,
            MINIDUMP_STREAM_TYPE::UnloadedModuleListStream => 14,
            MINIDUMP_STREAM_TYPE::MiscInfoStream => 15,
            MINIDUMP_STREAM_TYPE::MemoryInfoListStream => 16,
            MINIDUMP_STREAM_TYPE::ThreadInfoListStream => 17,
            MINIDUMP_STREAM_TYPE::HandleOperationListStream => 18,
            MINIDUMP_STREAM_TYPE::TokenStream => 19,
            MINIDUMP_STREAM_TYPE::JavaScriptDataStream => 20,
            MINIDUMP_STREAM_TYPE::SystemMemoryInfoStream => 21,
            MINIDUMP_STREAM_TYPE::ProcessVmCountersStream => 22,
            MINIDUMP_STREAM_TYPE::IptTraceStream => 23,
            MINIDUMP_STREAM_TYPE::ThreadNamesStream => 24,
            MINIDUMP_STREAM_TYPE::ceStreamNull => 0x8000,
            MINIDUMP_STREAM_TYPE::ceStreamSystemInfo => 0x8001,
            MINIDUMP_STREAM_TYPE::ceStreamException => 0x8002,
            MINIDUMP_STREAM_TYPE::ceStreamModuleList => 0x8003,
            MINIDUMP_STREAM_TYPE::ceStreamProcessList => 0x8004,
            MINIDUMP_STREAM_TYPE::ceStreamThreadList => 0x8005,
            MINIDUMP_STREAM_TYPE::ceStreamThreadContextList => 0x8006,
            MINIDUMP_STREAM_TYPE::ceStreamThreadCallStackList => 0x8007,
            MINIDUMP_STREAM_TYPE::ceStreamMemoryVirtualList => 0x8008,
            MINIDUMP_STREAM_TYPE::ceStreamMemoryPhysicalList => 0x8009,
            MINIDUMP_STREAM_TYPE::ceStreamBucketParameters => 0x800A,
            MINIDUMP_STREAM_TYPE::ceStreamProcessModuleMap => 0x800B,
            MINIDUMP_STREAM_TYPE::ceStreamDiagnosisList => 0x800C,
            MINIDUMP_STREAM_TYPE::LastReservedStream => 0xffff,
        }
    }

    /// The number of the stream type.
    pub fn number(self) -> (n: u32)
        ensures
            n == self.code(),
    {
        match self {
            MINIDUMP_STREAM_TYPE::UnusedStream => 0,
            MINIDUMP_STREAM_TYPE::ReservedStream0 => 1,
            MINIDUMP_STREAM_TYPE::ReservedStream1 => 2,
            MINIDUMP_STREAM_TYPE::ThreadListStream => 3,
            MINIDUMP_STREAM_TYPE::ModuleListStream => 4,
            MINIDUMP_STREAM_TYPE::MemoryListStream => 5,
            MINIDUMP_STREAM_TYPE::ExceptionStream => 6,
            MINIDUMP_STREAM_TYPE::SystemInfoStream => 7,
            MINIDUMP_STREAM_TYPE::ThreadExListStream => 8,
            MINIDUMP_STREAM_TYPE::Memory64ListStream => 9,
            MINIDUMP_STREAM_TYPE::CommentStreamA => 10,
            MINIDUMP_STREAM_TYPE::CommentStreamW => 11,
            MINIDUMP_STREAM_TYPE::HandleDataStream => 12,
            MINIDUMP_STREAM_TYPE::FunctionTableStream => 13,
            MINIDUMP_STREAM_TYPE::UnloadedModuleListStream => 14,
            MINIDUMP_STREAM_TYPE::MiscInfoStream => 15,
            MINIDUMP_STREAM_TYPE::MemoryInfoListStream => 16,
            MINIDUMP_STREAM_TYPE::ThreadInfoListStream => 17,
            MINIDUMP_STREAM_TYPE::HandleOperationListStream => 18,
            MINIDUMP_STREAM_TYPE::TokenStream => 19,
            MINIDUMP_STREAM_TYPE::JavaScriptDataStream => 20,
            MINIDUMP_STREAM_TYPE::SystemMemoryInfoStream => 21,
            MINIDUMP_STREAM_TYPE::ProcessVmCountersStream => 22,
            MINIDUMP_STREAM_TYPE::IptTraceStream => 23,
            MINIDUMP_STREAM_TYPE::ThreadNamesStream => 24,
            MINIDUMP_STREAM_TYPE::ceStreamNull => 0x8000,
            MINIDUMP_STREAM_TYPE::ceStreamSystemInfo => 0x8001,
            MINIDUMP_STREAM_TYPE::ceStreamException => 0x8002,
            MINIDUMP_STREAM_TYPE::ceStreamModuleList => 0x8003,
            MINIDUMP_STREAM_TYPE::ceStreamProcessList => 0x8004,
            MINIDUMP_STREAM_TYPE::ceStreamThreadList => 0x8005,
            MINIDUMP_STREAM_TYPE::ceStreamThreadContextList => 0x8006,
            MINIDUMP_STREAM_TYPE::ceStreamThreadCallStackList => 0x8007,
            MINIDUMP_STREAM_TYPE::ceStreamMemoryVirtualList => 0x8008,
            MINIDUMP_STREAM_TYPE::ceStreamMemoryPhysicalList => 0x8009,
            MINIDUMP_STREAM_TYPE::ceStreamBucketParameters => 0x800A,
            MINIDUMP_STREAM_TYPE::ceStreamProcessModuleMap => 0x800B,
            MINIDUMP_STREAM_TYPE::ceStreamDiagnosisList => 0x800C,
            MINIDUMP_STREAM_TYPE::LastReservedStream => 0xffff,
        }
    }

    /// Whether `value` is the number of a stream type.
    pub open spec fn known(value: u32) -> bool {
        value <= 24 || 0x8000 <= value <= 0x800C || value == 0xffff
    }

    /// The stream type with the number `value`. Fails, with a message, when no
    /// stream type has that number.
    pub fn try_from(value: u32) -> (r: Result<Self, &'static str>)
        ensures
            match r {
                Ok(kind) => Self::known(value) && kind == Self::of_code(value) && kind.code()
                    == value,
                Err(message) => !Self::known(value) && message@
                    == "Invalid value for MINIDUMP_STREAM_TYPE"@,
            },
    {
        match value {
            0 => Ok(MINIDUMP_STREAM_TYPE::UnusedStream),
            1 => Ok(MINIDUMP_STREAM_TYPE::ReservedStream0),
            2 => Ok(MINIDUMP_STREAM_TYPE::ReservedStream1),
            3 => Ok(MINIDUMP_STREAM_TYPE::ThreadListStream),
            4 => Ok(MINIDUMP_STREAM_TYPE::ModuleListStream),
            5 => Ok(MINIDUMP_STREAM_TYPE::MemoryListStream),
            6 => Ok(MINIDUMP_STREAM_TYPE::ExceptionStream),
            7 => Ok(MINIDUMP_STREAM_TYPE::SystemInfoStream),
            8 => Ok(MINIDUMP_STREAM_TYPE::ThreadExListStream),
            9 => Ok(MINIDUMP_STREAM_TYPE::Memory64ListStream),
            10 => Ok(MINIDUMP_STREAM_TYPE::CommentStreamA),
            11 => Ok(MINIDUMP_STREAM_TYPE::CommentStreamW),
            12 => Ok(MINIDUMP_STREAM_TYPE::HandleDataStream),
            13 => Ok(MINIDUMP_STREAM_TYPE::FunctionTableStream),
            14 => Ok(MINIDUMP_STREAM_TYPE::UnloadedModuleListStream),
            15 => Ok(MINIDUMP_STREAM_TYPE::MiscInfoStream),
            16 => Ok(MINIDUMP_STREAM_TYPE::MemoryInfoListStream),
            17 => Ok(MINIDUMP_STREAM_TYPE::ThreadInfoListStream),
            18 => Ok(MINIDUMP_STREAM_TYPE::HandleOperationListStream),
            19 => Ok(MINIDUMP_STREAM_TYPE::TokenStream),
            20 => Ok(MINIDUMP_STREAM_TYPE::JavaScriptDataStream),
            21 => Ok(MINIDUMP_STREAM_TYPE::SystemMemoryInfoStream),
            22 => Ok(MINIDUMP_STREAM_TYPE::ProcessVmCountersStream),
            23 => Ok(MINIDUMP_STREAM_TYPE::IptTraceStream),
            24 => Ok(MINIDUMP_STREAM_TYPE::ThreadNamesStream),
            0x8000 => Ok(MINIDUMP_STREAM_TYPE::ceStreamNull),
            0x8001 => Ok(MINIDUMP_STREAM_TYPE::ceStreamSystemInfo),
            0x8002 => Ok(MINIDUMP_STREAM_TYPE::ceStreamException),
            0x8003 => Ok(MINIDUMP_STREAM_TYPE::ceStreamModuleList),
            0x8004 => Ok(MINIDUMP_STREAM_TYPE::ceStreamProcessList),
            0x8005 => Ok(MINIDUMP_STREAM_TYPE::ceStreamThreadList),
            0x8006 => Ok(MINIDUMP_STREAM_TYPE::ceStreamThreadContextList),
            0x8007 => Ok(MINIDUMP_STREAM_TYPE::ceStreamThreadCallStackList),
            0x8008 => Ok(MINIDUMP_STREAM_TYPE::ceStreamMemoryVirtualList),
            0x8009 => Ok(MINIDUMP_STREAM_TYPE::ceStreamMemoryPhysicalList),
            0x800A => Ok(MINIDUMP_STREAM_TYPE::ceStreamBucketParameters),
            0x800B => Ok(MINIDUMP_STREAM_TYPE::ceStreamProcessModuleMap),
            0x800C => Ok(MINIDUMP_STREAM_TYPE::ceStreamDiagnosisList),
            0xffff => Ok(MINIDUMP_STREAM_TYPE::LastReservedStream),
            _ => Err("Invalid value for MINIDUMP_STREAM_TYPE"),
        }
    }

    /// The stream type with the number `value`, where there is one; the unused
    /// type for every other number.
    pub open spec fn of_code(value: u32) -> Self {
        match value {
            1 => MINIDUMP_STREAM_TYPE::ReservedStream0,
            2 => MINIDUMP_STREAM_TYPE::ReservedStream1,
            3 => MINIDUMP_STREAM_TYPE::ThreadListStream,
            4 => MINIDUMP_STREAM_TYPE::ModuleListStream,
            5 => MINIDUMP_STREAM_TYPE::MemoryListStream,
            6 => MINIDUMP_STREAM_TYPE::ExceptionStream,
            7 => MINIDUMP_STREAM_TYPE::SystemInfoStream,
            8 => MINIDUMP_STREAM_TYPE::ThreadExListStream,
            9 => MINIDUMP_STREAM_TYPE::Memory64ListStream,
            10 => MINIDUMP_STREAM_TYPE::CommentStreamA,
            11 => MINIDUMP_STREAM_TYPE::CommentStreamW,
            12 => MINIDUMP_STREAM_TYPE::HandleDataStream,
            13 => MINIDUMP_STREAM_TYPE::FunctionTableStream,
            14 => MINIDUMP_STREAM_TYPE::UnloadedModuleListStream,
            15 => MINIDUMP_STREAM_TYPE::MiscInfoStream,
            16 => MINIDUMP_STREAM_TYPE::MemoryInfoListStream,
            17 => MINIDUMP_STREAM_TYPE::ThreadInfoListStream,
            18 => MINIDUMP_STREAM_TYPE::HandleOperationListStream,
            19 => MINIDUMP_STREAM_TYPE::TokenStream,
            20 => MINIDUMP_STREAM_TYPE::JavaScriptDataStream,
            21 => MINIDUMP_STREAM_TYPE::SystemMemoryInfoStream,
            22 => MINIDUMP_STREAM_TYPE::ProcessVmCountersStream,
            23 => MINIDUMP_STREAM_TYPE::IptTraceStream,
            24 => MINIDUMP_STREAM_TYPE::ThreadNamesStream,
            0x8000 => MINIDUMP_STREAM_TYPE::ceStreamNull,
            0x8001 => MINIDUMP_STREAM_TYPE::ceStreamSystemInfo,
            0x8002 => MINIDUMP_STREAM_TYPE::ceStreamException,
            0x8003 => MINIDUMP_STREAM_TYPE::ceStreamModuleList,
            0x8004 => MINIDUMP_STREAM_TYPE::ceStreamProcessList,
            0x8005 => MINIDUMP_STREAM_TYPE::ceStreamThreadList,
            0x8006 => MINIDUMP_STREAM_TYPE::ceStreamThreadContextList,
            0x8007 => MINIDUMP_STREAM_TYPE::ceStreamThreadCallStackList,
            0x8008 => MINIDUMP_STREAM_TYPE::ceStreamMemoryVirtualList,
            0x8009 => MINIDUMP_STREAM_TYPE::ceStreamMemoryPhysicalList,
            0x800A => MINIDUMP_STREAM_TYPE::ceStreamBucketParameters,
            0x800B => MINIDUMP_STREAM_TYPE::ceStreamProcessModuleMap,
            0x800C => MINIDUMP_STREAM_TYPE::ceStreamDiagnosisList,
            0xffff => MINIDUMP_STREAM_TYPE::LastReservedStream,
            _ => MINIDUMP_STREAM_TYPE::UnusedStream,
        }
    }
}

} // verus!

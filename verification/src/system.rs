//! The system information of a dump.
#![allow(non_snake_case)]

use crate::bytes::{fits, has_room};
use crate::data::{Record, ARCH_X64, ARCH_X86, MINIDUMP_SYSTEM_INFO};
use crate::error::UserDmpError;
use crate::stream::MinidumpStream;
use vstd::prelude::*;

verus! {

/// Represents the processor architecture of the captured process.
#[derive(Copy, Debug, Clone, PartialEq, Eq, Structural)]
pub enum Arch {
    /// 64-bit architecture.
    X64,
    /// 32-bit architecture.
    X86,
}

impl Default for Arch {
    fn default() -> (r: Self)
        ensures
            r == Arch::X64,
    {
        Arch::X64
    }
}

/// Represents the system information captured in the minidump.
#[derive(Copy, Debug, Clone, PartialEq, Eq, Structural)]
pub struct System {
    /// The processor architecture captured in the minidump (x86 or x64).
    pub processor_architecture: Arch,
    /// The processor level.
    pub processor_level: u16,
    /// The processor revision.
    pub processor_revision: u16,
    /// The number of processors in the captured system.
    pub number_of_processors: u8,
    /// The product type of the operating system.
    pub product_type: u8,
    /// The major version of the operating system.
    pub major_version: u32,
    /// The minor version of the operating system.
    pub minor_version: u32,
    /// The build number of the operating system.
    pub build_number: u32,
    /// The platform identifier of the operating system.
    pub platform_id: u32,
}

impl Default for System {
    fn default() -> (r: Self)
        ensures
            r == System::unknown(),
    {
        System {
            processor_architecture: Arch::X64,
            processor_level: 0,
            processor_revision: 0,
            number_of_processors: 0,
            product_type: 0,
            major_version: 0,
            minor_version: 0,
            build_number: 0,
            platform_id: 0,
        }
    }
}

impl System {
    /// The system information of a dump that holds none: the 64-bit architecture,
    /// and zero in every other field.
    pub open spec fn unknown() -> System {
        System {
            processor_architecture: Arch::X64,
            processor_level: 0,
            processor_revision: 0,
            number_of_processors: 0,
            product_type: 0,
            major_version: 0,
            minor_version: 0,
            build_number: 0,
            platform_id: 0,
        }
    }

    /// The system information that a record stands for: its fields, with the
    /// architecture tag read as one of the two known architectures. An error,
    /// carrying the tag, when the tag is neither.
    pub open spec fn of_record(info: MINIDUMP_SYSTEM_INFO) -> Result<System, UserDmpError> {
        if info.ProcessorArchitecture != ARCH_X64 && info.ProcessorArchitecture != ARCH_X86 {
            Err(UserDmpError::UnsupportedArchitecture(info.ProcessorArchitecture))
        } else {
            Ok(
                System {
                    processor_architecture: if info.ProcessorArchitecture == ARCH_X64 {
                        Arch::X64
                    } else {
                        Arch::X86
                    },
                    processor_level: info.ProcessorLevel,
                    processor_revision: info.ProcessorRevision,
                    number_of_processors: info.NumberOfProcessors,
                    product_type: info.ProductType,
                    major_version: info.MajorVersion,
                    minor_version: info.MinorVersion,
                    build_number: info.BuildNumber,
                    platform_id: info.PlatformId,
                },
            )
        }
    }

    /// What the system-info stream at `at` of `bytes` decodes to. An error when
    /// the record does not lie inside the buffer, or names an unknown
    /// architecture.
    pub open spec fn stream_at(bytes: Seq<u8>, at: int) -> Result<System, UserDmpError> {
        if !fits(bytes.len(), at, 32) {
            Err(UserDmpError::MalformedRecord(at as u64))
        } else {
            Self::of_record(MINIDUMP_SYSTEM_INFO::decoded(bytes, at))
        }
    }

    /// Converts a `MINIDUMP_SYSTEM_INFO` record into a `System`.
    pub fn try_from(info: MINIDUMP_SYSTEM_INFO) -> (r: Result<System, UserDmpError>)
        ensures
            r == Self::of_record(info),
    {
        let processor_architecture = if info.ProcessorArchitecture == ARCH_X64 {
            Arch::X64
        } else if info.ProcessorArchitecture == ARCH_X86 {
            Arch::X86
        } else {
            return Err(UserDmpError::UnsupportedArchitecture(info.ProcessorArchitecture));
        };
        Ok(
            System {
                processor_architecture,
                processor_level: info.ProcessorLevel,
                processor_revision: info.ProcessorRevision,
                number_of_processors: info.NumberOfProcessors,
                product_type: info.ProductType,
                major_version: info.MajorVersion,
                minor_version: info.MinorVersion,
                build_number: info.BuildNumber,
                platform_id: info.PlatformId,
            },
        )
    }
}

impl MinidumpStream<'_> for System {
    type Output = System;

    open spec fn decodes(bytes: Seq<u8>, at: int, out: Result<System, UserDmpError>) -> bool {
        out == System::stream_at(bytes, at)
    }

    /// Parses the system information from the system-info stream.
    fn parse(buffer: &[u8], rva: u32) -> (r: Result<System, UserDmpError>) {
        let at = rva as usize;
        if !has_room(buffer, at, 32) {
            return Err(UserDmpError::MalformedRecord(at as u64));
        }
        System::try_from(MINIDUMP_SYSTEM_INFO::decode(buffer, at))
    }
}

} // verus!

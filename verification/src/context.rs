//! The register contexts of a thread, one layout for each architecture.
#![allow(non_snake_case, non_camel_case_types)]

use crate::bytes::{
    array_of, le_u128, le_u16, le_u32, le_u64, read_bytes, read_u128, read_u128s, read_u16,
    read_u32, read_u64,
};
use crate::data::Record;
use vstd::prelude::*;

verus! {

/// The registers of a thread of a 64-bit process: 1232 bytes in the file, with the
/// vector and floating-point registers.
#[derive(Debug, Clone, Copy, PartialEq, Eq)]
pub struct CONTEXT_X64 {
    pub P1Home: u64,
    pub P2Home: u64,
    pub P3Home: u64,
    pub P4Home: u64,
    pub P5Home: u64,
    pub P6Home: u64,
    pub ContextFlags: u32,
    pub MxCsr: u32,
    pub SegCs: u16,
    pub SegDs: u16,
    pub SegEs: u16,
    pub SegFs: u16,
    pub SegGs: u16,
    pub SegSs: u16,
    pub EFlags: u32,
    pub Dr0: u64,
    pub Dr1: u64,
    pub Dr2: u64,
    pub Dr3: u64,
    pub Dr6: u64,
    pub Dr7: u64,
    pub Rax: u64,
    pub Rcx: u64,
    pub Rdx: u64,
    pub Rbx: u64,
    pub Rsp: u64,
    pub Rbp: u64,
    pub Rsi: u64,
    pub Rdi: u64,
    pub R8: u64,
    pub R9: u64,
    pub R10: u64,
    pub R11: u64,
    pub R12: u64,
    pub R13: u64,
    pub R14: u64,
    pub R15: u64,
    pub Rip: u64,
    pub Header: [u128; 2],
    pub Legacy: [u128; 8],
    pub Xmm0: u128,
    pub Xmm1: u128,
    pub Xmm2: u128,
    pub Xmm3: u128,
    pub Xmm4: u128,
    pub Xmm5: u128,
    pub Xmm6: u128,
    pub Xmm7: u128,
    pub Xmm8: u128,
    pub Xmm9: u128,
    pub Xmm10: u128,
    pub Xmm11: u128,
    pub Xmm12: u128,
    pub Xmm13: u128,
    pub Xmm14: u128,
    pub Xmm15: u128,
    pub Padding: [u8; 0x60],
    pub VectorRegister: [u128; 26],
    pub VectorControl: u64,
    pub DebugControl: u64,
    pub LastBranchToRip: u64,
    pub LastBranchFromRip: u64,
    pub LastExceptionToRip: u64,
    pub LastExceptionFromRip: u64,
}

impl Record for CONTEXT_X64 {
    open spec fn size() -> nat {
        1232
    }

    open spec fn decoded(bytes: Seq<u8>, at: int) -> Self {
        CONTEXT_X64 {
            P1Home: le_u64(bytes, at),
            P2Home: le_u64(bytes, at + 8),
            P3Home: le_u64(bytes, at + 16),
            P4Home: le_u64(bytes, at + 24),
            P5Home: le_u64(bytes, at + 32),
            P6Home: le_u64(bytes, at + 40),
            ContextFlags: le_u32(bytes, at + 48),
            MxCsr: le_u32(bytes, at + 52),
            SegCs: le_u16(bytes, at + 56),
            SegDs: le_u16(bytes, at + 58),
            SegEs: le_u16(bytes, at + 60),
            SegFs: le_u16(bytes, at + 62),
            SegGs: le_u16(bytes, at + 64),
            SegSs: le_u16(bytes, at + 66),
            EFlags: le_u32(bytes, at + 68),
            Dr0: le_u64(bytes, at + 72),
            Dr1: le_u64(bytes, at + 80),
            Dr2: le_u64(bytes, at + 88),
            Dr3: le_u64(bytes, at + 96),
            Dr6: le_u64(bytes, at + 104),
            Dr7: le_u64(bytes, at + 112),
            Rax: le_u64(bytes, at + 120),
            Rcx: le_u64(bytes, at + 128),
            Rdx: le_u64(bytes, at + 136),
            Rbx: le_u64(bytes, at + 144),
            Rsp: le_u64(bytes, at + 152),
            Rbp: le_u64(bytes, at + 160),
            Rsi: le_u64(bytes, at + 168),
            Rdi: le_u64(bytes, at + 176),
            R8: le_u64(bytes, at + 184),
            R9: le_u64(bytes, at + 192),
            R10: le_u64(bytes, at + 200),
            R11: le_u64(bytes, at + 208),
            R12: le_u64(bytes, at + 216),
            R13: le_u64(bytes, at + 224),
            R14: le_u64(bytes, at + 232),
            R15: le_u64(bytes, at + 240),
            Rip: le_u64(bytes, at + 248),
            Header: array_of(Seq::new(2, |j: int| le_u128(bytes, at + 256 + 16 * j))),
            Legacy: array_of(Seq::new(8, |j: int| le_u128(bytes, at + 288 + 16 * j))),
            Xmm0: le_u128(bytes, at + 416),
            Xmm1: le_u128(bytes, at + 432),
            Xmm2: le_u128(bytes, at + 448),
            Xmm3: le_u128(bytes, at + 464),
            Xmm4: le_u128(bytes, at + 480),
            Xmm5: le_u128(bytes, at + 496),
            Xmm6: le_u128(bytes, at + 512),
            Xmm7: le_u128(bytes, at + 528),
            Xmm8: le_u128(bytes, at + 544),
            Xmm9: le_u128(bytes, at + 560),
            Xmm10: le_u128(bytes, at + 576),
            Xmm11: le_u128(bytes, at + 592),
            Xmm12: le_u128(bytes, at + 608),
            Xmm13: le_u128(bytes, at + 624),
            Xmm14: le_u128(bytes, at + 640),
            Xmm15: le_u128(bytes, at + 656),
            Padding: array_of(bytes.subrange(at + 672, at + 768)),
            VectorRegister: array_of(Seq::new(26, |j: int| le_u128(bytes, at + 768 + 16 * j))),
            VectorControl: le_u64(bytes, at + 1184),
            DebugControl: le_u64(bytes, at + 1192),
            LastBranchToRip: le_u64(bytes, at + 1200),
            LastBranchFromRip: le_u64(bytes, at + 1208),
            LastExceptionToRip: le_u64(bytes, at + 1216),
            LastExceptionFromRip: le_u64(bytes, at + 1224),
        }
    }

    fn encoded_size() -> usize {
        1232
    }

    fn decode(buf: &[u8], at: usize) -> Self {
        CONTEXT_X64 {
            P1Home: read_u64(buf, at),
            P2Home: read_u64(buf, at + 8),
            P3Home: read_u64(buf, at + 16),
            P4Home: read_u64(buf, at + 24),
            P5Home: read_u64(buf, at + 32),
            P6Home: read_u64(buf, at + 40),
            ContextFlags: read_u32(buf, at + 48),
            MxCsr: read_u32(buf, at + 52),
            SegCs: read_u16(buf, at + 56),
            SegDs: read_u16(buf, at + 58),
            SegEs: read_u16(buf, at + 60),
            SegFs: read_u16(buf, at + 62),
            SegGs: read_u16(buf, at + 64),
            SegSs: read_u16(buf, at + 66),
            EFlags: read_u32(buf, at + 68),
            Dr0: read_u64(buf, at + 72),
            Dr1: read_u64(buf, at + 80),
            Dr2: read_u64(buf, at + 88),
            Dr3: read_u64(buf, at + 96),
            Dr6: read_u64(buf, at + 104),
            Dr7: read_u64(buf, at + 112),
            Rax: read_u64(buf, at + 120),
            Rcx: read_u64(buf, at + 128),
            Rdx: read_u64(buf, at + 136),
            Rbx: read_u64(buf, at + 144),
            Rsp: read_u64(buf, at + 152),
            Rbp: read_u64(buf, at + 160),
            Rsi: read_u64(buf, at + 168),
            Rdi: read_u64(buf, at + 176),
            R8: read_u64(buf, at + 184),
            R9: read_u64(buf, at + 192),
            R10: read_u64(buf, at + 200),
            R11: read_u64(buf, at + 208),
            R12: read_u64(buf, at + 216),
            R13: read_u64(buf, at + 224),
            R14: read_u64(buf, at + 232),
            R15: read_u64(buf, at + 240),
            Rip: read_u64(buf, at + 248),
            Header: read_u128s(buf, at + 256),
            Legacy: read_u128s(buf, at + 288),
            Xmm0: read_u128(buf, at + 416),
            Xmm1: read_u128(buf, at + 432),
            Xmm2: read_u128(buf, at + 448),
            Xmm3: read_u128(buf, at + 464),
            Xmm4: read_u128(buf, at + 480),
            Xmm5: read_u128(buf, at + 496),
            Xmm6: read_u128(buf, at + 512),
            Xmm7: read_u128(buf, at + 528),
            Xmm8: read_u128(buf, at + 544),
            Xmm9: read_u128(buf, at + 560),
            Xmm10: read_u128(buf, at + 576),
            Xmm11: read_u128(buf, at + 592),
            Xmm12: read_u128(buf, at + 608),
            Xmm13: read_u128(buf, at + 624),
            Xmm14: read_u128(buf, at + 640),
            Xmm15: read_u128(buf, at + 656),
            Padding: read_bytes(buf, at + 672),
            VectorRegister: read_u128s(buf, at + 768),
            VectorControl: read_u64(buf, at + 1184),
            DebugControl: read_u64(buf, at + 1192),
            LastBranchToRip: read_u64(buf, at + 1200),
            LastBranchFromRip: read_u64(buf, at + 1208),
            LastExceptionToRip: read_u64(buf, at + 1216),
            LastExceptionFromRip: read_u64(buf, at + 1224),
        }
    }
}

/// The registers of a thread of a 32-bit process: 716 bytes in the file.
#[derive(Debug, Clone, Copy, PartialEq, Eq)]
pub struct CONTEXT_X86 {
    pub ContextFlags: u32,
    pub Dr0: u32,
    pub Dr1: u32,
    pub Dr2: u32,
    pub Dr3: u32,
    pub Dr6: u32,
    pub Dr7: u32,
    pub ControlWord: u32,
    pub StatusWord: u32,
    pub TagWord: u32,
    pub ErrorOffset: u32,
    pub ErrorSelector: u32,
    pub DataOffset: u32,
    pub DataSelector: u32,
    pub RegisterArea: [u8; 80],
    pub Spare0: u32,
    pub SegGs: u32,
    pub SegFs: u32,
    pub SegEs: u32,
    pub SegDs: u32,
    pub Edi: u32,
    pub Esi: u32,
    pub Ebx: u32,
    pub Edx: u32,
    pub Ecx: u32,
    pub Eax: u32,
    pub Ebp: u32,
    pub Eip: u32,
    pub SegCs: u32,
    pub EFlags: u32,
    pub Esp: u32,
    pub SegSs: u32,
    pub ExtendedRegisters: [u8; 512],
}

impl Record for CONTEXT_X86 {
    open spec fn size() -> nat {
        716
    }

    open spec fn decoded(bytes: Seq<u8>, at: int) -> Self {
        CONTEXT_X86 {
            ContextFlags: le_u32(bytes, at),
            Dr0: le_u32(bytes, at + 4),
            Dr1: le_u32(bytes, at + 8),
            Dr2: le_u32(bytes, at + 12),
            Dr3: le_u32(bytes, at + 16),
            Dr6: le_u32(bytes, at + 20),
            Dr7: le_u32(bytes, at + 24),
            ControlWord: le_u32(bytes, at + 28),
            StatusWord: le_u32(bytes, at + 32),
            TagWord: le_u32(bytes, at + 36),
            ErrorOffset: le_u32(bytes, at + 40),
            ErrorSelector: le_u32(bytes, at + 44),
            DataOffset: le_u32(bytes, at + 48),
            DataSelector: le_u32(bytes, at + 52),
            RegisterArea: array_of(bytes.subrange(at + 56, at + 136)),
            Spare0: le_u32(bytes, at + 136),
            SegGs: le_u32(bytes, at + 140),
            SegFs: le_u32(bytes, at + 144),
            SegEs: le_u32(bytes, at + 148),
            SegDs: le_u32(bytes, at + 152),
            Edi: le_u32(bytes, at + 156),
            Esi: le_u32(bytes, at + 160),
            Ebx: le_u32(bytes, at + 164),
            Edx: le_u32(bytes, at + 168),
            Ecx: le_u32(bytes, at + 172),
            Eax: le_u32(bytes, at + 176),
            Ebp: le_u32(bytes, at + 180),
            Eip: le_u32(bytes, at + 184),
            SegCs: le_u32(bytes, at + 188),
            EFlags: le_u32(bytes, at + 192),
            Esp: le_u32(bytes, at + 196),
            SegSs: le_u32(bytes, at + 200),
            ExtendedRegisters: array_of(bytes.subrange(at + 204, at + 716)),
        }
    }

    fn encoded_size() -> usize {
        716
    }

    fn decode(buf: &[u8], at: usize) -> Self {
        CONTEXT_X86 {
            ContextFlags: read_u32(buf, at),
            Dr0: read_u32(buf, at + 4),
            Dr1: read_u32(buf, at + 8),
            Dr2: read_u32(buf, at + 12),
            Dr3: read_u32(buf, at + 16),
            Dr6: read_u32(buf, at + 20),
            Dr7: read_u32(buf, at + 24),
            ControlWord: read_u32(buf, at + 28),
            StatusWord: read_u32(buf, at + 32),
            TagWord: read_u32(buf, at + 36),
            ErrorOffset: read_u32(buf, at + 40),
            ErrorSelector: read_u32(buf, at + 44),
            DataOffset: read_u32(buf, at + 48),
            DataSelector: read_u32(buf, at + 52),
            RegisterArea: read_bytes(buf, at + 56),
            Spare0: read_u32(buf, at + 136),
            SegGs: read_u32(buf, at + 140),
            SegFs: read_u32(buf, at + 144),
            SegEs: read_u32(buf, at + 148),
            SegDs: read_u32(buf, at + 152),
            Edi: read_u32(buf, at + 156),
            Esi: read_u32(buf, at + 160),
            Ebx: read_u32(buf, at + 164),
            Edx: read_u32(buf, at + 168),
            Ecx: read_u32(buf, at + 172),
            Eax: read_u32(buf, at + 176),
            Ebp: read_u32(buf, at + 180),
            Eip: read_u32(buf, at + 184),
            SegCs: read_u32(buf, at + 188),
            EFlags: read_u32(buf, at + 192),
            Esp: read_u32(buf, at + 196),
            SegSs: read_u32(buf, at + 200),
            ExtendedRegisters: read_bytes(buf, at + 204),
        }
    }
}

} // verus!

use userdmp::context::{CONTEXT_X64, CONTEXT_X86};
use userdmp::data::{
    Record, MINIDUMP_DIRECTORY, MINIDUMP_HANDLE_DESCRIPTOR, MINIDUMP_HEADER,
    MINIDUMP_LOCATION_DESCRIPTOR, MINIDUMP_MEMORY_DESCRIPTOR, MINIDUMP_MEMORY_INFO,
    MINIDUMP_MODULE, MINIDUMP_SYSTEM_INFO, MINIDUMP_THREAD,
};
use userdmp::error::UserDmpError;
use userdmp::order::sort_streams;
use userdmp::text::{decode_text, resolve_string, trim_trailing_nuls};
use userdmp::{
    Arch, Handle, Memory, MinidumpStream, Module, System, Thread, ThreadContext, UserDump,
};

fn module_record(base: u64, size: u32) -> MINIDUMP_MODULE {
    let mut record = MINIDUMP_MODULE::decode(&[0u8; 108], 0);
    record.BaseOfImage = base;
    record.SizeOfImage = size;
    record.CheckSum = 0xabcd;
    record.TimeDateStamp = 0x6000_0000;
    record
}

fn memory_record(base: u64, size: u64) -> MINIDUMP_MEMORY_INFO {
    MINIDUMP_MEMORY_INFO {
        BaseAddress: base,
        AllocationBase: 0x1000,
        AllocationProtect: 0x40,
        alignment1: 0,
        RegionSize: size,
        State: 0x1000,
        Protect: 0x20,
        Type: 0x4_0000,
        alignment2: 0,
    }
}

fn system_record(arch: u16) -> MINIDUMP_SYSTEM_INFO {
    MINIDUMP_SYSTEM_INFO {
        ProcessorArchitecture: arch,
        ProcessorLevel: 6,
        ProcessorRevision: 0x5e03,
        NumberOfProcessors: 16,
        ProductType: 3,
        MajorVersion: 10,
        MinorVersion: 1,
        BuildNumber: 20348,
        PlatformId: 2,
        CSDVersionRva: 0x500,
        SuiteMask: 0x110,
        Reserved2: 0,
    }
}

fn location(size: u32, rva: u32) -> MINIDUMP_LOCATION_DESCRIPTOR {
    MINIDUMP_LOCATION_DESCRIPTOR { DataSize: size, RVA: rva }
}

fn entry(kind: u32, rva: u32) -> MINIDUMP_DIRECTORY {
    MINIDUMP_DIRECTORY { StreamType: kind, Location: location(0, rva) }
}

#[test]
fn system_from_its_record() {
    let system = System::try_from(system_record(9)).unwrap();
    assert_eq!(
        system,
        System {
            processor_architecture: Arch::X64,
            processor_level: 6,
            processor_revision: 0x5e03,
            number_of_processors: 16,
            product_type: 3,
            major_version: 10,
            minor_version: 1,
            build_number: 20348,
            platform_id: 2,
        }
    );
    let system = System::try_from(system_record(0)).unwrap();
    assert_eq!(system.processor_architecture, Arch::X86);
    assert_eq!(system.build_number, 20348);
    assert_eq!(
        System::try_from(system_record(12)),
        Err(UserDmpError::UnsupportedArchitecture(12))
    );
    assert_eq!(
        System::try_from(system_record(0x8664)),
        Err(UserDmpError::UnsupportedArchitecture(0x8664))
    );
}

#[test]
fn defaults_of_system_and_architecture() {
    assert_eq!(Arch::default(), Arch::X64);
    let system = System::default();
    assert_eq!(system.processor_architecture, Arch::X64);
    assert_eq!(system.processor_level, 0);
    assert_eq!(system.processor_revision, 0);
    assert_eq!(system.number_of_processors, 0);
    assert_eq!(system.product_type, 0);
    assert_eq!(system.major_version, 0);
    assert_eq!(system.minor_version, 0);
    assert_eq!(system.build_number, 0);
    assert_eq!(system.platform_id, 0);
}

#[test]
fn system_stream_through_the_trait() {
    let mut bytes = vec![0u8; 4];
    bytes.extend_from_slice(&[9, 0, 6, 0, 3, 0x5e, 2, 1]);
    bytes.extend_from_slice(&10u32.to_le_bytes());
    bytes.extend_from_slice(&0u32.to_le_bytes());
    bytes.extend_from_slice(&17763u32.to_le_bytes());
    bytes.extend_from_slice(&2u32.to_le_bytes());
    bytes.extend_from_slice(&[0u8; 8]);
    let system = <System as MinidumpStream>::parse(&bytes, 4).unwrap();
    assert_eq!(system.processor_architecture, Arch::X64);
    assert_eq!(system.processor_revision, 0x5e03);
    assert_eq!(system.number_of_processors, 2);
    assert_eq!(system.build_number, 17763);
    assert_eq!(
        <System as MinidumpStream>::parse(&bytes, 5).err(),
        Some(UserDmpError::MalformedRecord(5))
    );
}

#[test]
fn module_from_its_record() {
    let cv = [1u8, 2, 3];
    let misc = [9u8];
    let module =
        Module::new(&module_record(0x40_0000, 0x2_1000), "C:\\bin\\tool.exe".to_string(), &cv, &misc)
            .unwrap();
    assert_eq!(module.range, 0x40_0000..0x42_1000);
    assert_eq!(module.checksum, 0xabcd);
    assert_eq!(module.time_date_stamp, 0x6000_0000);
    assert_eq!(module.path, "C:\\bin\\tool.exe");
    assert_eq!(module.cv_record, &cv);
    assert_eq!(module.misc_record, &misc);
    assert_eq!(module.start_addr(), 0x40_0000);
    assert_eq!(module.end_addr(), 0x42_0fff);
    assert_eq!(module.len(), 0x2_1000);
    assert!(!module.is_empty());
    let copy = module.clone();
    assert_eq!(copy.range, module.range);
    assert_eq!(copy.path, module.path);
    assert_eq!(copy.cv_record, module.cv_record);
}

#[test]
fn module_with_empty_image_is_an_invalid_range() {
    for base in [0u64, 0x40_0000, u64::MAX] {
        let result = Module::new(&module_record(base, 0), "a".to_string(), &[], &[]);
        assert_eq!(result.err(), Some(UserDmpError::InvalidMemoryRange));
    }
}

#[test]
fn module_that_ends_beyond_the_address_space_is_an_invalid_range() {
    let result = Module::new(&module_record(u64::MAX, 1), "a".to_string(), &[], &[]);
    assert_eq!(result.err(), Some(UserDmpError::InvalidMemoryRange));
    let result = Module::new(&module_record(u64::MAX - 0xff, 0x100), "a".to_string(), &[], &[]);
    assert_eq!(result.err(), Some(UserDmpError::InvalidMemoryRange));
    let module = Module::new(&module_record(u64::MAX - 0xff, 0xff), "a".to_string(), &[], &[])
        .unwrap();
    assert_eq!(module.range, (u64::MAX - 0xff)..u64::MAX);
    assert_eq!(module.len(), 0xff);
}

#[test]
fn module_file_name_is_the_last_component_of_the_path() {
    let record = module_record(0x1000, 0x1000);
    let module = Module::new(&record, "/usr/lib/libc.so.6".to_string(), &[], &[]).unwrap();
    assert_eq!(module.name(), Some("libc.so.6"));
    let module = Module::new(&record, "plain.dll".to_string(), &[], &[]).unwrap();
    assert_eq!(module.name(), Some("plain.dll"));
    let module = Module::new(&record, "dir/sub/".to_string(), &[], &[]).unwrap();
    assert_eq!(module.name(), Some("sub"));
    let module = Module::new(&record, "".to_string(), &[], &[]).unwrap();
    assert_eq!(module.name(), None);
    let module = Module::new(&record, "dir/..".to_string(), &[], &[]).unwrap();
    assert_eq!(module.name(), None);
}

#[test]
fn module_file_name_of_a_plain_path_stands_behind_its_last_slash() {
    let record = module_record(0x1000, 0x1000);
    let cases = [
        ("a/b.dll", "b.dll"),
        ("tmp/foo.txt", "foo.txt"),
        ("x/y/z", "z"),
        ("plain", "plain"),
        ("opt/tools/app.exe", "app.exe"),
        ("dir.d/..name", "..name"),
        ("a/...", "..."),
        ("päth/möd✓.dll", "möd✓.dll"),
    ];
    for (path, name) in cases {
        let module = Module::new(&record, path.to_string(), &[], &[]).unwrap();
        assert_eq!(module.name(), Some(name));
    }
}

#[test]
fn module_file_name_is_a_piece_of_the_path() {
    let record = module_record(0x1000, 0x1000);
    let paths = [
        "/usr/lib/libc.so.6",
        "C:\\Windows\\System32\\ntdll.dll",
        "\\\\?\\C:\\mods/a.dll",
        "relative/dir/tool.exe",
        "trailing/slash/",
        "dots/./name/.",
        "naïve/päth/möd✓.dll",
        "plain",
        "",
        "/",
        "..",
    ];
    for path in paths {
        let module = Module::new(&record, path.to_string(), &[], &[]).unwrap();
        if let Some(name) = module.name() {
            assert!(!name.is_empty());
            if !path.contains('\\') {
                assert!(!name.contains('/'));
            }
            assert!(module.path.contains(name));
            // The name is borrowed from the path, not built anew.
            let start = module.path.as_ptr() as usize;
            let at = name.as_ptr() as usize;
            assert!(start <= at && at + name.len() <= start + module.path.len());
            assert_eq!(&module.path[at - start..at - start + name.len()], name);
        }
    }
}

#[test]
fn memory_from_its_record() {
    let memory = Memory::new(&memory_record(0x7ff0_0000, 0x3000)).unwrap();
    assert_eq!(memory.range, 0x7ff0_0000..0x7ff0_3000);
    assert_eq!(memory.allocation_base, 0x1000);
    assert_eq!(memory.allocation_protect, 0x40);
    assert_eq!(memory.state, 0x1000);
    assert_eq!(memory.protect, 0x20);
    assert_eq!(memory.type_, 0x4_0000);
    assert!(memory.data.is_empty());
    assert_eq!(memory.start_addr(), 0x7ff0_0000);
    assert_eq!(memory.end_addr(), 0x7ff0_3000);
    assert_eq!(memory.len(), 0x3000);
    assert!(!memory.is_empty());
    assert_eq!(memory.clone(), memory);
}

#[test]
fn memory_with_empty_region_is_an_invalid_range() {
    for base in [0u64, 0x7ff0_0000, u64::MAX] {
        assert_eq!(
            Memory::new(&memory_record(base, 0)).err(),
            Some(UserDmpError::InvalidMemoryRange)
        );
    }
}

#[test]
fn memory_that_ends_beyond_the_address_space_is_an_invalid_range() {
    assert_eq!(
        Memory::new(&memory_record(1, u64::MAX)).err(),
        Some(UserDmpError::InvalidMemoryRange)
    );
    assert_eq!(
        Memory::new(&memory_record(u64::MAX, 1)).err(),
        Some(UserDmpError::InvalidMemoryRange)
    );
    let memory = Memory::new(&memory_record(0, u64::MAX)).unwrap();
    assert_eq!(memory.range, 0..u64::MAX);
    assert_eq!(memory.len(), u64::MAX);
}

#[test]
fn names_of_memory_states() {
    let named = [
        (0x1000u32, "MEM_COMMIT"),
        (0x2000, "MEM_RESERVE"),
        (0x1_0000, ""),
        (0x8000, "MEM_RESET"),
        (0x10_0000, "MEM_TOP_DOWN"),
        (0, "UNKNOWN"),
        (0x3000, "UNKNOWN"),
        (0x1001, "UNKNOWN"),
        (u32::MAX, "UNKNOWN"),
    ];
    for (state, name) in named {
        let memory = Memory { range: 0..1, state, ..Memory::default() };
        assert_eq!(memory.state(), name);
    }
}

#[test]
fn names_of_memory_types() {
    let named = [
        (0x2_0000u32, "MEM_PRIVATE"),
        (0x4_0000, "MEM_MAPPED"),
        (0x100_0000, "MEM_IMAGE"),
        (0, "UNKNOWN"),
        (0x6_0000, "UNKNOWN"),
        (0x1000, "UNKNOWN"),
        (u32::MAX, "UNKNOWN"),
    ];
    for (kind, name) in named {
        let memory = Memory { range: 0..1, type_: kind, ..Memory::default() };
        assert_eq!(memory.type_memory(), name);
    }
}

#[test]
fn memory_of_an_empty_range() {
    let memory = Memory { range: 5..5, ..Memory::default() };
    assert_eq!(memory.len(), 0);
    assert!(memory.is_empty());
    assert_eq!(memory.start_addr(), 5);
    assert_eq!(memory.end_addr(), 5);
}

#[test]
fn thread_from_its_record() {
    let record = MINIDUMP_THREAD {
        ThreadId: 0x1234,
        SuspendCount: 2,
        PriorityClass: 0x80,
        Priority: 15,
        Teb: 0x7ffd_f000,
        Stack: MINIDUMP_MEMORY_DESCRIPTOR {
            StartOfMemoryRange: 0x12_0000,
            Memory: location(0x1000, 0x400),
        },
        ThreadContext: location(716, 0x1400),
    };
    let mut raw = vec![0u8; 716];
    raw[176..180].copy_from_slice(&0xdead_beefu32.to_le_bytes());
    let context = ThreadContext::decode(Arch::X86, &raw).unwrap();
    let thread = Thread::new(&record, context.clone());
    assert_eq!(thread.thread_id, 0x1234);
    assert_eq!(thread.suspend_count, 2);
    assert_eq!(thread.priority_class, 0x80);
    assert_eq!(thread.priority, 15);
    assert_eq!(thread.teb, 0x7ffd_f000);
    assert_eq!(thread.thread_id(), 0x1234);
    assert_eq!(thread.suspend_count(), 2);
    assert_eq!(thread.priority_class(), 0x80);
    assert_eq!(thread.priority(), 15);
    assert_eq!(thread.teb(), 0x7ffd_f000);
    assert_eq!(*thread.context(), context);
    match thread.context() {
        ThreadContext::X86(registers) => assert_eq!(registers.Eax, 0xdead_beef),
        ThreadContext::X64(_) => panic!("the context was decoded for x86"),
    }
}

#[test]
fn context_is_decoded_for_the_architecture() {
    let raw: Vec<u8> = (0..1232).map(|i| (i % 251) as u8).collect();
    let context = ThreadContext::decode(Arch::X64, &raw).unwrap();
    assert_eq!(context, ThreadContext::X64(Box::new(CONTEXT_X64::decode(&raw, 0))));
    match &context {
        ThreadContext::X64(registers) => {
            let mut rip = [0u8; 8];
            rip.copy_from_slice(&raw[248..256]);
            assert_eq!(registers.Rip, u64::from_le_bytes(rip));
        }
        ThreadContext::X86(_) => panic!("the context was decoded for x64"),
    }
    let context = ThreadContext::decode(Arch::X86, &raw[..716]).unwrap();
    assert_eq!(context, ThreadContext::X86(Box::new(CONTEXT_X86::decode(&raw, 0))));
}

#[test]
fn context_must_have_the_size_of_its_record() {
    let raw = vec![0u8; 1300];
    for len in [0usize, 1, 715, 717, 1231, 1233, 1300] {
        assert_eq!(
            ThreadContext::decode(Arch::X64, &raw[..len]).err(),
            Some(UserDmpError::InvalidContext)
        );
    }
    for len in [0usize, 1, 715, 717, 1232] {
        assert_eq!(
            ThreadContext::decode(Arch::X86, &raw[..len]).err(),
            Some(UserDmpError::InvalidContext)
        );
    }
}

#[test]
fn thread_list_for_an_unknown_architecture() {
    let mut bytes = Vec::new();
    bytes.extend_from_slice(&1u32.to_le_bytes());
    bytes.extend_from_slice(&[0u8; 40]);
    bytes.extend_from_slice(&716u32.to_le_bytes());
    bytes.extend_from_slice(&52u32.to_le_bytes());
    bytes.extend_from_slice(&[0u8; 716]);
    assert_eq!(Thread::parse(&bytes, 0, &None).err(), Some(UserDmpError::InvalidContext));
    assert_eq!(
        Thread::parse(&bytes, 0, &Some(Arch::X64)).err(),
        Some(UserDmpError::InvalidContext)
    );
    let threads = Thread::parse(&bytes, 0, &Some(Arch::X86)).unwrap();
    assert_eq!(threads.len(), 1);
    assert!(matches!(threads[&0].context(), ThreadContext::X86(_)));
    // The place of the context is resolved before the architecture is asked for.
    bytes.truncate(700);
    assert_eq!(Thread::parse(&bytes, 0, &None).err(), Some(UserDmpError::AddressNotFound(52)));
}

#[test]
fn handle_from_its_descriptor() {
    let descriptor = MINIDUMP_HANDLE_DESCRIPTOR {
        Handle: 0x2a4,
        TypeNameRva: 0x100,
        ObjectNameRva: 0x200,
        Attributes: 2,
        GrantedAccess: 0x12_019f,
        HandleCount: 1,
        PointerCount: 5,
    };
    let handle = Handle::new(Some("Mutant".to_string()), None, &descriptor);
    assert_eq!(handle.handle, 0x2a4);
    assert_eq!(handle.attributes, 2);
    assert_eq!(handle.granted_access, 0x12_019f);
    assert_eq!(handle.value(), 0x2a4);
    assert_eq!(handle.attributes(), 2);
    assert_eq!(handle.granted_access(), 0x12_019f);
    assert_eq!(handle.object_type_name(), Some("Mutant"));
    assert_eq!(handle.object_name(), None);
    assert_eq!(handle.handle(), "0x2a4");
    let name = "\\Sessions\\1\\BaseNamedObjects\\x".to_string();
    let handle = Handle::new(None, Some(name), &descriptor);
    assert_eq!(handle.object_type_name(), None);
    assert_eq!(handle.object_name(), Some("\\Sessions\\1\\BaseNamedObjects\\x"));
}

#[test]
fn handle_value_in_hexadecimal() {
    let mut descriptor = MINIDUMP_HANDLE_DESCRIPTOR::decode(&[0u8; 32], 0);
    let cases = [
        (0u64, "0x0"),
        (9, "0x9"),
        (10, "0xa"),
        (15, "0xf"),
        (16, "0x10"),
        (255, "0xff"),
        (0x1f4, "0x1f4"),
        (0xdead_beef, "0xdeadbeef"),
        (0x0123_4567_89ab_cdef, "0x123456789abcdef"),
        (u64::MAX, "0xffffffffffffffff"),
    ];
    for (value, text) in cases {
        descriptor.Handle = value;
        assert_eq!(Handle::new(None, None, &descriptor).handle(), text);
    }
}

#[test]
fn handle_name_at_offset_zero_is_absent() {
    let bytes = [4u8, 0, 0, 0, 0x41, 0, 0x42, 0];
    assert_eq!(Handle::resolve_name(&bytes, 0), Ok(None));
    let mut shifted = vec![0u8; 2];
    shifted.extend_from_slice(&bytes);
    assert_eq!(Handle::resolve_name(&shifted, 2), Ok(Some("AB".to_string())));
    assert_eq!(Handle::resolve_name(&shifted, 8), Err(UserDmpError::AddressNotFound(8)));
}

#[test]
fn file_type_name_is_resolved_without_its_nuls() {
    // A descriptor whose type name is the string "File", followed by two NULs.
    let mut bytes = vec![0u8; 16];
    bytes.extend_from_slice(&12u32.to_le_bytes());
    for unit in "File\0\0".encode_utf16() {
        bytes.extend_from_slice(&unit.to_le_bytes());
    }
    assert_eq!(resolve_string(&bytes, 16), Ok("File".to_string()));
    assert_eq!(Handle::resolve_name(&bytes, 16), Ok(Some("File".to_string())));

    let stream_at = bytes.len() as u32;
    bytes.extend_from_slice(&16u32.to_le_bytes());
    bytes.extend_from_slice(&32u32.to_le_bytes());
    bytes.extend_from_slice(&2u32.to_le_bytes());
    bytes.extend_from_slice(&0u32.to_le_bytes());
    for (value, kind_rva) in [(0x44u64, 16u32), (0x48, 0)] {
        bytes.extend_from_slice(&value.to_le_bytes());
        bytes.extend_from_slice(&kind_rva.to_le_bytes());
        bytes.extend_from_slice(&[0u8; 20]);
    }
    let handles = <Handle as MinidumpStream>::parse(&bytes, stream_at).unwrap();
    assert_eq!(handles[&0x44].object_type_name(), Some("File"));
    assert_eq!(handles[&0x48].object_type_name(), None);
}

#[test]
fn text_is_decoded_from_utf16() {
    let units: Vec<u16> = "héllo wörld ✓".encode_utf16().collect();
    assert_eq!(decode_text(&units), "héllo wörld ✓");
    assert_eq!(decode_text(&Vec::new()), "");
    assert_eq!(decode_text(&vec![0x41, 0x42, 0, 0]), "AB");
    assert_eq!(decode_text(&vec![0, 0x41, 0]), "\0A");
    assert_eq!(decode_text(&vec![0, 0, 0]), "");
    assert_eq!(decode_text(&vec![0xFFFF, 0xD7FF, 0xE000]), "\u{FFFF}\u{D7FF}\u{E000}");
}

#[test]
fn surrogate_pairs_are_joined() {
    assert_eq!(decode_text(&vec![0xD83D, 0xDE00]), "\u{1F600}");
    assert_eq!(decode_text(&vec![0xD800, 0xDC00]), "\u{10000}");
    assert_eq!(decode_text(&vec![0xDBFF, 0xDFFF]), "\u{10FFFF}");
    assert_eq!(decode_text(&vec![0x61, 0xD834, 0xDD1E, 0x62]), "a\u{1D11E}b");
}

#[test]
fn unpaired_surrogates_are_replaced() {
    assert_eq!(decode_text(&vec![0xD800]), "\u{FFFD}");
    assert_eq!(decode_text(&vec![0xDC00]), "\u{FFFD}");
    assert_eq!(decode_text(&vec![0xDFFF, 0x41]), "\u{FFFD}A");
    assert_eq!(decode_text(&vec![0xD800, 0x41]), "\u{FFFD}A");
    assert_eq!(decode_text(&vec![0xD800, 0xD800, 0xDC00]), "\u{FFFD}\u{10000}");
    assert_eq!(decode_text(&vec![0xDC00, 0xD800]), "\u{FFFD}\u{FFFD}");
    assert_eq!(decode_text(&vec![0x41, 0xDBFF, 0]), "A\u{FFFD}");
}

#[test]
fn nuls_at_the_end_are_trimmed() {
    assert_eq!(trim_trailing_nuls("abc\0\0"), "abc");
    assert_eq!(trim_trailing_nuls("abc"), "abc");
    assert_eq!(trim_trailing_nuls("a\0b\0"), "a\0b");
    assert_eq!(trim_trailing_nuls("\0abc"), "\0abc");
    assert_eq!(trim_trailing_nuls("\0"), "");
    assert_eq!(trim_trailing_nuls("\0\0\0"), "");
    assert_eq!(trim_trailing_nuls(""), "");
    assert_eq!(trim_trailing_nuls("naïve ✓\0"), "naïve ✓");
    assert_eq!(trim_trailing_nuls("0\0"), "0");
}

#[test]
fn string_is_resolved_at_its_offset() {
    let mut bytes = vec![0xffu8; 5];
    bytes.extend_from_slice(&10u32.to_le_bytes());
    for unit in "ntdll".encode_utf16() {
        bytes.extend_from_slice(&unit.to_le_bytes());
    }
    assert_eq!(resolve_string(&bytes, 5), Ok("ntdll".to_string()));
    // A length of 6 bytes takes three code units.
    bytes[5] = 6;
    assert_eq!(resolve_string(&bytes, 5), Ok("ntd".to_string()));
    bytes[5] = 7;
    assert_eq!(resolve_string(&bytes, 5), Ok("ntd".to_string()));
    bytes[5] = 12;
    assert_eq!(resolve_string(&bytes, 5), Err(UserDmpError::AddressNotFound(5)));
    assert_eq!(resolve_string(&bytes, 16), Err(UserDmpError::AddressNotFound(16)));
    assert_eq!(resolve_string(&bytes, u32::MAX), Err(UserDmpError::AddressNotFound(0xffff_ffff)));
}

#[test]
fn raw_data_of_a_location() {
    let bytes: Vec<u8> = (0..20).collect();
    assert_eq!(UserDump::extract_raw_data(&bytes, location(4, 3)), Ok(&bytes[3..7]));
    assert_eq!(UserDump::extract_raw_data(&bytes, location(20, 0)), Ok(&bytes[..]));
    assert_eq!(UserDump::extract_raw_data(&bytes, location(1, 19)), Ok(&bytes[19..]));
    let raw = UserDump::extract_raw_data(&bytes, location(4, 3)).unwrap();
    assert!(std::ptr::eq(raw.as_ptr(), bytes[3..].as_ptr()));
}

#[test]
fn raw_data_of_an_empty_location() {
    let bytes: Vec<u8> = (0..20).collect();
    let empty: &[u8] = &[];
    for rva in [0u32, 7, 19, 20, 21, 1000, u32::MAX] {
        assert_eq!(UserDump::extract_raw_data(&bytes, location(0, rva)), Ok(empty));
    }
    assert_eq!(UserDump::extract_raw_data(&[], location(0, 0)), Ok(empty));
    assert_eq!(UserDump::extract_raw_data(&[], location(0, 5)), Ok(empty));
}

#[test]
fn raw_data_outside_the_buffer() {
    let bytes: Vec<u8> = (0..20).collect();
    assert_eq!(
        UserDump::extract_raw_data(&bytes, location(1, 20)),
        Err(UserDmpError::AddressNotFound(20))
    );
    assert_eq!(
        UserDump::extract_raw_data(&bytes, location(21, 0)),
        Err(UserDmpError::AddressNotFound(0))
    );
    assert_eq!(
        UserDump::extract_raw_data(&bytes, location(5, 16)),
        Err(UserDmpError::AddressNotFound(16))
    );
    assert_eq!(
        UserDump::extract_raw_data(&bytes, location(u32::MAX, u32::MAX)),
        Err(UserDmpError::AddressNotFound(0xffff_ffff))
    );
    assert_eq!(
        UserDump::extract_raw_data(&[], location(1, 0)),
        Err(UserDmpError::AddressNotFound(0))
    );
}

#[test]
fn streams_are_sorted_by_descending_type() {
    let directory = vec![
        entry(3, 1),
        entry(7, 2),
        entry(3, 3),
        entry(12, 4),
        entry(4, 5),
        entry(0x8001, 6),
        entry(7, 7),
        entry(16, 8),
        entry(9, 9),
    ];
    let sorted = sort_streams(&directory);
    let kinds: Vec<u32> = sorted.iter().map(|e| e.StreamType).collect();
    assert_eq!(kinds, vec![0x8001, 16, 12, 9, 7, 7, 4, 3, 3]);
    // Streams of the same type keep the order of the directory.
    let places: Vec<u32> = sorted.iter().map(|e| e.Location.RVA).collect();
    assert_eq!(places, vec![6, 8, 4, 9, 2, 7, 5, 1, 3]);
    assert!(sort_streams(&Vec::new()).is_empty());
    assert_eq!(sort_streams(&vec![entry(5, 0)]), vec![entry(5, 0)]);
}

#[test]
fn sorting_keeps_every_stream() {
    let mut directory = Vec::new();
    let mut seed: u32 = 12345;
    for i in 0..200 {
        seed = seed.wrapping_mul(1_103_515_245).wrapping_add(12345);
        directory.push(entry((seed >> 16) % 20, i));
    }
    let sorted = sort_streams(&directory);
    assert_eq!(sorted.len(), directory.len());
    for pair in sorted.windows(2) {
        assert!(pair[0].StreamType >= pair[1].StreamType);
        if pair[0].StreamType == pair[1].StreamType {
            assert!(pair[0].Location.RVA < pair[1].Location.RVA);
        }
    }
    let mut expected = directory.clone();
    expected.sort_by_key(|e| std::cmp::Reverse(e.StreamType));
    assert_eq!(sorted, expected);
}

#[test]
fn header_is_validated() {
    let mut bytes = Vec::new();
    bytes.extend_from_slice(b"MDMP");
    bytes.extend_from_slice(&0xa793u32.to_le_bytes());
    bytes.extend_from_slice(&11u32.to_le_bytes());
    bytes.extend_from_slice(&0x20u32.to_le_bytes());
    bytes.extend_from_slice(&0u32.to_le_bytes());
    bytes.extend_from_slice(&5u32.to_le_bytes());
    bytes.extend_from_slice(&0x6543_2100u32.to_le_bytes());
    bytes.extend_from_slice(&0x0060_0000u64.to_le_bytes());
    assert_eq!(
        UserDump::read_header(&bytes),
        Ok(MINIDUMP_HEADER {
            Signature: 0x504D_444D,
            Version: 0xa793,
            NumberOfStreams: 11,
            StreamDirectoryRva: 0x20,
            CheckSum: 0,
            Reserved: 5,
            TimeDateStamp: 0x6543_2100,
            Flags: 0x0060_0000,
        })
    );
    assert_eq!(UserDump::read_header(&bytes[..35]), Err(UserDmpError::MalformedRecord(0)));
    bytes[28] = 0x40;
    assert_eq!(UserDump::read_header(&bytes), Err(UserDmpError::InvalidFlags(0x0060_0040)));
    bytes[1] = b'd';
    assert_eq!(UserDump::read_header(&bytes), Err(UserDmpError::InvalidSignature));
}

#[test]
fn directory_is_read_without_unused_entries() {
    let mut bytes = vec![0u8; 36];
    for (kind, size, rva) in [(7u32, 32u32, 100u32), (0, 1, 2), (3, 52, 200), (0xffff, 0, 0)] {
        bytes.extend_from_slice(&kind.to_le_bytes());
        bytes.extend_from_slice(&size.to_le_bytes());
        bytes.extend_from_slice(&rva.to_le_bytes());
    }
    let mut header = MINIDUMP_HEADER::decode(&bytes, 0);
    header.NumberOfStreams = 4;
    header.StreamDirectoryRva = 36;
    let streams = UserDump::read_directory(&bytes, &header).unwrap();
    assert_eq!(
        streams,
        vec![
            MINIDUMP_DIRECTORY { StreamType: 7, Location: location(32, 100) },
            MINIDUMP_DIRECTORY { StreamType: 3, Location: location(52, 200) },
            MINIDUMP_DIRECTORY { StreamType: 0xffff, Location: location(0, 0) },
        ]
    );
    header.NumberOfStreams = 2;
    assert_eq!(UserDump::read_directory(&bytes, &header).unwrap().len(), 1);
    header.NumberOfStreams = 100;
    assert_eq!(UserDump::read_directory(&bytes, &header).unwrap().len(), 3);
    assert_eq!(UserDump::read_directory(&bytes[..83], &header).unwrap().len(), 2);
    header.StreamDirectoryRva = 84;
    assert!(UserDump::read_directory(&bytes, &header).unwrap().is_empty());
    header.StreamDirectoryRva = 85;
    assert_eq!(
        UserDump::read_directory(&bytes, &header).err(),
        Some(UserDmpError::AddressNotFound(85))
    );
}

#[test]
fn exception_stream_is_read_whole() {
    let mut bytes = vec![0u8; 3];
    bytes.extend_from_slice(&0xbeefu32.to_le_bytes());
    bytes.extend_from_slice(&[0u8; 164]);
    assert_eq!(UserDump::parser_exception(&bytes, 3), Ok(0xbeef));
    assert_eq!(
        UserDump::parser_exception(&bytes, 4),
        Err(UserDmpError::MalformedRecord(4))
    );
    assert_eq!(
        UserDump::parser_exception(&bytes[..170], 3),
        Err(UserDmpError::MalformedRecord(3))
    );
}

#[test]
fn memory_streams_on_their_own() {
    let mut bytes = Vec::new();
    bytes.extend_from_slice(&16u32.to_le_bytes());
    bytes.extend_from_slice(&48u32.to_le_bytes());
    bytes.extend_from_slice(&1u64.to_le_bytes());
    bytes.extend_from_slice(&0x5000u64.to_le_bytes());
    bytes.extend_from_slice(&0x5000u64.to_le_bytes());
    bytes.extend_from_slice(&4u32.to_le_bytes());
    bytes.extend_from_slice(&0u32.to_le_bytes());
    bytes.extend_from_slice(&0x800u64.to_le_bytes());
    bytes.extend_from_slice(&0x1000u32.to_le_bytes());
    bytes.extend_from_slice(&2u32.to_le_bytes());
    bytes.extend_from_slice(&0x2_0000u32.to_le_bytes());
    bytes.extend_from_slice(&0u32.to_le_bytes());
    let regions = Memory::parser_memory_info(&bytes, 0).unwrap();
    assert_eq!(regions.len(), 1);
    assert_eq!(regions[&0x5000].range, 0x5000..0x5800);
    assert_eq!(regions[&0x5000].protect, 2);

    let at = bytes.len() as u32;
    bytes.extend_from_slice(&1u64.to_le_bytes());
    bytes.extend_from_slice(&4u64.to_le_bytes());
    bytes.extend_from_slice(&0x5000u64.to_le_bytes());
    bytes.extend_from_slice(&6u64.to_le_bytes());
    let regions = Memory::parser_memory64_list(&bytes, at).unwrap();
    assert_eq!(regions.len(), 1);
    assert_eq!(regions[&0x5000].range, 0x5000..0x5006);
    assert_eq!(regions[&0x5000].data, &bytes[4..10]);
    assert_eq!(
        Memory::parser_memory64_list(&bytes, at + 1).err(),
        Some(UserDmpError::MalformedRecord(at as u64 + 1))
    );
}

#[test]
fn module_stream_through_the_trait() {
    let mut bytes = Vec::new();
    bytes.extend_from_slice(&1u32.to_le_bytes());
    bytes.extend_from_slice(&0x1_4000_0000u64.to_le_bytes());
    bytes.extend_from_slice(&0x8000u32.to_le_bytes());
    bytes.extend_from_slice(&[0u8; 8]);
    bytes.extend_from_slice(&112u32.to_le_bytes());
    bytes.extend_from_slice(&[0u8; 84]);
    assert_eq!(bytes.len(), 112);
    bytes.extend_from_slice(&8u32.to_le_bytes());
    for unit in "a.so".encode_utf16() {
        bytes.extend_from_slice(&unit.to_le_bytes());
    }
    let modules = <Module as MinidumpStream>::parse(&bytes, 0).unwrap();
    assert_eq!(modules.len(), 1);
    assert_eq!(modules[&0x1_4000_0000].path, "a.so");
    assert_eq!(modules[&0x1_4000_0000].range, 0x1_4000_0000..0x1_4000_8000);
}

//! The memory regions of the captured process, from the two streams that
//! describe them, and the one map that both are merged into.
#![allow(non_snake_case)]

use crate::bytes::no_bytes;
use crate::data::{
    MINIDUMP_MEMORY64_LIST, MINIDUMP_MEMORY_DESCRIPTOR64, MINIDUMP_MEMORY_INFO,
    MINIDUMP_MEMORY_INFO_LIST,
};
use crate::error::UserDmpError;
use crate::stream::{
    agrees, keyed, lemma_keyed_ends, lemma_keyed_holds, lemma_keyed_rejects, lemma_keyed_step,
    lemma_keyed_stops,
    lemma_views_empty, lemma_views_insert, views,
};
use std::collections::BTreeMap;
use std::ops::Range;
use vstd::prelude::*;
use vstd::slice::slice_subrange;

verus! {

/// Represents memory regions in a minidump file, mapped by their base addresses.
pub type Memorys<'a> = BTreeMap<u64, Memory<'a>>;

/// Represents a memory region in a minidump file, providing metadata about its state,
/// protection level, allocation base, and type.
#[derive(Default, Debug, PartialEq, Eq)]
pub struct Memory<'a> {
    /// The range of memory addresses for this region.
    pub range: Range<u64>,
    /// The base address where this memory allocation begins.
    pub allocation_base: u64,
    /// The protection attributes applied at the time of memory allocation.
    pub allocation_protect: u32,
    /// The current state of the memory region: committed, reserved, or free.
    pub state: u32,
    /// The protection level of the memory region.
    pub protect: u32,
    /// The type of memory region: private, mapped, or image.
    pub type_: u32,
    /// The raw bytes of the memory region, as they lie in the minidump file.
    /// Empty where the dump describes the region without its content.
    pub data: &'a [u8],
}

/// What a `Memory` holds, as plain values.
pub ghost struct MemoryView {
    pub start: u64,
    pub end: u64,
    pub allocation_base: u64,
    pub allocation_protect: u32,
    pub state: u32,
    pub protect: u32,
    pub type_: u32,
    pub data: Seq<u8>,
}

impl<'a> View for Memory<'a> {
    type V = MemoryView;

    open spec fn view(&self) -> MemoryView {
        MemoryView {
            start: self.range.start,
            end: self.range.end,
            allocation_base: self.allocation_base,
            allocation_protect: self.allocation_protect,
            state: self.state,
            protect: self.protect,
            type_: self.type_,
            data: self.data@,
        }
    }
}

impl<'a> Clone for Memory<'a> {
    fn clone(&self) -> (r: Self)
        ensures
            r == *self,
    {
        Memory {
            range: Range { start: self.range.start, end: self.range.end },
            allocation_base: self.allocation_base,
            allocation_protect: self.allocation_protect,
            state: self.state,
            protect: self.protect,
            type_: self.type_,
            data: self.data,
        }
    }
}

/// The name of a memory state. The state of free memory has the empty name.
pub open spec fn state_name(state: u32) -> Seq<char> {
    if state == 0x1_0000 {
        ""@
    } else if state == 0x1000 {
        "MEM_COMMIT"@
    } else if state == 0x2000 {
        "MEM_RESERVE"@
    } else if state == 0x8000 {
        "MEM_RESET"@
    } else if state == 0x10_0000 {
        "MEM_TOP_DOWN"@
    } else {
        "UNKNOWN"@
    }
}

/// The name of a memory type.
pub open spec fn kind_name(type_: u32) -> Seq<char> {
    if type_ == 0x2_0000 {
        "MEM_PRIVATE"@
    } else if type_ == 0x4_0000 {
        "MEM_MAPPED"@
    } else if type_ == 0x100_0000 {
        "MEM_IMAGE"@
    } else {
        "UNKNOWN"@
    }
}

/// The one map that the regions of the two memory streams are merged into: the
/// regions of `memory_info`, and over them the regions of `memory64`. At an
/// address that both maps hold, the region of `memory64` stays whole, and that
/// of `memory_info` is dropped.
pub open spec fn merged<V>(memory_info: Map<u64, V>, memory64: Map<u64, V>) -> Map<u64, V> {
    memory_info.union_prefer_right(memory64)
}

/// Merging is idempotent: merging the regions of the memory64 stream into the
/// merged map once more changes nothing.
pub proof fn lemma_merge_idempotent<V>(memory_info: Map<u64, V>, memory64: Map<u64, V>)
    ensures
        merged(merged(memory_info, memory64), memory64) == merged(memory_info, memory64),
{
}

/// The offset at which the content of the range `i` of a memory64 list lies: the
/// base offset of the list, and after it the sizes of the ranges before `i`.
pub open spec fn content_offset(base: u64, ranges: Seq<MINIDUMP_MEMORY_DESCRIPTOR64>, i: int) -> int
    decreases i,
{
    if i <= 0 {
        base as int
    } else {
        content_offset(base, ranges, i - 1) + ranges[i - 1].DataSize
    }
}

impl<'a> Memory<'a> {
    /// Whether the region of `record` is an address range that is not empty and
    /// ends within the 64-bit address space.
    pub open spec fn valid_range(record: MINIDUMP_MEMORY_INFO) -> bool {
        record.RegionSize != 0 && record.BaseAddress + record.RegionSize <= u64::MAX
    }

    /// The memory region that a record of the memory-info stream describes. It
    /// has no content. An error when its range is not valid.
    pub open spec fn of_record(record: MINIDUMP_MEMORY_INFO) -> Result<MemoryView, UserDmpError> {
        if !Self::valid_range(record) {
            Err(UserDmpError::InvalidMemoryRange)
        } else {
            Ok(
                MemoryView {
                    start: record.BaseAddress,
                    end: (record.BaseAddress + record.RegionSize) as u64,
                    allocation_base: record.AllocationBase,
                    allocation_protect: record.AllocationProtect,
                    state: record.State,
                    protect: record.Protect,
                    type_: record.Type,
                    data: Seq::empty(),
                },
            )
        }
    }

    /// What one record of the memory-info stream gives: the base address of the
    /// region as the key, and the region.
    pub open spec fn info_entry(record: MINIDUMP_MEMORY_INFO) -> Result<
        (u64, MemoryView),
        UserDmpError,
    > {
        match Self::of_record(record) {
            Err(e) => Err(e),
            Ok(memory) => Ok((record.BaseAddress, memory)),
        }
    }

    /// The entries of the memory-info list whose records are `list`.
    pub open spec fn info_entries(list: Seq<MINIDUMP_MEMORY_INFO>) -> Seq<
        Result<(u64, MemoryView), UserDmpError>,
    > {
        Seq::new(list.len(), |i: int| Self::info_entry(list[i]))
    }

    /// What the memory-info stream at `at` of `bytes` decodes to: the regions by
    /// their base address. An error when the list does not lie inside the
    /// buffer, and the error of the first region that fails.
    pub open spec fn info_stream_at(bytes: Seq<u8>, at: int) -> Result<
        Map<u64, MemoryView>,
        UserDmpError,
    > {
        if !MINIDUMP_MEMORY_INFO_LIST::present(bytes, at) {
            Err(UserDmpError::MalformedRecord(at as u64))
        } else {
            keyed(Self::info_entries(MINIDUMP_MEMORY_INFO_LIST::entries_at(bytes, at)))
        }
    }

    /// What one range of the memory64 stream gives, when its content lies at
    /// `offset`: the start address of the range as the key, and a region that
    /// holds the content and no other attribute. An error when the range ends
    /// beyond the 64-bit address space. An error, carrying the start address,
    /// when the content does not lie inside the buffer: also for a range
    /// without content, when `offset` lies beyond the end of the buffer.
    pub open spec fn content_entry(
        bytes: Seq<u8>,
        range: MINIDUMP_MEMORY_DESCRIPTOR64,
        offset: int,
    ) -> Result<(u64, MemoryView), UserDmpError> {
        if range.StartOfMemoryRange + range.DataSize > u64::MAX {
            Err(UserDmpError::InvalidMemoryRange)
        } else if offset + range.DataSize > bytes.len() {
            Err(UserDmpError::AddressNotFound(range.StartOfMemoryRange))
        } else {
            Ok(
                (
                    range.StartOfMemoryRange,
                    MemoryView {
                        start: range.StartOfMemoryRange,
                        end: (range.StartOfMemoryRange + range.DataSize) as u64,
                        allocation_base: 0,
                        allocation_protect: 0,
                        state: 0,
                        protect: 0,
                        type_: 0,
                        data: bytes.subrange(offset, offset + range.DataSize),
                    },
                ),
            )
        }
    }

    /// The entries of the memory64 list whose ranges are `ranges` and whose
    /// content starts at `base`.
    pub open spec fn content_entries(
        bytes: Seq<u8>,
        base: u64,
        ranges: Seq<MINIDUMP_MEMORY_DESCRIPTOR64>,
    ) -> Seq<Result<(u64, MemoryView), UserDmpError>> {
        Seq::new(
            ranges.len(),
            |i: int| Self::content_entry(bytes, ranges[i], content_offset(base, ranges, i)),
        )
    }

    /// What the memory64 stream at `at` of `bytes` decodes to: the regions by
    /// their start address, each with its content. An error when the list does
    /// not lie inside the buffer, and the error of the first range that fails.
    pub open spec fn content_stream_at(bytes: Seq<u8>, at: int) -> Result<
        Map<u64, MemoryView>,
        UserDmpError,
    > {
        if !MINIDUMP_MEMORY64_LIST::present(bytes, at) {
            Err(UserDmpError::MalformedRecord(at as u64))
        } else {
            keyed(
                Self::content_entries(
                    bytes,
                    MINIDUMP_MEMORY64_LIST::base_at(bytes, at),
                    MINIDUMP_MEMORY64_LIST::ranges_at(bytes, at),
                ),
            )
        }
    }

    /// A range of the memory64 stream whose content does not lie inside the
    /// buffer is never accepted, whatever its size: where the offset of its
    /// content and its size pass the end of the buffer, the stream does not
    /// decode.
    pub proof fn lemma_content_outside_rejected(bytes: Seq<u8>, at: int, i: int)
        requires
            MINIDUMP_MEMORY64_LIST::present(bytes, at),
            0 <= i < MINIDUMP_MEMORY64_LIST::ranges_at(bytes, at).len(),
            content_offset(
                MINIDUMP_MEMORY64_LIST::base_at(bytes, at),
                MINIDUMP_MEMORY64_LIST::ranges_at(bytes, at),
                i,
            ) + MINIDUMP_MEMORY64_LIST::ranges_at(bytes, at)[i].DataSize > bytes.len(),
        ensures
            Self::content_stream_at(bytes, at) is Err,
    {
        lemma_keyed_rejects(
            Self::content_entries(
                bytes,
                MINIDUMP_MEMORY64_LIST::base_at(bytes, at),
                MINIDUMP_MEMORY64_LIST::ranges_at(bytes, at),
            ),
            i,
        );
    }

    /// Whether every region of `regions` stands under its start address and
    /// does not end before it starts.
    pub open spec fn keyed_by_start(regions: Map<u64, MemoryView>) -> bool {
        forall|start: u64|
            regions.contains_key(start) ==> (#[trigger] regions[start]).start == start
                && regions[start].start <= regions[start].end
    }

    /// The regions of a memory stream that decodes stand under their start
    /// addresses, and so do the regions of two such streams, merged.
    pub proof fn lemma_regions_keyed_by_start(bytes: Seq<u8>, info_at: int, content_at: int)
        ensures
            Self::info_stream_at(bytes, info_at) matches Ok(regions) ==> Self::keyed_by_start(
                regions,
            ),
            Self::content_stream_at(bytes, content_at) matches Ok(regions)
                ==> Self::keyed_by_start(regions),
            forall|a: Map<u64, MemoryView>, b: Map<u64, MemoryView>|
                Self::keyed_by_start(a) && Self::keyed_by_start(b) ==> Self::keyed_by_start(
                    #[trigger] merged(a, b),
                ),
    {
        let holds = |start: u64, region: MemoryView|
            region.start == start && region.start <= region.end;
        lemma_keyed_holds(
            Self::info_entries(MINIDUMP_MEMORY_INFO_LIST::entries_at(bytes, info_at)),
            holds,
        );
        lemma_keyed_holds(
            Self::content_entries(
                bytes,
                MINIDUMP_MEMORY64_LIST::base_at(bytes, content_at),
                MINIDUMP_MEMORY64_LIST::ranges_at(bytes, content_at),
            ),
            holds,
        );
    }

    /// A record of the memory-info stream whose region is empty is never
    /// accepted: alone it gives the error of an invalid range, and a stream
    /// that holds it at the place `i` does not decode.
    pub proof fn lemma_empty_region_rejected(bytes: Seq<u8>, at: int, i: int)
        requires
            MINIDUMP_MEMORY_INFO_LIST::present(bytes, at),
            0 <= i < MINIDUMP_MEMORY_INFO_LIST::entries_at(bytes, at).len(),
            MINIDUMP_MEMORY_INFO_LIST::entries_at(bytes, at)[i].RegionSize == 0,
        ensures
            Self::of_record(MINIDUMP_MEMORY_INFO_LIST::entries_at(bytes, at)[i]) == Err::<
                MemoryView,
                UserDmpError,
            >(UserDmpError::InvalidMemoryRange),
            Self::info_stream_at(bytes, at) is Err,
    {
        lemma_keyed_rejects(
            Self::info_entries(MINIDUMP_MEMORY_INFO_LIST::entries_at(bytes, at)),
            i,
        );
    }

    /// Creates a new `Memory` from a `MINIDUMP_MEMORY_INFO` record. Fails when
    /// the record describes an empty range, or one that ends beyond the 64-bit
    /// address space.
    pub fn new(memory: &MINIDUMP_MEMORY_INFO) -> (r: Result<Self, UserDmpError>)
        ensures
            match r {
                Ok(m) => Self::of_record(*memory) == Ok::<MemoryView, UserDmpError>(m@),
                Err(e) => Self::of_record(*memory) == Err::<MemoryView, UserDmpError>(e),
            },
    {
        if memory.RegionSize == 0 || memory.BaseAddress > u64::MAX - memory.RegionSize {
            return Err(UserDmpError::InvalidMemoryRange);
        }
        Ok(
            Memory {
                range: Range {
                    start: memory.BaseAddress,
                    end: memory.BaseAddress + memory.RegionSize,
                },
                allocation_base: memory.AllocationBase,
                allocation_protect: memory.AllocationProtect,
                state: memory.State,
                protect: memory.Protect,
                type_: memory.Type,
                data: no_bytes(),
            },
        )
    }

    /// Returns a textual description of the current memory state: `MEM_COMMIT`,
    /// `MEM_RESERVE`, `MEM_RESET` or `MEM_TOP_DOWN`; the empty string for free
    /// memory; `UNKNOWN` for any other state.
    pub fn state(&self) -> (r: &str)
        ensures
            r@ == state_name(self@.state),
    {
        if self.state == 0x10_000 {
            return "";
        }
        match self.state {
            0x1_000 => "MEM_COMMIT",
            0x2_000 => "MEM_RESERVE",
            0x8_000 => "MEM_RESET",
            0x100_000 => "MEM_TOP_DOWN",
            _ => "UNKNOWN",
        }
    }

    /// Returns a textual description of the memory type: `MEM_PRIVATE`,
    /// `MEM_MAPPED` or `MEM_IMAGE`; `UNKNOWN` for any other type.
    pub fn type_memory(&self) -> (r: &str)
        ensures
            r@ == kind_name(self@.type_),
    {
        match self.type_ {
            0x20_000 => "MEM_PRIVATE",
            0x40_000 => "MEM_MAPPED",
            0x1_000_000 => "MEM_IMAGE",
            _ => "UNKNOWN",
        }
    }

    /// Returns the starting address of the memory region.
    pub fn start_addr(&self) -> (r: u64)
        ensures
            r == self@.start,
    {
        self.range.start
    }

    /// Returns the address at which the memory region ends: the first address
    /// after it.
    pub fn end_addr(&self) -> (r: u64)
        ensures
            r == self@.end,
    {
        self.range.end
    }

    /// Returns the size of the memory region in bytes.
    pub fn len(&self) -> (r: u64)
        requires
            self.range.start <= self.range.end,
        ensures
            r == self@.end - self@.start,
    {
        self.range.end - self.range.start
    }

    /// Returns true if the memory region has zero size.
    pub fn is_empty(&self) -> (r: bool)
        requires
            self.range.start <= self.range.end,
        ensures
            r == (self@.start == self@.end),
    {
        self.len() == 0
    }

    /// Merges two maps of memory regions into a single map: the regions of
    /// `memory_info`, and over them the regions of `memory64`. At an address
    /// that both maps hold, the region of `memory64` stays.
    pub fn merge_memory(memory_info: Memorys<'a>, memory64: Memorys<'a>) -> (r: Result<
        Memorys<'a>,
        UserDmpError,
    >)
        ensures
            r matches Ok(all) && all@ == merged(memory_info@, memory64@),
    {
        let mut merged = memory_info;
        for pair in it: memory64.iter()
            invariant
                forall|j: int|
                    0 <= j < it.index() ==> merged@.contains_key(*(#[trigger] it.seq()[j]).0)
                        && merged@[*it.seq()[j].0] == *it.seq()[j].1,
                forall|k: u64|
                    merged@.contains_key(k) ==> memory_info@.contains_key(k)
                        || memory64@.contains_key(k),
                forall|k: u64| memory_info@.contains_key(k) ==> merged@.contains_key(k),
                forall|k: u64|
                    merged@.contains_key(k) && !memory64@.contains_key(k) ==> merged@[k]
                        == memory_info@[k],
        {
            let (address, memory) = pair;
            merged.insert(*address, memory.clone());
        }
        Ok(merged)
    }

    /// Parses memory information from the memory-info stream.
    pub fn parser_memory_info(buffer: &'a [u8], rva: u32) -> (r: Result<
        Memorys<'a>,
        UserDmpError,
    >)
        ensures
            agrees(r, Self::info_stream_at(buffer@, rva as int)),
    {
        let list = MINIDUMP_MEMORY_INFO_LIST::read(buffer, rva as usize)?;
        let ghost items = Self::info_entries(list.Entries@);
        let mut memorys: Memorys<'a> = BTreeMap::new();
        let mut i: usize = 0;
        proof {
            lemma_views_empty::<u64, Memory<'a>>();
        }
        while i < list.Entries.len()
            invariant
                i <= list.Entries.len(),
                items == Self::info_entries(list.Entries@),
                Self::info_stream_at(buffer@, rva as int) == keyed(items),
                keyed(items.take(i as int)) == Ok::<Map<u64, MemoryView>, UserDmpError>(
                    views(memorys@),
                ),
            decreases list.Entries.len() - i,
        {
            let record = &list.Entries[i];
            proof {
                lemma_keyed_step(items, i as int);
                if items[i as int] is Err {
                    lemma_keyed_stops(items, i + 1);
                }
            }
            let memory = Memory::new(record)?;
            proof {
                lemma_views_insert(memorys@, record.BaseAddress, memory);
            }
            memorys.insert(record.BaseAddress, memory);
            i += 1;
        }
        proof {
            lemma_keyed_ends(items);
        }
        Ok(memorys)
    }

    /// Parses memory regions and their content from the memory64 stream. The
    /// content of the first range lies at the base offset of the list, and the
    /// content of every other range after that of the range before it.
    pub fn parser_memory64_list(buffer: &'a [u8], rva: u32) -> (r: Result<
        Memorys<'a>,
        UserDmpError,
    >)
        ensures
            agrees(r, Self::content_stream_at(buffer@, rva as int)),
    {
        let list = MINIDUMP_MEMORY64_LIST::read(buffer, rva as usize)?;
        let ghost items = Self::content_entries(buffer@, list.BaseRva, list.Ranges@);
        let mut memorys: Memorys<'a> = BTreeMap::new();
        // Where the content of the current range lies, unless that is beyond
        // the end of the buffer.
        let mut position: Option<usize> = if list.BaseRva <= buffer.len() as u64 {
            Some(list.BaseRva as usize)
        } else {
            None
        };
        let mut i: usize = 0;
        proof {
            lemma_views_empty::<u64, Memory<'a>>();
        }
        while i < list.Ranges.len()
            invariant
                i <= list.Ranges.len(),
                buffer@.len() == buffer.len(),
                items == Self::content_entries(buffer@, list.BaseRva, list.Ranges@),
                Self::content_stream_at(buffer@, rva as int) == keyed(items),
                keyed(items.take(i as int)) == Ok::<Map<u64, MemoryView>, UserDmpError>(
                    views(memorys@),
                ),
                match position {
                    Some(p) => p == content_offset(list.BaseRva, list.Ranges@, i as int) && p
                        <= buffer.len(),
                    None => content_offset(list.BaseRva, list.Ranges@, i as int) > buffer.len(),
                },
            decreases list.Ranges.len() - i,
        {
            let range = &list.Ranges[i];
            proof {
                lemma_keyed_step(items, i as int);
                if items[i as int] is Err {
                    lemma_keyed_stops(items, i + 1);
                }
            }
            if range.StartOfMemoryRange > u64::MAX - range.DataSize {
                return Err(UserDmpError::InvalidMemoryRange);
            }
            let data: &'a [u8] = match position {
                Some(p) if range.DataSize <= (buffer.len() - p) as u64 => {
                    let size = range.DataSize as usize;
                    position = Some(p + size);
                    slice_subrange(buffer, p, p + size)
                },
                _ => {
                    return Err(UserDmpError::AddressNotFound(range.StartOfMemoryRange));
                },
            };
            let memory = Memory {
                range: Range {
                    start: range.StartOfMemoryRange,
                    end: range.StartOfMemoryRange + range.DataSize,
                },
                allocation_base: 0,
                allocation_protect: 0,
                state: 0,
                protect: 0,
                type_: 0,
                data,
            };
            proof {
                lemma_views_insert(memorys@, range.StartOfMemoryRange, memory);
            }
            memorys.insert(range.StartOfMemoryRange, memory);
            i += 1;
        }
        proof {
            lemma_keyed_ends(items);
        }
        Ok(memorys)
    }
}

} // verus!

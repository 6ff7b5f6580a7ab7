//! The dump as a whole: its header, its stream directory, and the streams that
//! it is decoded from.
#![allow(non_snake_case)]

pub use crate::handle::{Handle, Handles};
pub use crate::memory::{Memory, Memorys};
pub use crate::module::{Module, Modules};
pub use crate::stream::MinidumpStream;
pub use crate::system::{Arch, System};
pub use crate::thread::{Thread, ThreadContext, Threads};

use crate::bytes::{fits, has_room, le_u32, read_u32};
use crate::data::{
    read_records, records, Record, DUMP_FLAGS, MINIDUMP_DIRECTORY, MINIDUMP_EXCEPTION_STREAM,
    MINIDUMP_HEADER, MINIDUMP_LOCATION_DESCRIPTOR, MINIDUMP_SIGNATURE, MINIDUMP_STREAM_TYPE,
};
use crate::error::UserDmpError;
use crate::handle::HandleView;
use crate::memory::{merged, MemoryView};
use crate::module::ModuleView;
use crate::order::{
    descending, dispatch_order, lemma_dispatch_order_descends, lemma_system_info_before_threads,
    sort_streams,
};
use crate::stream::{lemma_views_empty, views};
use crate::thread::ThreadView;
use std::collections::BTreeMap;
use vstd::prelude::*;
use vstd::slice::slice_subrange;

verus! {

/// The bytes that `location` addresses in `bytes`: as many as it says, from its
/// offset on. No bytes when it says none, wherever its offset points. An error,
/// carrying the offset, when it says some and they do not all lie inside the
/// buffer.
pub open spec fn raw_data(bytes: Seq<u8>, location: MINIDUMP_LOCATION_DESCRIPTOR) -> Result<
    Seq<u8>,
    UserDmpError,
> {
    if location.DataSize == 0 {
        Ok(Seq::empty())
    } else if location.RVA + location.DataSize <= bytes.len() {
        Ok(bytes.subrange(location.RVA as int, location.RVA + location.DataSize))
    } else {
        Err(UserDmpError::AddressNotFound(location.RVA as u64))
    }
}

/// Whether `bytes` starts with the minidump signature.
pub open spec fn has_signature(bytes: Seq<u8>) -> bool {
    bytes.len() >= 4 && le_u32(bytes, 0) == MINIDUMP_SIGNATURE
}

/// The header of the dump in `bytes`, when it is one that this decoder accepts.
/// The signature is looked at first: a buffer that does not start with it has
/// an invalid signature, whatever else it holds and however short it is. Then
/// the whole header must lie inside the buffer, and none of `DUMP_FLAGS` may be
/// set in its flags.
pub open spec fn header_of(bytes: Seq<u8>) -> Result<MINIDUMP_HEADER, UserDmpError> {
    if !has_signature(bytes) {
        Err(UserDmpError::InvalidSignature)
    } else if bytes.len() < 36 {
        Err(UserDmpError::MalformedRecord(0))
    } else if MINIDUMP_HEADER::decoded(bytes, 0).Flags & DUMP_FLAGS != 0 {
        Err(UserDmpError::InvalidFlags(MINIDUMP_HEADER::decoded(bytes, 0).Flags))
    } else {
        Ok(MINIDUMP_HEADER::decoded(bytes, 0))
    }
}

/// How many entries of the directory of `header` lie inside the buffer: as many
/// as the header announces, or as many as there is room for after the offset of
/// the directory, if that is fewer.
pub open spec fn stored_entries(bytes: Seq<u8>, header: MINIDUMP_HEADER) -> nat {
    let room = (bytes.len() - header.StreamDirectoryRva) / 12;
    if header.NumberOfStreams <= room {
        header.NumberOfStreams as nat
    } else {
        room as nat
    }
}

/// The streams that the directory of `header` names: its entries that lie
/// inside the buffer, without those of the unused type, in the order of the
/// directory. An error, carrying the offset of the directory, when that offset
/// lies beyond the end of the buffer.
pub open spec fn directory_of(bytes: Seq<u8>, header: MINIDUMP_HEADER) -> Result<
    Seq<MINIDUMP_DIRECTORY>,
    UserDmpError,
> {
    if header.StreamDirectoryRva > bytes.len() {
        Err(UserDmpError::AddressNotFound(header.StreamDirectoryRva as u64))
    } else {
        Ok(
            records::<MINIDUMP_DIRECTORY>(
                bytes,
                header.StreamDirectoryRva as int,
                stored_entries(bytes, header),
                12,
            ).filter(|entry: MINIDUMP_DIRECTORY| entry.StreamType != 0),
        )
    }
}

/// What has been decoded from the streams of a dump.
pub ghost struct Decoded {
    /// The system information, once its stream has been decoded.
    pub system: Option<System>,
    pub modules: Map<u64, ModuleView>,
    pub threads: Map<u32, ThreadView>,
    /// The regions of the memory-info stream.
    pub memory_info: Map<u64, MemoryView>,
    /// The regions of the memory64 stream.
    pub memory64: Map<u64, MemoryView>,
    pub handles: Map<u64, HandleView>,
    pub exception_thread_id: Option<u32>,
}

impl Decoded {
    /// The state before any stream has been decoded.
    pub open spec fn nothing() -> Decoded {
        Decoded {
            system: None,
            modules: Map::empty(),
            threads: Map::empty(),
            memory_info: Map::empty(),
            memory64: Map::empty(),
            handles: Map::empty(),
            exception_thread_id: None,
        }
    }

    /// The architecture of the dump, once its system information has been
    /// decoded.
    pub open spec fn arch(self) -> Option<Arch> {
        match self.system {
            Some(system) => Some(system.processor_architecture),
            None => None,
        }
    }

    /// The dump that the decoded streams make up. A dump without system
    /// information has that of `System::unknown`. The regions of the two memory
    /// streams are merged; at an address that both describe, the region of the
    /// memory64 stream stays.
    pub open spec fn finish(self) -> UserDumpView {
        UserDumpView {
            exception_thread_id: self.exception_thread_id,
            system: match self.system {
                Some(system) => system,
                None => System::unknown(),
            },
            modules: self.modules,
            threads: self.threads,
            memorys: merged(self.memory_info, self.memory64),
            handles: self.handles,
        }
    }
}

/// The id of the faulting thread that the exception stream at `at` of `bytes`
/// holds. An error when the stream does not lie inside the buffer.
pub open spec fn exception_at(bytes: Seq<u8>, at: int) -> Result<u32, UserDmpError> {
    if fits(bytes.len(), at, 168) {
        Ok(le_u32(bytes, at))
    } else {
        Err(UserDmpError::MalformedRecord(at as u64))
    }
}

/// What decoding the stream of `entry` makes of `state`. A stream of one of the
/// seven types that are decoded replaces what an earlier stream of its type
/// gave, and its error is the error of the step. The thread list is decoded for
/// the architecture that `state` holds. A stream of any other type leaves
/// `state` as it is.
#[verifier::opaque]
pub open spec fn step(bytes: Seq<u8>, state: Decoded, entry: MINIDUMP_DIRECTORY) -> Result<
    Decoded,
    UserDmpError,
> {
    let at = entry.Location.RVA as int;
    if entry.StreamType == MINIDUMP_STREAM_TYPE::SystemInfoStream.code() {
        match System::stream_at(bytes, at) {
            Ok(system) => Ok(Decoded { system: Some(system), ..state }),
            Err(e) => Err(e),
        }
    } else if entry.StreamType == MINIDUMP_STREAM_TYPE::ModuleListStream.code() {
        match Module::stream_at(bytes, at) {
            Ok(modules) => Ok(Decoded { modules, ..state }),
            Err(e) => Err(e),
        }
    } else if entry.StreamType == MINIDUMP_STREAM_TYPE::HandleDataStream.code() {
        match Handle::stream_at(bytes, at) {
            Ok(handles) => Ok(Decoded { handles, ..state }),
            Err(e) => Err(e),
        }
    } else if entry.StreamType == MINIDUMP_STREAM_TYPE::ExceptionStream.code() {
        match exception_at(bytes, at) {
            Ok(id) => Ok(Decoded { exception_thread_id: Some(id), ..state }),
            Err(e) => Err(e),
        }
    } else if entry.StreamType == MINIDUMP_STREAM_TYPE::ThreadListStream.code() {
        match Thread::stream_at(bytes, at, state.arch()) {
            Ok(threads) => Ok(Decoded { threads, ..state }),
            Err(e) => Err(e),
        }
    } else if entry.StreamType == MINIDUMP_STREAM_TYPE::MemoryInfoListStream.code() {
        match Memory::info_stream_at(bytes, at) {
            Ok(memory_info) => Ok(Decoded { memory_info, ..state }),
            Err(e) => Err(e),
        }
    } else if entry.StreamType == MINIDUMP_STREAM_TYPE::Memory64ListStream.code() {
        match Memory::content_stream_at(bytes, at) {
            Ok(memory64) => Ok(Decoded { memory64, ..state }),
            Err(e) => Err(e),
        }
    } else {
        Ok(state)
    }
}

/// What decoding the streams of `order`, one after the other, gives. The first
/// stream that fails gives its error to the whole.
pub open spec fn run(bytes: Seq<u8>, order: Seq<MINIDUMP_DIRECTORY>) -> Result<
    Decoded,
    UserDmpError,
>
    decreases order.len(),
{
    if order.len() == 0 {
        Ok(Decoded::nothing())
    } else {
        match run(bytes, order.drop_last()) {
            Err(e) => Err(e),
            Ok(state) => step(bytes, state, order.last()),
        }
    }
}

/// The dump that `bytes` holds: its header is checked, its directory is read,
/// its streams are decoded in dispatch order, and what they gave is put
/// together. The error of the first of these that fails, else.
pub open spec fn dump_of(bytes: Seq<u8>) -> Result<UserDumpView, UserDmpError> {
    match header_of(bytes) {
        Err(e) => Err(e),
        Ok(header) => match directory_of(bytes, header) {
            Err(e) => Err(e),
            Ok(entries) => match run(bytes, dispatch_order(entries)) {
                Err(e) => Err(e),
                Ok(state) => Ok(state.finish()),
            },
        },
    }
}

/// Represents a parsed minidump file, containing system information, modules,
/// threads, memory regions and handles.
#[derive(Debug)]
pub struct UserDump<'a> {
    /// The ID of the thread that the exception of the dump belongs to.
    pub exception_thread_id: Option<u32>,
    /// System information of the dump.
    pub system: System,
    /// The list of modules in the captured process.
    modules: Modules<'a>,
    /// The list of threads in the captured process.
    threads: Threads,
    /// The list of memory regions in the captured process.
    memorys: Memorys<'a>,
    /// The list of handles in the captured process.
    handles: Handles,
}

/// What a `UserDump` holds, as plain values.
pub ghost struct UserDumpView {
    pub exception_thread_id: Option<u32>,
    pub system: System,
    pub modules: Map<u64, ModuleView>,
    pub threads: Map<u32, ThreadView>,
    pub memorys: Map<u64, MemoryView>,
    pub handles: Map<u64, HandleView>,
}

impl UserDumpView {
    /// Whether every entity of the dump stands under the key that identifies
    /// it: a module under its base address, a thread under its identifier, a
    /// memory region under its start address, a handle under its value; no
    /// module has an empty range; and the context of every thread has the
    /// register layout of the architecture of the dump.
    pub open spec fn wf(self) -> bool {
        &&& Module::keyed_by_base(self.modules)
        &&& Thread::keyed_by_id(self.threads)
        &&& Thread::contexts_of(self.threads, self.system.processor_architecture)
        &&& Memory::keyed_by_start(self.memorys)
        &&& Handle::keyed_by_value(self.handles)
    }
}

impl<'a> View for UserDump<'a> {
    type V = UserDumpView;

    closed spec fn view(&self) -> UserDumpView {
        UserDumpView {
            exception_thread_id: self.exception_thread_id,
            system: self.system,
            modules: views(self.modules@),
            threads: views(self.threads@),
            memorys: views(self.memorys@),
            handles: views(self.handles@),
        }
    }
}

/// The streams of a dump while they are decoded.
struct Streams<'a> {
    system: Option<System>,
    modules: Modules<'a>,
    threads: Threads,
    memory_info: Memorys<'a>,
    memory64: Memorys<'a>,
    handles: Handles,
    exception_thread_id: Option<u32>,
}

impl<'a> View for Streams<'a> {
    type V = Decoded;

    closed spec fn view(&self) -> Decoded {
        Decoded {
            system: self.system,
            modules: views(self.modules@),
            threads: views(self.threads@),
            memory_info: views(self.memory_info@),
            memory64: views(self.memory64@),
            handles: views(self.handles@),
            exception_thread_id: self.exception_thread_id,
        }
    }
}

/// The views of two maps that are merged.
proof fn lemma_views_merge<K, V: View>(a: Map<K, V>, b: Map<K, V>)
    ensures
        views(a.union_prefer_right(b)) == views(a).union_prefer_right(views(b)),
{
}

impl<'a> Streams<'a> {
    /// The state before any stream has been decoded.
    fn new() -> (r: Self)
        ensures
            r@ == Decoded::nothing(),
    {
        let r = Streams {
            system: None,
            modules: BTreeMap::new(),
            threads: BTreeMap::new(),
            memory_info: BTreeMap::new(),
            memory64: BTreeMap::new(),
            handles: BTreeMap::new(),
            exception_thread_id: None,
        };
        proof {
            lemma_views_empty::<u64, Module<'a>>();
            lemma_views_empty::<u32, Thread>();
            lemma_views_empty::<u64, Memory<'a>>();
            lemma_views_empty::<u64, Handle>();
        }
        r
    }

    /// Decodes the stream that `entry` names, and puts what it gave in the
    /// place of what an earlier stream of its type gave.
    fn decode(self, buffer: &'a [u8], entry: &MINIDUMP_DIRECTORY) -> (r: Result<
        Streams<'a>,
        UserDmpError,
    >)
        ensures
            match r {
                Ok(next) => step(buffer@, self@, *entry) == Ok::<Decoded, UserDmpError>(next@),
                Err(e) => step(buffer@, self@, *entry) == Err::<Decoded, UserDmpError>(e),
            },
    {
        reveal(step);
        let rva = entry.Location.RVA;
        let mut state = self;
        match MINIDUMP_STREAM_TYPE::try_from(entry.StreamType) {
            Ok(MINIDUMP_STREAM_TYPE::SystemInfoStream) => {
                state.system = Some(UserDump::parse_stream::<System>(buffer, rva)?);
            },
            Ok(MINIDUMP_STREAM_TYPE::ModuleListStream) => {
                state.modules = UserDump::parse_stream::<Module<'a>>(buffer, rva)?;
            },
            Ok(MINIDUMP_STREAM_TYPE::HandleDataStream) => {
                state.handles = UserDump::parse_stream::<Handle>(buffer, rva)?;
            },
            Ok(MINIDUMP_STREAM_TYPE::ExceptionStream) => {
                state.exception_thread_id = Some(UserDump::parser_exception(buffer, rva)?);
            },
            Ok(MINIDUMP_STREAM_TYPE::ThreadListStream) => {
                let arch = match state.system {
                    Some(system) => Some(system.processor_architecture),
                    None => None,
                };
                state.threads = Thread::parse(buffer, rva, &arch)?;
            },
            Ok(MINIDUMP_STREAM_TYPE::MemoryInfoListStream) => {
                state.memory_info = Memory::parser_memory_info(buffer, rva)?;
            },
            Ok(MINIDUMP_STREAM_TYPE::Memory64ListStream) => {
                state.memory64 = Memory::parser_memory64_list(buffer, rva)?;
            },
            _ => {},
        }
        Ok(state)
    }
}

/// The four bytes `MDMP`, with which every minidump starts.
pub open spec fn signature_bytes() -> Seq<u8> {
    seq![0x4Du8, 0x44u8, 0x4Du8, 0x50u8]
}

/// A buffer starts with the signature exactly when its first four bytes are
/// `MDMP`.
pub proof fn lemma_signature_bytes(bytes: Seq<u8>)
    ensures
        has_signature(bytes) <==> bytes.len() >= 4 && bytes.subrange(0, 4) == signature_bytes(),
{
    if bytes.len() >= 4 {
        let first = bytes.subrange(0, 4);
        if has_signature(bytes) {
            assert(first =~= signature_bytes());
        }
    }
}

/// Every buffer whose first four bytes are not the signature is rejected for
/// its signature, whatever else it holds.
pub proof fn lemma_wrong_signature_rejected(bytes: Seq<u8>)
    requires
        bytes.len() < 4 || bytes.subrange(0, 4) != signature_bytes(),
    ensures
        dump_of(bytes) == Err::<UserDumpView, UserDmpError>(UserDmpError::InvalidSignature),
{
    lemma_signature_bytes(bytes);
}

/// Every header with one of the bits of `DUMP_FLAGS` set in its flags is
/// rejected for its flags, and the error carries the flags of the header.
pub proof fn lemma_flags_rejected(bytes: Seq<u8>)
    requires
        has_signature(bytes),
        bytes.len() >= 36,
        MINIDUMP_HEADER::decoded(bytes, 0).Flags & DUMP_FLAGS != 0,
    ensures
        dump_of(bytes) == Err::<UserDumpView, UserDmpError>(
            UserDmpError::InvalidFlags(MINIDUMP_HEADER::decoded(bytes, 0).Flags),
        ),
{
}

/// A dump whose header places the stream directory beyond the end of the
/// buffer is rejected, and the error carries the offset of the directory.
pub proof fn lemma_directory_beyond_buffer(bytes: Seq<u8>, header: MINIDUMP_HEADER)
    requires
        header_of(bytes) == Ok::<MINIDUMP_HEADER, UserDmpError>(header),
        header.StreamDirectoryRva > bytes.len(),
    ensures
        dump_of(bytes) == Err::<UserDumpView, UserDmpError>(
            UserDmpError::AddressNotFound(header.StreamDirectoryRva as u64),
        ),
{
}

/// A location that says it holds no bytes addresses the empty sequence of
/// bytes, wherever its offset points; it is never an error.
pub proof fn lemma_empty_location(bytes: Seq<u8>, offset: u32)
    ensures
        raw_data(bytes, MINIDUMP_LOCATION_DESCRIPTOR { DataSize: 0, RVA: offset }) == Ok::<
            Seq<u8>,
            UserDmpError,
        >(Seq::empty()),
{
}

/// Whether every entity that has been decoded stands under the key that
/// identifies it.
pub open spec fn well_keyed(state: Decoded) -> bool {
    &&& Module::keyed_by_base(state.modules)
    &&& Thread::keyed_by_id(state.threads)
    &&& Memory::keyed_by_start(state.memory_info)
    &&& Memory::keyed_by_start(state.memory64)
    &&& Handle::keyed_by_value(state.handles)
}

/// Decoding the streams of an order leaves every entity under its key.
proof fn lemma_run_well_keyed(bytes: Seq<u8>, order: Seq<MINIDUMP_DIRECTORY>)
    ensures
        run(bytes, order) matches Ok(state) ==> well_keyed(state),
    decreases order.len(),
{
    reveal(step);
    if order.len() > 0 {
        lemma_run_well_keyed(bytes, order.drop_last());
        let at = order.last().Location.RVA as int;
        match run(bytes, order.drop_last()) {
            Ok(state) => {
                Module::lemma_modules_keyed_by_base(bytes, at);
                Thread::lemma_threads_keyed_by_id(bytes, at, state.arch());
                Memory::lemma_regions_keyed_by_start(bytes, at, at);
                Handle::lemma_handles_keyed_by_value(bytes, at);
            },
            Err(_) => {},
        }
    }
}

/// Whether the contexts of the threads that have been decoded have the
/// register layout of the architecture that has been decoded. Before there is
/// an architecture there is no thread.
pub open spec fn contexts_match(state: Decoded) -> bool {
    match state.system {
        Some(system) => Thread::contexts_of(state.threads, system.processor_architecture),
        None => state.threads == Map::<u32, ThreadView>::empty(),
    }
}

/// Decoding the streams of an order that descends leaves every context in the
/// register layout of the architecture: no system information is decoded
/// after a thread list, and a thread list is decoded for the architecture of
/// the system information before it.
proof fn lemma_run_contexts_match(bytes: Seq<u8>, order: Seq<MINIDUMP_DIRECTORY>)
    requires
        descending(order),
    ensures
        run(bytes, order) matches Ok(state) ==> contexts_match(state) && ((forall|k: int|
            0 <= k < order.len() ==> order[k].StreamType
                != MINIDUMP_STREAM_TYPE::ThreadListStream.code()) ==> state.threads == Map::<
            u32,
            ThreadView,
        >::empty()),
    decreases order.len(),
{
    reveal(step);
    if order.len() > 0 {
        let before = order.drop_last();
        let entry = order.last();
        assert forall|k: int| 0 <= k < before.len() implies before[k].StreamType
            >= entry.StreamType by {
            assert(before[k] == order[k]);
        }
        assert(descending(before)) by {
            assert forall|i: int, j: int| 0 <= i < j < before.len() implies before[i].StreamType
                >= before[j].StreamType by {
                assert(before[i] == order[i] && before[j] == order[j]);
            }
        }
        lemma_run_contexts_match(bytes, before);
        match run(bytes, before) {
            Ok(state) => {
                Thread::lemma_contexts_of_architecture(
                    bytes,
                    entry.Location.RVA as int,
                    state.arch(),
                );
            },
            Err(_) => {},
        }
    }
}

/// In every dump that decodes, each entity stands under the key that
/// identifies it, once, no module has an empty range, and the context of
/// every thread has the register layout of the architecture of the dump,
/// in whatever order the directory names the streams.
pub proof fn lemma_dump_well_formed(bytes: Seq<u8>)
    ensures
        dump_of(bytes) matches Ok(dump) ==> dump.wf(),
{
    match header_of(bytes) {
        Ok(header) => match directory_of(bytes, header) {
            Ok(entries) => {
                lemma_run_well_keyed(bytes, dispatch_order(entries));
                lemma_dispatch_order_descends(entries);
                lemma_run_contexts_match(bytes, dispatch_order(entries));
                Memory::lemma_regions_keyed_by_start(bytes, 0, 0);
            },
            Err(_) => {},
        },
        Err(_) => {},
    }
}

/// The architecture that a thread list is decoded for is that of the system
/// information of the dump. Where the system-info stream at the place `i` of
/// the dispatch order is the last of its type, and a thread list stands at the
/// place `j`, the streams before `j` have given the system information of the
/// stream at `i` by the time the thread list is decoded.
pub proof fn lemma_threads_see_system_info(
    bytes: Seq<u8>,
    entries: Seq<MINIDUMP_DIRECTORY>,
    i: int,
    j: int,
)
    requires
        0 <= i < dispatch_order(entries).len(),
        0 <= j < dispatch_order(entries).len(),
        dispatch_order(entries)[i].StreamType == MINIDUMP_STREAM_TYPE::SystemInfoStream.code(),
        forall|k: int|
            i < k < dispatch_order(entries).len() ==> dispatch_order(entries)[k].StreamType
                != MINIDUMP_STREAM_TYPE::SystemInfoStream.code(),
        dispatch_order(entries)[j].StreamType == MINIDUMP_STREAM_TYPE::ThreadListStream.code(),
        run(bytes, dispatch_order(entries).take(j)) is Ok,
    ensures
        i < j,
        System::stream_at(bytes, dispatch_order(entries)[i].Location.RVA as int) is Ok,
        run(bytes, dispatch_order(entries).take(j)).unwrap().system == Some(
            System::stream_at(bytes, dispatch_order(entries)[i].Location.RVA as int).unwrap(),
        ),
{
    lemma_system_info_before_threads(entries, i, j);
    lemma_system_info_stays(bytes, dispatch_order(entries), i, j);
}

/// What the last system-info stream of `order` gave is still there after each
/// of the streams behind it.
proof fn lemma_system_info_stays(bytes: Seq<u8>, order: Seq<MINIDUMP_DIRECTORY>, i: int, k: int)
    requires
        0 <= i < k <= order.len(),
        order[i].StreamType == MINIDUMP_STREAM_TYPE::SystemInfoStream.code(),
        forall|n: int|
            i < n < order.len() ==> order[n].StreamType
                != MINIDUMP_STREAM_TYPE::SystemInfoStream.code(),
        run(bytes, order.take(k)) is Ok,
    ensures
        System::stream_at(bytes, order[i].Location.RVA as int) is Ok,
        run(bytes, order.take(k)).unwrap().system == Some(
            System::stream_at(bytes, order[i].Location.RVA as int).unwrap(),
        ),
    decreases k - i,
{
    reveal(step);
    lemma_run_step(bytes, order, k - 1);
    if k - 1 > i {
        lemma_system_info_stays(bytes, order, i, k - 1);
    }
}

/// Decoding one more stream: what the first `i + 1` streams of `order` give,
/// from what the first `i` give.
pub proof fn lemma_run_step(bytes: Seq<u8>, order: Seq<MINIDUMP_DIRECTORY>, i: int)
    requires
        0 <= i < order.len(),
    ensures
        run(bytes, order.take(i + 1)) == match run(bytes, order.take(i)) {
            Err(e) => Err(e),
            Ok(state) => step(bytes, state, order[i]),
        },
{
    assert(order.take(i + 1).drop_last() =~= order.take(i));
}

/// A stream that fails makes the whole fail: once the first `n` streams of
/// `order` give an error, all of them give that error.
pub proof fn lemma_run_stops(bytes: Seq<u8>, order: Seq<MINIDUMP_DIRECTORY>, n: int)
    requires
        0 <= n <= order.len(),
        run(bytes, order.take(n)) is Err,
    ensures
        run(bytes, order) == run(bytes, order.take(n)),
    decreases order.len() - n,
{
    if n < order.len() {
        lemma_run_step(bytes, order, n);
        lemma_run_stops(bytes, order, n + 1);
    } else {
        assert(order.take(n) =~= order);
    }
}

impl<'a> UserDump<'a> {
    /// Returns the system information of the dump: that of its system-info
    /// stream, or that of `System::unknown` where it has none.
    pub fn system(&self) -> (r: System)
        ensures
            r == self@.system,
    {
        self.system
    }

    /// Returns the ID of the thread that the exception of the dump belongs
    /// to, where the dump has an exception stream.
    pub fn exception_thread_id(&self) -> (r: Option<u32>)
        ensures
            r == self@.exception_thread_id,
    {
        self.exception_thread_id
    }

    /// Returns a reference to the list of threads in the parsed minidump.
    pub fn threads(&self) -> (r: &Threads)
        ensures
            views(r@) == self@.threads,
    {
        &self.threads
    }

    /// Returns a reference to the list of modules in the parsed minidump.
    pub fn modules(&self) -> (r: &Modules<'a>)
        ensures
            views(r@) == self@.modules,
    {
        &self.modules
    }

    /// Returns a reference to the list of memory regions in the parsed minidump.
    pub fn memorys(&self) -> (r: &Memorys<'a>)
        ensures
            views(r@) == self@.memorys,
    {
        &self.memorys
    }

    /// Returns a reference to the list of handles in the parsed minidump.
    pub fn handles(&self) -> (r: &Handles)
        ensures
            views(r@) == self@.handles,
    {
        &self.handles
    }

    /// Parses a minidump from the bytes of its file.
    ///
    /// The header is validated, the stream directory is read, and the streams
    /// are decoded by descending stream type. An error in a stream that is
    /// decoded fails the whole parse. The regions of the two memory streams are
    /// merged into one map.
    pub fn parse(buffer: &'a [u8]) -> (r: Result<Self, UserDmpError>)
        ensures
            match r {
                Ok(dump) => dump_of(buffer@) == Ok::<UserDumpView, UserDmpError>(dump@)
                    && dump@.wf(),
                Err(e) => dump_of(buffer@) == Err::<UserDumpView, UserDmpError>(e),
            },
    {
        proof {
            lemma_dump_well_formed(buffer@);
        }
        let header = Self::read_header(buffer)?;
        let streams = Self::read_directory(buffer, &header)?;
        let streams = sort_streams(&streams);
        let mut state = Streams::new();
        let mut i: usize = 0;
        while i < streams.len()
            invariant
                i <= streams.len(),
                run(buffer@, streams@.take(i as int)) == Ok::<Decoded, UserDmpError>(state@),
                dump_of(buffer@) == match run(buffer@, streams@) {
                    Err(e) => Err(e),
                    Ok(state) => Ok(state.finish()),
                },
            decreases streams.len() - i,
        {
            proof {
                lemma_run_step(buffer@, streams@, i as int);
            }
            state = match state.decode(buffer, &streams[i]) {
                Ok(next) => next,
                Err(e) => {
                    proof {
                        lemma_run_stops(buffer@, streams@, i + 1);
                    }
                    return Err(e);
                },
            };
            i += 1;
        }
        proof {
            assert(streams@.take(streams@.len() as int) =~= streams@);
            lemma_views_merge(state.memory_info@, state.memory64@);
        }
        let system = match state.system {
            Some(system) => system,
            None => System::default(),
        };
        let memorys = Memory::merge_memory(state.memory_info, state.memory64)?;
        Ok(
            UserDump {
                exception_thread_id: state.exception_thread_id,
                system,
                modules: state.modules,
                threads: state.threads,
                memorys,
                handles: state.handles,
            },
        )
    }

    /// Parses a specific stream type from a minidump file using the
    /// `MinidumpStream` trait.
    fn parse_stream<S: MinidumpStream<'a>>(buffer: &'a [u8], rva: u32) -> (r: Result<
        S::Output,
        UserDmpError,
    >)
        ensures
            S::decodes(buffer@, rva as int, r),
    {
        S::parse(buffer, rva)
    }

    /// Reads the header of the dump and checks its signature and its flags.
    pub fn read_header(buffer: &[u8]) -> (r: Result<MINIDUMP_HEADER, UserDmpError>)
        ensures
            r == header_of(buffer@),
    {
        if !has_room(buffer, 0, 4) || read_u32(buffer, 0) != MINIDUMP_SIGNATURE {
            return Err(UserDmpError::InvalidSignature);
        }
        if !has_room(buffer, 0, 36) {
            return Err(UserDmpError::MalformedRecord(0));
        }
        let header = MINIDUMP_HEADER::decode(buffer, 0);
        if (header.Flags & DUMP_FLAGS) != 0 {
            return Err(UserDmpError::InvalidFlags(header.Flags));
        }
        Ok(header)
    }

    /// Collects the streams that the directory of `header` names: every entry
    /// that lies inside the buffer and is not of the unused type.
    pub fn read_directory(buffer: &[u8], header: &MINIDUMP_HEADER) -> (r: Result<
        Vec<MINIDUMP_DIRECTORY>,
        UserDmpError,
    >)
        ensures
            match r {
                Ok(streams) => directory_of(buffer@, *header) == Ok::<
                    Seq<MINIDUMP_DIRECTORY>,
                    UserDmpError,
                >(streams@),
                Err(e) => directory_of(buffer@, *header) == Err::<
                    Seq<MINIDUMP_DIRECTORY>,
                    UserDmpError,
                >(e),
            },
    {
        let at = header.StreamDirectoryRva as usize;
        if at > buffer.len() {
            return Err(UserDmpError::AddressNotFound(header.StreamDirectoryRva as u64));
        }
        let room: usize = (buffer.len() - at) / 12;
        let count: usize = if header.NumberOfStreams as usize <= room {
            header.NumberOfStreams as usize
        } else {
            room
        };
        proof {
            assert(count * 12 <= buffer.len() - at) by (nonlinear_arith)
                requires
                    count <= (buffer.len() - at) / 12,
            ;
        }
        let entries = read_records::<MINIDUMP_DIRECTORY>(buffer, at, count, 12);
        let ghost used = |entry: MINIDUMP_DIRECTORY| entry.StreamType != 0;
        let mut streams: Vec<MINIDUMP_DIRECTORY> = Vec::new();
        let mut i: usize = 0;
        while i < entries.len()
            invariant
                i <= entries.len(),
                used == |entry: MINIDUMP_DIRECTORY| entry.StreamType != 0,
                streams@ == entries@.take(i as int).filter(used),
            decreases entries.len() - i,
        {
            proof {
                reveal(Seq::filter);
                assert(entries@.take(i + 1).drop_last() =~= entries@.take(i as int));
            }
            if entries[i].StreamType != 0 {
                streams.push(entries[i]);
            }
            i += 1;
        }
        proof {
            assert(entries@.take(entries@.len() as int) =~= entries@);
        }
        Ok(streams)
    }

    /// Parses the exception information from the exception stream.
    pub fn parser_exception(buffer: &[u8], rva: u32) -> (r: Result<u32, UserDmpError>)
        ensures
            r == exception_at(buffer@, rva as int),
    {
        let at = rva as usize;
        if !has_room(buffer, at, 168) {
            return Err(UserDmpError::MalformedRecord(at as u64));
        }
        let exception = MINIDUMP_EXCEPTION_STREAM::decode(buffer, at);
        Ok(exception.ThreadId)
    }

    /// Extracts the raw data that a `MINIDUMP_LOCATION_DESCRIPTOR` addresses,
    /// as a part of `buffer`.
    pub fn extract_raw_data(buffer: &'a [u8], location: MINIDUMP_LOCATION_DESCRIPTOR) -> (r: Result<
        &'a [u8],
        UserDmpError,
    >)
        ensures
            match r {
                Ok(raw) => raw_data(buffer@, location) == Ok::<Seq<u8>, UserDmpError>(raw@),
                Err(e) => raw_data(buffer@, location) == Err::<Seq<u8>, UserDmpError>(e),
            },
    {
        let rva = location.RVA as usize;
        let size = location.DataSize as usize;
        if size == 0 {
            let raw = slice_subrange(buffer, 0, 0);
            assert(raw@ =~= Seq::<u8>::empty());
            return Ok(raw);
        }
        if rva > buffer.len() || size > buffer.len() - rva {
            return Err(UserDmpError::AddressNotFound(location.RVA as u64));
        }
        Ok(slice_subrange(buffer, rva, rva + size))
    }
}

} // verus!

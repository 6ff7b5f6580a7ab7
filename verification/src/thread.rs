//! The threads of the captured process and their register contexts.
#![allow(non_snake_case)]

use crate::context::{CONTEXT_X64, CONTEXT_X86};
use crate::data::{Record, MINIDUMP_THREAD, MINIDUMP_THREAD_LIST};
use crate::error::UserDmpError;
use crate::parse::{raw_data, UserDump};
use crate::stream::{
    agrees, keyed, lemma_keyed_ends, lemma_keyed_holds, lemma_keyed_step, lemma_keyed_stops,
    lemma_views_empty,
    lemma_views_insert, views,
};
use crate::system::Arch;
use std::collections::BTreeMap;
use vstd::prelude::*;

verus! {

/// Represents the threads in a minidump file, mapped by their thread IDs.
pub type Threads = BTreeMap<u32, Thread>;

/// Represents the processor context of a thread captured in the minidump: the
/// registers of the thread, in the layout of the architecture of the dump.
#[derive(Debug, Clone, PartialEq, Eq)]
pub enum ThreadContext {
    /// The 64-bit processor context of the thread.
    X64(Box<CONTEXT_X64>),
    /// The 32-bit processor context of the thread.
    X86(Box<CONTEXT_X86>),
}

impl ThreadContext {
    /// The context that the bytes `raw` hold for the architecture `arch`: the
    /// record of that architecture, decoded field by field. An error unless
    /// `raw` has exactly the size of the record.
    #[verifier::opaque]
    pub open spec fn of_bytes(arch: Arch, raw: Seq<u8>) -> Result<ThreadContext, UserDmpError> {
        match arch {
            Arch::X64 => if raw.len() == CONTEXT_X64::size() {
                Ok(ThreadContext::X64(Box::new(CONTEXT_X64::decoded(raw, 0))))
            } else {
                Err(UserDmpError::InvalidContext)
            },
            Arch::X86 => if raw.len() == CONTEXT_X86::size() {
                Ok(ThreadContext::X86(Box::new(CONTEXT_X86::decoded(raw, 0))))
            } else {
                Err(UserDmpError::InvalidContext)
            },
        }
    }

    /// The architecture whose register layout the context has.
    pub open spec fn arch(self) -> Arch {
        match self {
            ThreadContext::X64(_) => Arch::X64,
            ThreadContext::X86(_) => Arch::X86,
        }
    }

    /// Decodes the register context that `raw` holds for the architecture
    /// `arch`. Fails unless `raw` has exactly the size of the context record of
    /// that architecture.
    pub fn decode(arch: Arch, raw: &[u8]) -> (r: Result<ThreadContext, UserDmpError>)
        ensures
            r == Self::of_bytes(arch, raw@),
    {
        reveal(ThreadContext::of_bytes);
        match arch {
            Arch::X64 => {
                if raw.len() != CONTEXT_X64::encoded_size() {
                    return Err(UserDmpError::InvalidContext);
                }
                Ok(ThreadContext::X64(Box::new(CONTEXT_X64::decode(raw, 0))))
            },
            Arch::X86 => {
                if raw.len() != CONTEXT_X86::encoded_size() {
                    return Err(UserDmpError::InvalidContext);
                }
                Ok(ThreadContext::X86(Box::new(CONTEXT_X86::decode(raw, 0))))
            },
        }
    }
}

/// Represents a thread in the process, as captured in the minidump file.
#[derive(Debug)]
pub struct Thread {
    /// The unique identifier (ID) of the thread.
    pub thread_id: u32,
    /// The number of times the thread has been suspended.
    pub suspend_count: u32,
    /// The priority class of the thread.
    pub priority_class: u32,
    /// The priority level of the thread within its priority class.
    pub priority: u32,
    /// The address of the thread environment block.
    pub teb: u64,
    /// The execution context of the thread, including register states.
    context: ThreadContext,
}

/// What a `Thread` holds, with its context.
pub ghost struct ThreadView {
    pub thread_id: u32,
    pub suspend_count: u32,
    pub priority_class: u32,
    pub priority: u32,
    pub teb: u64,
    pub context: ThreadContext,
}

impl View for Thread {
    type V = ThreadView;

    closed spec fn view(&self) -> ThreadView {
        ThreadView {
            thread_id: self.thread_id,
            suspend_count: self.suspend_count,
            priority_class: self.priority_class,
            priority: self.priority,
            teb: self.teb,
            context: self.context,
        }
    }
}

impl Thread {
    /// The thread that `record` describes, with the context `context`.
    pub open spec fn of_record(record: MINIDUMP_THREAD, context: ThreadContext) -> ThreadView {
        ThreadView {
            thread_id: record.ThreadId,
            suspend_count: record.SuspendCount,
            priority_class: record.PriorityClass,
            priority: record.Priority,
            teb: record.Teb,
            context,
        }
    }

    /// What one record of the thread list gives: the identifier of the thread as
    /// the key, and the thread. The bytes of the context are located first; then
    /// the architecture must be known, and the bytes must have the size of its
    /// context record.
    pub open spec fn entry(bytes: Seq<u8>, record: MINIDUMP_THREAD, arch: Option<Arch>) -> Result<
        (u32, ThreadView),
        UserDmpError,
    > {
        match raw_data(bytes, record.ThreadContext) {
            Err(e) => Err(e),
            Ok(raw) => match arch {
                None => Err(UserDmpError::InvalidContext),
                Some(arch) => match ThreadContext::of_bytes(arch, raw) {
                    Err(e) => Err(e),
                    Ok(context) => Ok((record.ThreadId, Self::of_record(record, context))),
                },
            },
        }
    }

    /// The entries of the thread list whose records are `list`.
    pub open spec fn entries(bytes: Seq<u8>, list: Seq<MINIDUMP_THREAD>, arch: Option<Arch>) -> Seq<
        Result<(u32, ThreadView), UserDmpError>,
    > {
        Seq::new(list.len(), |i: int| Self::entry(bytes, list[i], arch))
    }

    /// What the thread list stream at `at` of `bytes` decodes to, for a dump of
    /// the architecture `arch`: the threads by their identifier. An error when
    /// the list does not lie inside the buffer, and the error of the first
    /// thread that fails.
    pub open spec fn stream_at(bytes: Seq<u8>, at: int, arch: Option<Arch>) -> Result<
        Map<u32, ThreadView>,
        UserDmpError,
    > {
        if !MINIDUMP_THREAD_LIST::present(bytes, at) {
            Err(UserDmpError::MalformedRecord(at as u64))
        } else {
            keyed(Self::entries(bytes, MINIDUMP_THREAD_LIST::threads_at(bytes, at), arch))
        }
    }

    /// Whether every thread of `threads` stands under its identifier.
    pub open spec fn keyed_by_id(threads: Map<u32, ThreadView>) -> bool {
        forall|id: u32| threads.contains_key(id) ==> (#[trigger] threads[id]).thread_id == id
    }

    /// The threads of a thread list that decodes stand under their identifiers.
    pub proof fn lemma_threads_keyed_by_id(bytes: Seq<u8>, at: int, arch: Option<Arch>)
        ensures
            Self::stream_at(bytes, at, arch) matches Ok(threads) ==> Self::keyed_by_id(threads),
    {
        reveal(ThreadContext::of_bytes);
        lemma_keyed_holds(
            Self::entries(bytes, MINIDUMP_THREAD_LIST::threads_at(bytes, at), arch),
            |id: u32, thread: ThreadView| thread.thread_id == id,
        );
    }

    /// Whether every thread of `threads` has its context in the register
    /// layout of `arch`.
    pub open spec fn contexts_of(threads: Map<u32, ThreadView>, arch: Arch) -> bool {
        forall|id: u32|
            threads.contains_key(id) ==> (#[trigger] threads[id]).context.arch() == arch
    }

    /// The threads of a thread list that decodes have their contexts in the
    /// register layout of the architecture that the list was decoded for. A
    /// list that decodes for no architecture has no thread.
    pub proof fn lemma_contexts_of_architecture(bytes: Seq<u8>, at: int, arch: Option<Arch>)
        ensures
            Self::stream_at(bytes, at, arch) matches Ok(threads) ==> match arch {
                Some(arch) => Self::contexts_of(threads, arch),
                None => threads == Map::<u32, ThreadView>::empty(),
            },
    {
        reveal(ThreadContext::of_bytes);
        let items = Self::entries(bytes, MINIDUMP_THREAD_LIST::threads_at(bytes, at), arch);
        match arch {
            Some(a) => {
                lemma_keyed_holds(items, |id: u32, thread: ThreadView| thread.context.arch() == a);
            },
            None => {
                lemma_keyed_holds(items, |id: u32, thread: ThreadView| false);
                match Self::stream_at(bytes, at, arch) {
                    Ok(threads) => {
                        assert(threads =~= Map::<u32, ThreadView>::empty());
                    },
                    Err(_) => {},
                }
            },
        }
    }

    /// Creates a new `Thread` from a `MINIDUMP_THREAD` record and its context.
    pub fn new(thread: &MINIDUMP_THREAD, context: ThreadContext) -> (r: Self)
        ensures
            r@ == Self::of_record(*thread, context),
    {
        Thread {
            thread_id: thread.ThreadId,
            suspend_count: thread.SuspendCount,
            priority_class: thread.PriorityClass,
            priority: thread.Priority,
            teb: thread.Teb,
            context,
        }
    }

    /// Returns the unique identifier (ID) of the thread.
    pub fn thread_id(&self) -> (r: u32)
        ensures
            r == self@.thread_id,
    {
        self.thread_id
    }

    /// Returns the number of times the thread has been suspended.
    pub fn suspend_count(&self) -> (r: u32)
        ensures
            r == self@.suspend_count,
    {
        self.suspend_count
    }

    /// Returns the priority class of the thread.
    pub fn priority_class(&self) -> (r: u32)
        ensures
            r == self@.priority_class,
    {
        self.priority_class
    }

    /// Returns the priority level of the thread within its priority class.
    pub fn priority(&self) -> (r: u32)
        ensures
            r == self@.priority,
    {
        self.priority
    }

    /// Returns the address of the thread environment block.
    pub fn teb(&self) -> (r: u64)
        ensures
            r == self@.teb,
    {
        self.teb
    }

    /// Returns a reference to the execution context of the thread.
    pub fn context(&self) -> (r: &ThreadContext)
        ensures
            *r == self@.context,
    {
        &self.context
    }

    /// Parses the list of threads from the thread list stream. `arch` is the
    /// architecture that the system information of the dump gave, if it was
    /// decoded; the contexts are read in its layout.
    pub fn parse(buffer: &[u8], rva: u32, arch: &Option<Arch>) -> (r: Result<
        Threads,
        UserDmpError,
    >)
        ensures
            agrees(r, Self::stream_at(buffer@, rva as int, *arch)),
    {
        let list = MINIDUMP_THREAD_LIST::read(buffer, rva as usize)?;
        let ghost items = Thread::entries(buffer@, list.Threads@, *arch);
        let mut threads: Threads = BTreeMap::new();
        let mut i: usize = 0;
        proof {
            lemma_views_empty::<u32, Thread>();
        }
        while i < list.Threads.len()
            invariant
                i <= list.Threads.len(),
                items == Thread::entries(buffer@, list.Threads@, *arch),
                Thread::stream_at(buffer@, rva as int, *arch) == keyed(items),
                keyed(items.take(i as int)) == Ok::<Map<u32, ThreadView>, UserDmpError>(
                    views(threads@),
                ),
            decreases list.Threads.len() - i,
        {
            let record = &list.Threads[i];
            proof {
                lemma_keyed_step(items, i as int);
                if items[i as int] is Err {
                    lemma_keyed_stops(items, i + 1);
                }
            }
            let raw = UserDump::extract_raw_data(buffer, record.ThreadContext)?;
            let context = match arch {
                Some(arch) => ThreadContext::decode(*arch, raw)?,
                None => { return Err(UserDmpError::InvalidContext); },
            };
            let thread = Thread::new(record, context);
            proof {
                lemma_views_insert(threads@, thread.thread_id, thread);
            }
            threads.insert(thread.thread_id, thread);
            i += 1;
        }
        proof {
            lemma_keyed_ends(items);
        }
        Ok(threads)
    }
}

} // verus!

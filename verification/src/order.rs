//! The order in which the streams of a directory are decoded.
//!
//! Streams are decoded by descending stream type. The type of the system
//! information has a larger number than that of the thread list, so the
//! architecture of the dump is known by the time the contexts of its threads
//! are read.
#![allow(non_snake_case)]

use crate::data::{MINIDUMP_DIRECTORY, MINIDUMP_STREAM_TYPE};
use vstd::prelude::*;

verus! {

/// `sorted` with `entry` put behind the last of its entries whose stream type is
/// not smaller than that of `entry`.
pub open spec fn insert_by_type(sorted: Seq<MINIDUMP_DIRECTORY>, entry: MINIDUMP_DIRECTORY) -> Seq<
    MINIDUMP_DIRECTORY,
>
    decreases sorted.len(),
{
    if sorted.len() == 0 || sorted.last().StreamType >= entry.StreamType {
        sorted.push(entry)
    } else {
        insert_by_type(sorted.drop_last(), entry).push(sorted.last())
    }
}

/// The order in which the streams of a directory are decoded: by descending
/// stream type, and streams of the same type in the order of the directory.
pub open spec fn dispatch_order(entries: Seq<MINIDUMP_DIRECTORY>) -> Seq<MINIDUMP_DIRECTORY>
    decreases entries.len(),
{
    if entries.len() == 0 {
        entries
    } else {
        insert_by_type(dispatch_order(entries.drop_last()), entries.last())
    }
}

/// Whether the stream types of `order` descend: no entry has a larger stream
/// type than an entry before it.
pub open spec fn descending(order: Seq<MINIDUMP_DIRECTORY>) -> bool {
    forall|i: int, j: int|
        0 <= i < j < order.len() ==> order[i].StreamType >= order[j].StreamType
}

/// Putting an entry into a descending order keeps the order descending, and
/// adds that entry to what the order holds.
proof fn lemma_insert_by_type(sorted: Seq<MINIDUMP_DIRECTORY>, entry: MINIDUMP_DIRECTORY)
    requires
        descending(sorted),
    ensures
        descending(insert_by_type(sorted, entry)),
        insert_by_type(sorted, entry).to_multiset() == sorted.to_multiset().insert(entry),
        insert_by_type(sorted, entry).len() == sorted.len() + 1,
    decreases sorted.len(),
{
    broadcast use vstd::seq_lib::group_to_multiset_ensures;

    if sorted.len() == 0 || sorted.last().StreamType >= entry.StreamType {
    } else {
        let front = sorted.drop_last();
        lemma_insert_by_type(front, entry);
        let placed = insert_by_type(front, entry);
        assert(sorted =~= front.push(sorted.last()));
        let order = placed.push(sorted.last());
        assert forall|i: int, j: int| 0 <= i < j < order.len() implies order[i].StreamType
            >= order[j].StreamType by {
            if j == placed.len() {
                // Every entry of `placed` is `entry` or one of `front`.
                assert(placed.to_multiset().count(placed[i]) > 0);
            }
        }
    }
}

/// The streams of a directory are decoded by descending stream type: the
/// dispatch order holds the entries of the directory, each as often as the
/// directory does, and no entry of it has a larger stream type than an entry
/// before it.
pub proof fn lemma_dispatch_order_descends(entries: Seq<MINIDUMP_DIRECTORY>)
    ensures
        descending(dispatch_order(entries)),
        dispatch_order(entries).to_multiset() == entries.to_multiset(),
        dispatch_order(entries).len() == entries.len(),
    decreases entries.len(),
{
    broadcast use vstd::seq_lib::group_to_multiset_ensures;

    if entries.len() == 0 {
    } else {
        lemma_dispatch_order_descends(entries.drop_last());
        lemma_insert_by_type(dispatch_order(entries.drop_last()), entries.last());
        assert(entries =~= entries.drop_last().push(entries.last()));
    }
}

/// Where no two entries of a directory have the same stream type, the stream
/// types of the dispatch order descend strictly.
pub proof fn lemma_dispatch_order_descends_strictly(
    entries: Seq<MINIDUMP_DIRECTORY>,
    i: int,
    j: int,
)
    requires
        forall|a: int, b: int|
            0 <= a < b < entries.len() ==> entries[a].StreamType != entries[b].StreamType,
        0 <= i < j < dispatch_order(entries).len(),
    ensures
        dispatch_order(entries)[i].StreamType > dispatch_order(entries)[j].StreamType,
{
    broadcast use vstd::seq_lib::group_to_multiset_ensures;

    let order = dispatch_order(entries);
    lemma_dispatch_order_descends(entries);
    entries.lemma_multiset_has_no_duplicates();
    order.lemma_multiset_has_no_duplicates_conv();
    if order[i].StreamType == order[j].StreamType {
        assert(entries.to_multiset().count(order[i]) > 0);
        assert(entries.to_multiset().count(order[j]) > 0);
    }
}

/// The streams of `entries` that have the stream type `kind`, in their order.
pub open spec fn of_type(entries: Seq<MINIDUMP_DIRECTORY>, kind: u32) -> Seq<MINIDUMP_DIRECTORY> {
    entries.filter(|entry: MINIDUMP_DIRECTORY| entry.StreamType == kind)
}

/// Putting an entry into an order puts it behind the entries of its own stream
/// type, and leaves the entries of every other stream type as they were.
proof fn lemma_insert_keeps_order(
    sorted: Seq<MINIDUMP_DIRECTORY>,
    entry: MINIDUMP_DIRECTORY,
    kind: u32,
)
    ensures
        of_type(insert_by_type(sorted, entry), kind) == if entry.StreamType == kind {
            of_type(sorted, kind).push(entry)
        } else {
            of_type(sorted, kind)
        },
    decreases sorted.len(),
{
    reveal(Seq::filter);
    if sorted.len() == 0 || sorted.last().StreamType >= entry.StreamType {
        assert(sorted.push(entry).drop_last() =~= sorted);
    } else {
        let placed = insert_by_type(sorted.drop_last(), entry);
        lemma_insert_keeps_order(sorted.drop_last(), entry, kind);
        assert(placed.push(sorted.last()).drop_last() =~= placed);
    }
}

/// Streams of the same type are decoded in the order of the directory: for
/// every stream type, the dispatch order holds the entries of that type in the
/// order in which the directory holds them.
pub proof fn lemma_dispatch_order_stable(entries: Seq<MINIDUMP_DIRECTORY>, kind: u32)
    ensures
        of_type(dispatch_order(entries), kind) == of_type(entries, kind),
    decreases entries.len(),
{
    reveal(Seq::filter);
    if entries.len() > 0 {
        lemma_dispatch_order_stable(entries.drop_last(), kind);
        lemma_insert_keeps_order(dispatch_order(entries.drop_last()), entries.last(), kind);
    }
}

/// The system information is decoded before any thread list: in the dispatch
/// order, every system-info stream stands before every thread-list stream.
pub proof fn lemma_system_info_before_threads(entries: Seq<MINIDUMP_DIRECTORY>, i: int, j: int)
    requires
        0 <= i < dispatch_order(entries).len(),
        0 <= j < dispatch_order(entries).len(),
        dispatch_order(entries)[i].StreamType == MINIDUMP_STREAM_TYPE::SystemInfoStream.code(),
        dispatch_order(entries)[j].StreamType == MINIDUMP_STREAM_TYPE::ThreadListStream.code(),
    ensures
        i < j,
{
    lemma_dispatch_order_descends(entries);
}

/// What an order holds of a stream type when one more entry stands at its end.
proof fn lemma_of_type_push(order: Seq<MINIDUMP_DIRECTORY>, entry: MINIDUMP_DIRECTORY, kind: u32)
    ensures
        of_type(order.push(entry), kind) == if entry.StreamType == kind {
            of_type(order, kind).push(entry)
        } else {
            of_type(order, kind)
        },
{
    reveal(Seq::filter);
    assert(order.push(entry).drop_last() =~= order);
}

/// An order without an entry of a stream type holds nothing of that type.
proof fn lemma_of_type_absent(order: Seq<MINIDUMP_DIRECTORY>, kind: u32)
    requires
        forall|k: int| 0 <= k < order.len() ==> order[k].StreamType != kind,
    ensures
        of_type(order, kind) == Seq::<MINIDUMP_DIRECTORY>::empty(),
    decreases order.len(),
{
    reveal(Seq::filter);
    if order.len() > 0 {
        lemma_of_type_absent(order.drop_last(), kind);
    }
}

/// An order that holds something of a stream type has an entry of that type.
proof fn lemma_of_type_present(order: Seq<MINIDUMP_DIRECTORY>, kind: u32) -> (k: int)
    requires
        of_type(order, kind).len() > 0,
    ensures
        0 <= k < order.len(),
        order[k].StreamType == kind,
{
    if forall|k: int| 0 <= k < order.len() ==> order[k].StreamType != kind {
        lemma_of_type_absent(order, kind);
    }
    choose|k: int| 0 <= k < order.len() && order[k].StreamType == kind
}

/// The dispatch order is the only one: two orders that descend, and hold of
/// every stream type the same entries in the same order, are the same order.
pub proof fn lemma_order_unique(a: Seq<MINIDUMP_DIRECTORY>, b: Seq<MINIDUMP_DIRECTORY>)
    requires
        descending(a),
        descending(b),
        forall|kind: u32| #[trigger] of_type(a, kind) == of_type(b, kind),
    ensures
        a == b,
    decreases a.len(),
{
    if a.len() == 0 {
        if b.len() > 0 {
            lemma_of_type_push(b.drop_last(), b.last(), b.last().StreamType);
            assert(b =~= b.drop_last().push(b.last()));
            assert(of_type(a, b.last().StreamType) == of_type(b, b.last().StreamType));
        }
    } else {
        let kind = a.last().StreamType;
        lemma_of_type_push(a.drop_last(), a.last(), kind);
        assert(a =~= a.drop_last().push(a.last()));
        // `b` holds an entry of the type of the last entry of `a`.
        lemma_of_type_present(b, kind);
        let least = b.last().StreamType;
        lemma_of_type_push(b.drop_last(), b.last(), least);
        assert(b =~= b.drop_last().push(b.last()));
        // `a` holds an entry of the type of the last entry of `b`.
        lemma_of_type_present(a, least);
        assert(of_type(b, kind).last() == b.last());
        assert forall|other: u32| #[trigger]
            of_type(a.drop_last(), other) == of_type(b.drop_last(), other) by {
            lemma_of_type_push(a.drop_last(), a.last(), other);
            lemma_of_type_push(b.drop_last(), b.last(), other);
            if other == kind {
                assert(of_type(b.drop_last(), other) =~= of_type(b, other).drop_last());
            }
        }
        lemma_order_unique(a.drop_last(), b.drop_last());
    }
}

/// Merges two orders that descend into one that descends. Where an entry of
/// `left` and an entry of `right` have the same stream type, that of `left`
/// comes first.
fn merge(left: &Vec<MINIDUMP_DIRECTORY>, right: &Vec<MINIDUMP_DIRECTORY>) -> (out: Vec<
    MINIDUMP_DIRECTORY,
>)
    requires
        descending(left@),
        descending(right@),
    ensures
        descending(out@),
        forall|kind: u32| #[trigger]
            of_type(out@, kind) == of_type(left@, kind) + of_type(right@, kind),
{
    let mut out: Vec<MINIDUMP_DIRECTORY> = Vec::new();
    let mut i: usize = 0;
    let mut j: usize = 0;
    while i < left.len() || j < right.len()
        invariant
            i <= left.len(),
            j <= right.len(),
            descending(left@),
            descending(right@),
            descending(out@),
            forall|k: int|
                0 <= k < out.len() && i < left.len() ==> (#[trigger] out[k]).StreamType
                    >= left[i as int].StreamType,
            forall|k: int|
                0 <= k < out.len() && j < right.len() ==> (#[trigger] out[k]).StreamType
                    >= right[j as int].StreamType,
            forall|k: int|
                0 <= k < j && i < left.len() ==> (#[trigger] right[k]).StreamType
                    > left[i as int].StreamType,
            forall|kind: u32| #[trigger]
                of_type(out@, kind) == of_type(left@.take(i as int), kind) + of_type(
                    right@.take(j as int),
                    kind,
                ),
        decreases left.len() - i + right.len() - j,
    {
        let ghost before = out@;
        if j >= right.len() || (i < left.len() && left[i].StreamType >= right[j].StreamType) {
            let entry = left[i];
            out.push(entry);
            proof {
                assert(left@.take(i + 1) =~= left@.take(i as int).push(entry));
                assert forall|kind: u32| #[trigger]
                    of_type(out@, kind) == of_type(left@.take(i + 1), kind) + of_type(
                        right@.take(j as int),
                        kind,
                    ) by {
                    lemma_of_type_push(before, entry, kind);
                    lemma_of_type_push(left@.take(i as int), entry, kind);
                    if entry.StreamType == kind {
                        lemma_of_type_absent(right@.take(j as int), kind);
                    }
                }
            }
            i += 1;
        } else {
            let entry = right[j];
            out.push(entry);
            proof {
                assert(right@.take(j + 1) =~= right@.take(j as int).push(entry));
                assert forall|kind: u32| #[trigger]
                    of_type(out@, kind) == of_type(left@.take(i as int), kind) + of_type(
                        right@.take(j + 1),
                        kind,
                    ) by {
                    lemma_of_type_push(before, entry, kind);
                    lemma_of_type_push(right@.take(j as int), entry, kind);
                }
            }
            j += 1;
        }
    }
    proof {
        assert(left@.take(left@.len() as int) =~= left@);
        assert(right@.take(right@.len() as int) =~= right@);
    }
    out
}

/// Sorts the streams from the place `from` up to the place `to`.
fn sort_range(streams: &Vec<MINIDUMP_DIRECTORY>, from: usize, to: usize) -> (sorted: Vec<
    MINIDUMP_DIRECTORY,
>)
    requires
        from <= to <= streams.len(),
    ensures
        sorted@ == dispatch_order(streams@.subrange(from as int, to as int)),
    decreases to - from,
{
    let ghost part = streams@.subrange(from as int, to as int);
    if to - from <= 1 {
        let mut sorted: Vec<MINIDUMP_DIRECTORY> = Vec::new();
        if from < to {
            sorted.push(streams[from]);
        }
        proof {
            if from < to {
                assert(dispatch_order(part.drop_last()) =~= Seq::empty());
            }
        }
        sorted
    } else {
        let middle = from + (to - from) / 2;
        let left = sort_range(streams, from, middle);
        let right = sort_range(streams, middle, to);
        let ghost front = streams@.subrange(from as int, middle as int);
        let ghost back = streams@.subrange(middle as int, to as int);
        proof {
            lemma_dispatch_order_descends(front);
            lemma_dispatch_order_descends(back);
        }
        let sorted = merge(&left, &right);
        proof {
            lemma_dispatch_order_descends(part);
            assert(part =~= front + back);
            assert forall|kind: u32| #[trigger]
                of_type(sorted@, kind) == of_type(dispatch_order(part), kind) by {
                lemma_dispatch_order_stable(front, kind);
                lemma_dispatch_order_stable(back, kind);
                lemma_dispatch_order_stable(part, kind);
            }
            lemma_order_unique(sorted@, dispatch_order(part));
        }
        sorted
    }
}

/// Puts the streams of a directory in the order in which they are decoded: by
/// descending stream type, so that the system information is decoded before
/// the threads that need its architecture. Streams of the same type keep the
/// order of the directory.
pub fn sort_streams(streams: &Vec<MINIDUMP_DIRECTORY>) -> (sorted: Vec<MINIDUMP_DIRECTORY>)
    ensures
        sorted@ == dispatch_order(streams@),
{
    proof {
        assert(streams@.subrange(0, streams@.len() as int) =~= streams@);
    }
    sort_range(streams, 0, streams.len())
}

} // verus!

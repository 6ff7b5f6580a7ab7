//! What the decoders of the streams share: the trait that they implement, and
//! the maps that lists of records are collected into.

use crate::error::UserDmpError;
use vstd::prelude::*;

verus! {

/// A stream of the dump that decodes to a value of its own type.
pub trait MinidumpStream<'a> {
    /// The type that the stream decodes to.
    type Output;

    /// Whether `out` is what the stream at `at` of `bytes` decodes to.
    spec fn decodes(bytes: Seq<u8>, at: int, out: Result<Self::Output, UserDmpError>) -> bool;

    /// Decodes the stream that lies at the offset `rva` of `buffer`.
    fn parse(buffer: &'a [u8], rva: u32) -> (r: Result<Self::Output, UserDmpError>)
        ensures
            Self::decodes(buffer@, rva as int, r),
    ;
}

/// The map that a list of entries is collected into. Every entry gives a key and
/// a value, or fails. The first entry that fails gives its error to the whole
/// list. Where two entries have the same key, the later one stays.
pub open spec fn keyed<K, V>(items: Seq<Result<(K, V), UserDmpError>>) -> Result<
    Map<K, V>,
    UserDmpError,
>
    decreases items.len(),
{
    if items.len() == 0 {
        Ok(Map::empty())
    } else {
        match keyed(items.drop_last()) {
            Err(e) => Err(e),
            Ok(m) => match items.last() {
                Err(e) => Err(e),
                Ok((k, v)) => Ok(m.insert(k, v)),
            },
        }
    }
}

/// The views of the values of a map, under the same keys.
pub open spec fn views<K, V: View>(m: Map<K, V>) -> Map<K, V::V> {
    Map::new(|k: K| m.contains_key(k), |k: K| m[k]@)
}

/// Whether `out` holds the views of `expected`, or the same error.
pub open spec fn agrees<K, V: View, M: View<V = Map<K, V>>>(
    out: Result<M, UserDmpError>,
    expected: Result<Map<K, V::V>, UserDmpError>,
) -> bool {
    match out {
        Ok(m) => expected == Ok::<Map<K, V::V>, UserDmpError>(views(m@)),
        Err(e) => expected == Err::<Map<K, V::V>, UserDmpError>(e),
    }
}

/// The views of a map with one more entry.
pub proof fn lemma_views_insert<K, V: View>(m: Map<K, V>, k: K, v: V)
    ensures
        views(m.insert(k, v)) == views(m).insert(k, v@),
{
}

/// The views of the empty map.
pub proof fn lemma_views_empty<K, V: View>()
    ensures
        views(Map::<K, V>::empty()) == Map::<K, V::V>::empty(),
{
}

/// Collecting one more entry: the map of the first `i + 1` entries, from the map
/// of the first `i`.
pub proof fn lemma_keyed_step<K, V>(items: Seq<Result<(K, V), UserDmpError>>, i: int)
    requires
        0 <= i < items.len(),
    ensures
        keyed(items.take(i + 1)) == match keyed(items.take(i)) {
            Err(e) => Err(e),
            Ok(m) => match items[i] {
                Err(e) => Err(e),
                Ok((k, v)) => Ok(m.insert(k, v)),
            },
        },
{
    assert(items.take(i + 1).drop_last() =~= items.take(i));
}

/// Collecting no entry gives the empty map, and the first entries of a list, taken
/// up to its length, are the list.
pub proof fn lemma_keyed_ends<K, V>(items: Seq<Result<(K, V), UserDmpError>>)
    ensures
        keyed(items.take(0)) == Ok::<Map<K, V>, UserDmpError>(Map::empty()),
        items.take(items.len() as int) == items,
{
}

/// An entry that fails makes the whole list fail: once the first `n` entries give
/// an error, the list gives that error.
pub proof fn lemma_keyed_stops<K, V>(items: Seq<Result<(K, V), UserDmpError>>, n: int)
    requires
        0 <= n <= items.len(),
        keyed(items.take(n)) is Err,
    ensures
        keyed(items) == keyed(items.take(n)),
    decreases items.len() - n,
{
    if n < items.len() {
        lemma_keyed_step(items, n);
        lemma_keyed_stops(items, n + 1);
    } else {
        lemma_keyed_ends(items);
    }
}

/// What holds of every entry of a list holds of every entry of its map.
pub proof fn lemma_keyed_holds<K, V>(
    items: Seq<Result<(K, V), UserDmpError>>,
    holds: spec_fn(K, V) -> bool,
)
    requires
        forall|i: int|
            0 <= i < items.len() ==> (#[trigger] items[i] matches Ok(entry) ==> holds(
                entry.0,
                entry.1,
            )),
    ensures
        keyed(items) matches Ok(m) ==> forall|k: K|
            m.contains_key(k) ==> holds(k, #[trigger] m[k]),
    decreases items.len(),
{
    if items.len() > 0 {
        lemma_keyed_holds(items.drop_last(), holds);
        assert(items.last() == items[items.len() - 1]);
    }
}

/// A list with an entry that fails does not give a map.
pub proof fn lemma_keyed_rejects<K, V>(items: Seq<Result<(K, V), UserDmpError>>, i: int)
    requires
        0 <= i < items.len(),
        items[i] is Err,
    ensures
        keyed(items) is Err,
{
    lemma_keyed_stops(items, i + 1);
}

} // verus!

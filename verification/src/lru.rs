//! Trusted interface to the bounded LRU cache of the `clru` crate.
//!
//! The cache is modeled as a sequence of key/value entries in recency
//! order, most recently used first, together with the capacity it was
//! created with. Each wrapper states, over that model, what the crate's
//! documentation and source show of the method it calls.
use vstd::prelude::*;
use crate::highlight::StyledText;
use crate::highlight::StyledTextView;
use clru::CLruCache;
use std::num::NonZeroUsize;

verus! {

/// One bounded LRU domain of rendered spans. The field is the `clru`
/// cache itself; Verus sees the type only through `lru_entries`,
/// `lru_capacity` and the wrappers below.
#[verifier::external_body]
pub struct SpanCache {
    inner: CLruCache<String, StyledText>,
}

/// The entries a cache holds, most recently used first.
pub uninterp spec fn lru_entries(c: SpanCache) -> Seq<(Seq<char>, StyledTextView)>;

/// The fixed capacity a cache was created with.
pub uninterp spec fn lru_capacity(c: SpanCache) -> nat;

/// Position of the entry holding key `k`, or -1 if no entry does.
pub open spec fn find_key(es: Seq<(Seq<char>, StyledTextView)>, k: Seq<char>) -> int
    decreases es.len(),
{
    if es.len() == 0 {
        -1
    } else if es[0].0 == k {
        0
    } else {
        let r = find_key(es.skip(1), k);
        if r == -1 {
            -1
        } else {
            r + 1
        }
    }
}

/// Relies on clru::CLruCache::new: the new cache is empty and holds at most
/// `cap` entries.
#[verifier::external_body]
pub(crate) fn lru_new(cap: usize) -> (c: SpanCache)
    requires
        1 <= cap,
    ensures
        lru_entries(c) == Seq::<(Seq<char>, StyledTextView)>::empty(),
        lru_capacity(c) == cap,
{
    SpanCache { inner: CLruCache::new(NonZeroUsize::new(cap).unwrap()) }
}

/// Relies on clru::CLruCache::len: how many entries the cache holds.
#[verifier::external_body]
pub(crate) fn lru_len(c: &SpanCache) -> (n: usize)
    ensures
        n == lru_entries(*c).len(),
{
    c.inner.len()
}

/// Relies on clru::CLruCache::get: a hit returns the stored value and moves
/// its entry to the most-recently-used position; a miss changes nothing.
#[verifier::external_body]
pub(crate) fn lru_get(c: &mut SpanCache, key: &String) -> (r: Option<StyledText>)
    ensures
        lru_capacity(*final(c)) == lru_capacity(*old(c)),
        ({
            let es = lru_entries(*old(c));
            let i = find_key(es, key@);
            if i == -1 {
                r is None && lru_entries(*final(c)) == es
            } else {
                (r matches Some(v) && v@ == es[i].1) && lru_entries(*final(c)) == seq![es[i]]
                    + es.remove(i)
            }
        }),
{
    c.inner.get(key).cloned()
}

/// Relies on clru::CLruCache::put: an existing key has its value replaced
/// and its entry promoted to most recently used; a new key is inserted at
/// the most-recently-used position, evicting the least-recently-used entry
/// when the cache is full. The old value, if any, is returned.
#[verifier::external_body]
pub(crate) fn lru_put(c: &mut SpanCache, key: String, value: StyledText) -> (r: Option<
    StyledText,
>)
    ensures
        lru_capacity(*final(c)) == lru_capacity(*old(c)),
        ({
            let es = lru_entries(*old(c));
            let i = find_key(es, key@);
            if i >= 0 {
                (r matches Some(v) && v@ == es[i].1) && lru_entries(*final(c)) == seq![
                    (key@, value@),
                ] + es.remove(i)
            } else if es.len() < lru_capacity(*old(c)) {
                r is None && lru_entries(*final(c)) == seq![(key@, value@)] + es
            } else {
                r is None && lru_entries(*final(c)) == seq![(key@, value@)] + es.drop_last()
            }
        }),
{
    c.inner.put(key, value)
}

} // verus!

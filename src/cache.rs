use lru::LruCache;
use ratatui_image::protocol::Protocol;
use std::num::NonZeroUsize;
use vstd::prelude::*;
use crate::key::{ImageKey, KeyView};

verus! {

#[verifier::external_type_specification]
#[verifier::external_body]
pub struct ExProtocol(Protocol);

#[verifier::external_type_specification]
#[verifier::external_body]
pub struct ExDefaultHasher(lru::DefaultHasher);

#[verifier::external_type_specification]
#[verifier::external_body]
#[verifier::reject_recursive_types(K)]
#[verifier::reject_recursive_types(V)]
#[verifier::reject_recursive_types(S)]
pub struct ExLruCache<K, V, S>(LruCache<K, V, S>);

/// The store behind a preview cache: keys are (path, width, height).
pub type Store = LruCache<(String, u16, u16), Protocol>;

/// One cached entry as the contracts see it.
pub type Entry = (KeyView, Protocol);

/// Entries of an `lru::LruCache`, most recently used first.
pub uninterp spec fn lru_entries(c: Store) -> Seq<Entry>;

/// The capacity that an `lru::LruCache` was created with.
pub uninterp spec fn lru_capacity(c: Store) -> nat;

/// Whether `k` is the key of one of `entries`.
pub open spec fn has_key(entries: Seq<Entry>, k: KeyView) -> bool {
    exists|i: int| 0 <= i < entries.len() && entries[i].0 == k
}

/// No two entries share a key.
pub open spec fn keys_unique(entries: Seq<Entry>) -> bool {
    forall|i: int, j: int|
        0 <= i < entries.len() && 0 <= j < entries.len() && i != j ==> entries[i].0 != entries[j].0
}

/// The entries after a lookup of `k` that found it at position `i`: it moves to the front.
pub open spec fn promoted(entries: Seq<Entry>, i: int) -> Seq<Entry> {
    seq![entries[i]].add(entries.remove(i))
}

/// Relies on `lru::LruCache::new`: an empty cache that holds at most `cap` entries.
#[verifier::external_body]
fn lru_new(cap: usize) -> (r: Store)
    requires
        cap > 0,
    ensures
        lru_entries(r) == Seq::<Entry>::empty(),
        lru_capacity(r) == cap,
{
    LruCache::new(NonZeroUsize::new(cap).unwrap())
}

/// Relies on `lru::LruCache::len`: the number of entries held.
#[verifier::external_body]
fn lru_len(c: &Store) -> (r: usize)
    ensures
        r == lru_entries(*c).len(),
{
    c.len()
}

/// Relies on `lru::LruCache::get`: a hit returns (a clone of) the value and
/// moves the entry to the front; a miss changes nothing.
#[verifier::external_body]
fn lru_get(c: &mut Store, k: &ImageKey) -> (r: Option<Protocol>)
    ensures
        lru_capacity(*final(c)) == lru_capacity(*old(c)),
        !has_key(lru_entries(*old(c)), k@) ==> r is None && lru_entries(*final(c))
            == lru_entries(*old(c)),
        has_key(lru_entries(*old(c)), k@) ==> exists|i: int|
            0 <= i < lru_entries(*old(c)).len() && lru_entries(*old(c))[i].0 == k@ && r == Some(
                lru_entries(*old(c))[i].1,
            ) && lru_entries(*final(c)) == promoted(lru_entries(*old(c)), i),
{
    c.get(&(k.path.clone(), k.width, k.height)).cloned()
}

/// Relies on `lru::LruCache::put`: an existing key gets the new value and moves
/// to the front; a new key goes to the front, and when the cache is full the
/// least recently used entry (the last) is dropped first.
#[verifier::external_body]
fn lru_put(c: &mut Store, k: ImageKey, v: Protocol)
    ensures
        lru_capacity(*final(c)) == lru_capacity(*old(c)),
        has_key(lru_entries(*old(c)), k@) ==> exists|i: int|
            0 <= i < lru_entries(*old(c)).len() && lru_entries(*old(c))[i].0 == k@
                && lru_entries(*final(c)) == seq![(k@, v)].add(lru_entries(*old(c)).remove(i)),
        !has_key(lru_entries(*old(c)), k@) && lru_entries(*old(c)).len() >= lru_capacity(*old(c))
            ==> lru_entries(*final(c)) == seq![(k@, v)].add(lru_entries(*old(c)).drop_last()),
        !has_key(lru_entries(*old(c)), k@) && lru_entries(*old(c)).len() < lru_capacity(*old(c))
            ==> lru_entries(*final(c)) == seq![(k@, v)].add(lru_entries(*old(c))),
{
    c.put((k.path, k.width, k.height), v);
}

} // verus!

verus! {

/// Number of previews a cache holds unless told otherwise.
pub const DEFAULT_CAPACITY: usize = 128;

/// The entries after `put(k, v)` on a cache holding `entries` with room for `cap`.
pub open spec fn put_result(entries: Seq<Entry>, cap: nat, k: KeyView, v: Protocol) -> Seq<Entry> {
    if has_key(entries, k) {
        let i = choose|i: int| 0 <= i < entries.len() && entries[i].0 == k;
        seq![(k, v)].add(entries.remove(i))
    } else if entries.len() >= cap {
        seq![(k, v)].add(entries.drop_last())
    } else {
        seq![(k, v)].add(entries)
    }
}

/// Bounded least-recently-used store of rendered previews. Both a hit on
/// `get` and a `put` make the entry the most recently used one.
pub struct PreviewCache {
    store: Store,
}

impl View for PreviewCache {
    type V = Seq<Entry>;

    /// The entries, most recently used first.
    closed spec fn view(&self) -> Seq<Entry> {
        lru_entries(self.store)
    }
}

impl PreviewCache {
    /// The number of entries the cache holds at most.
    pub closed spec fn capacity(&self) -> nat {
        lru_capacity(self.store)
    }

    /// Keys are unique, and the entries fit within a positive capacity.
    pub open spec fn wf(&self) -> bool {
        &&& self.capacity() > 0
        &&& self@.len() <= self.capacity()
        &&& keys_unique(self@)
    }

    /// An empty cache that holds at most `capacity` previews.
    pub fn new(capacity: usize) -> (r: PreviewCache)
        requires
            capacity > 0,
        ensures
            r.wf(),
            r@ == Seq::<Entry>::empty(),
            r.capacity() == capacity,
    {
        PreviewCache { store: lru_new(capacity) }
    }

    /// An empty cache with the default capacity.
    pub fn with_default_capacity() -> (r: PreviewCache)
        ensures
            r.wf(),
            r@ == Seq::<Entry>::empty(),
            r.capacity() == DEFAULT_CAPACITY,
    {
        PreviewCache::new(DEFAULT_CAPACITY)
    }

    /// Number of previews held.
    pub fn len(&self) -> (r: usize)
        ensures
            r == self@.len(),
    {
        lru_len(&self.store)
    }

    /// Looks `key` up. On a hit the entry becomes the most recently used.
    pub fn get(&mut self, key: &ImageKey) -> (r: Option<Protocol>)
        requires
            old(self).wf(),
        ensures
            final(self).wf(),
            final(self).capacity() == old(self).capacity(),
            r is Some <==> has_key(old(self)@, key@),
            !has_key(old(self)@, key@) ==> final(self)@ == old(self)@,
            has_key(old(self)@, key@) ==> exists|i: int|
                0 <= i < old(self)@.len() && old(self)@[i].0 == key@ && r == Some(old(self)@[i].1)
                    && final(self)@ == promoted(old(self)@, i),
    {
        let r = lru_get(&mut self.store, key);
        proof {
            let e = old(self)@;
            if has_key(e, key@) {
                let i = choose|i: int|
                    0 <= i < e.len() && e[i].0 == key@ && r == Some(e[i].1) && self@ == promoted(e, i);
                lemma_promoted_unique(e, i);
            }
        }
        r
    }

    /// Stores `value` under `key`, replacing what the key held. A new key in
    /// a full cache evicts the least recently used entry.
    pub fn put(&mut self, key: ImageKey, value: Protocol)
        requires
            old(self).wf(),
        ensures
            final(self).wf(),
            final(self).capacity() == old(self).capacity(),
            final(self)@ == put_result(old(self)@, old(self).capacity(), key@, value),
    {
        let ghost k = key@;
        lru_put(&mut self.store, key, value);
        proof {
            let e = old(self)@;
            let cap = old(self).capacity();
            if has_key(e, k) {
                let i = choose|i: int| 0 <= i < e.len() && e[i].0 == k;
                let j = choose|j: int|
                    0 <= j < e.len() && e[j].0 == k && self@ == seq![(k, value)].add(e.remove(j));
                assert(i == j);
                lemma_replace_front_unique(e, i, k, value);
            } else if e.len() >= cap {
                lemma_push_front_unique(e.drop_last(), k, value);
            } else {
                lemma_push_front_unique(e, k, value);
            }
        }
    }
}

/// A cache never holds more than its capacity, and its keys stay unique.
/// Putting a new key into a full cache evicts exactly the least recently
/// used entry (the last) and keeps every other one.
pub proof fn lemma_put_bounded_evicts_lru(c: PreviewCache, k: KeyView, v: Protocol)
    requires
        c.wf(),
    ensures
        put_result(c@, c.capacity(), k, v).len() <= c.capacity(),
        keys_unique(put_result(c@, c.capacity(), k, v)),
        has_key(put_result(c@, c.capacity(), k, v), k),
        !has_key(c@, k) && c@.len() == c.capacity() ==> {
            let r = put_result(c@, c.capacity(), k, v);
            &&& r.len() == c.capacity()
            &&& !has_key(r, c@.last().0)
            &&& forall|i: int| 0 <= i < c@.len() - 1 ==> has_key(r, #[trigger] c@[i].0)
        },
{
    let e = c@;
    let cap = c.capacity();
    let r = put_result(e, cap, k, v);
    assert(r[0] == (k, v));
    if has_key(e, k) {
        let i = choose|i: int| 0 <= i < e.len() && e[i].0 == k;
        lemma_replace_front_unique(e, i, k, v);
    } else if e.len() >= cap {
        lemma_push_front_unique(e.drop_last(), k, v);
        let last = e.last().0;
        assert forall|j: int| 0 <= j < r.len() implies r[j].0 != last by {
            if j > 0 {
                assert(r[j] == e[j - 1]);
                assert(e[j - 1].0 != e[e.len() - 1].0);
            }
        }
        assert forall|i: int| 0 <= i < e.len() - 1 implies has_key(r, #[trigger] e[i].0) by {
            assert(r[i + 1] == e[i]);
        }
    } else {
        lemma_push_front_unique(e, k, v);
    }
}

proof fn lemma_remove_unique(e: Seq<Entry>, i: int)
    requires
        keys_unique(e),
        0 <= i < e.len(),
    ensures
        keys_unique(e.remove(i)),
        forall|j: int| 0 <= j < e.remove(i).len() ==> e.remove(i)[j].0 != e[i].0,
{
    let r = e.remove(i);
    assert forall|a: int, b: int|
        0 <= a < r.len() && 0 <= b < r.len() && a != b implies r[a].0 != r[b].0 by {
        let a2 = if a < i { a } else { a + 1 };
        let b2 = if b < i { b } else { b + 1 };
        assert(r[a] == e[a2]);
        assert(r[b] == e[b2]);
    }
    assert forall|j: int| 0 <= j < r.len() implies r[j].0 != e[i].0 by {
        let j2 = if j < i { j } else { j + 1 };
        assert(r[j] == e[j2]);
    }
}

proof fn lemma_push_front_unique(e: Seq<Entry>, k: KeyView, v: Protocol)
    requires
        keys_unique(e),
        !has_key(e, k),
    ensures
        keys_unique(seq![(k, v)].add(e)),
{
    let r = seq![(k, v)].add(e);
    assert forall|a: int, b: int|
        0 <= a < r.len() && 0 <= b < r.len() && a != b implies r[a].0 != r[b].0 by {
        if a > 0 {
            assert(r[a] == e[a - 1]);
        }
        if b > 0 {
            assert(r[b] == e[b - 1]);
        }
    }
}

proof fn lemma_replace_front_unique(e: Seq<Entry>, i: int, k: KeyView, v: Protocol)
    requires
        keys_unique(e),
        0 <= i < e.len(),
        e[i].0 == k,
    ensures
        keys_unique(seq![(k, v)].add(e.remove(i))),
{
    lemma_remove_unique(e, i);
    let r = e.remove(i);
    assert forall|j: int| 0 <= j < r.len() implies r[j].0 != k by {}
    lemma_push_front_unique(r, k, v);
}

proof fn lemma_promoted_unique(e: Seq<Entry>, i: int)
    requires
        keys_unique(e),
        0 <= i < e.len(),
    ensures
        keys_unique(promoted(e, i)),
        promoted(e, i).len() == e.len(),
{
    lemma_replace_front_unique(e, i, e[i].0, e[i].1);
}

} // verus!

//! What a glyph atlas guarantees over a whole sequence of lookups.

use vstd::prelude::*;

use crate::renderer::atlas::cache::GlyphAtlasModel;
use crate::renderer::atlas::key::GlyphKeyModel;
use crate::renderer::atlas::{GlyphEntry, MAX_GLYPH_ATLAS_CAPACITY};

verus! {

impl GlyphAtlasModel {
    /// The bookkeeping is consistent: every slot below the capacity is either free
    /// or held by exactly one cached glyph, cached keys are distinct, and each cached
    /// entry carries its slot's current generation.
    pub open spec fn consistent(self) -> bool {
        &&& self.capacity >= 1
        &&& self.generations.len() == self.capacity
        &&& self.entries.len() + self.free_slots.len() == self.capacity
        &&& forall|i: int| 0 <= i < self.entries.len() ==> (#[trigger] self.entries[i]).1.slot < self.capacity
        &&& forall|j: int| 0 <= j < self.free_slots.len() ==> #[trigger] self.free_slots[j] < self.capacity
        &&& self.distinct()
        &&& forall|i: int, j: int|
            0 <= i < self.free_slots.len() && 0 <= j < self.free_slots.len() && i != j ==> #[trigger] self.free_slots[i]
                != #[trigger] self.free_slots[j]
        &&& forall|i: int, j: int|
            0 <= i < self.entries.len() && 0 <= j < self.free_slots.len() ==> #[trigger] self.entries[i].1.slot
                != #[trigger] self.free_slots[j]
        &&& forall|i: int|
            0 <= i < self.entries.len() ==> self.generations[(#[trigger] self.entries[i]).1.slot as int]
                == self.entries[i].1.generation
    }

    /// Whether `key` is cached.
    pub open spec fn caches(self, key: GlyphKeyModel) -> bool {
        exists|i: int| 0 <= i < self.entries.len() && #[trigger] self.entries[i].0 == key
    }
}

/// The state of a new atlas of `capacity` slots, as `GlyphAtlas::new` makes it.
pub open spec fn fresh_atlas(capacity: nat) -> GlyphAtlasModel {
    GlyphAtlasModel {
        entries: Seq::empty(),
        free_slots: Seq::new(capacity, |i: int| (capacity - 1 - i) as u32),
        generations: Seq::new(capacity, |i: int| 0u64),
        hits: 0,
        misses: 0,
        evictions: 0,
        capacity,
    }
}

/// The state after looking up `keys` in order, starting from `m`.
pub open spec fn after_lookups(m: GlyphAtlasModel, keys: Seq<GlyphKeyModel>) -> GlyphAtlasModel
    decreases keys.len(),
{
    if keys.len() == 0 {
        m
    } else {
        after_lookups(m, keys.drop_last()).lookup(keys.last()).0
    }
}

/// The entries the lookups of `keys`, in order from `m`, return.
pub open spec fn handed_out(m: GlyphAtlasModel, keys: Seq<GlyphKeyModel>) -> Seq<GlyphEntry>
    decreases keys.len(),
{
    if keys.len() == 0 {
        Seq::empty()
    } else {
        handed_out(m, keys.drop_last()).push(after_lookups(m, keys.drop_last()).lookup(keys.last()).1)
    }
}

/// The distinct keys among `keys`.
pub open spec fn seen_keys(keys: Seq<GlyphKeyModel>) -> Set<GlyphKeyModel>
    decreases keys.len(),
{
    if keys.len() == 0 {
        Set::empty()
    } else {
        seen_keys(keys.drop_last()).insert(keys.last())
    }
}

proof fn lemma_seen_keys_finite(keys: Seq<GlyphKeyModel>)
    ensures
        seen_keys(keys).finite(),
    decreases keys.len(),
{
    if keys.len() > 0 {
        lemma_seen_keys_finite(keys.drop_last());
    }
}

/// A key that is not found is not cached.
proof fn lemma_not_found(m: GlyphAtlasModel, key: GlyphKeyModel)
    requires
        m.find(key) is None,
    ensures
        forall|i: int| 0 <= i < m.entries.len() ==> (#[trigger] m.entries[i]).0 != key,
{
    assert forall|i: int| 0 <= i < m.entries.len() implies (#[trigger] m.entries[i]).0 != key by {
        if m.entries[i].0 == key {
            assert(exists|j: int| 0 <= j < m.entries.len() && #[trigger] m.entries[j].0 == key);
        }
    }
}

/// A found key is cached at the position found.
proof fn lemma_found(m: GlyphAtlasModel, key: GlyphKeyModel)
    requires
        m.find(key) is Some,
    ensures
        0 <= m.find(key)->0 < m.entries.len(),
        m.entries[m.find(key)->0].0 == key,
{
}

/// Every lookup keeps the bookkeeping consistent.
pub proof fn lemma_lookup_consistent(m: GlyphAtlasModel, key: GlyphKeyModel)
    requires
        m.consistent(),
    ensures
        m.lookup(key).0.consistent(),
        m.lookup(key).0.capacity == m.capacity,
{
    let m1 = m.lookup(key).0;
    let n = m.entries.len();
    match m.find(key) {
        Some(i) => {
            lemma_found(m, key);
            assert forall|a: int| 0 <= a < n implies #[trigger] m1.entries[a] == m.entries[
                if a == n - 1 { i } else if a < i { a } else { a + 1 }
            ] by {}
            assert forall|a: int, b: int|
                0 <= a < n && 0 <= b < n && a != b implies #[trigger] m1.entries[a].0 != #[trigger] m1.entries[b].0
                    && m1.entries[a].1.slot != m1.entries[b].1.slot by {
                let oa = if a == n - 1 { i } else if a < i { a } else { a + 1 };
                let ob = if b == n - 1 { i } else if b < i { b } else { b + 1 };
                assert(m1.entries[a] == m.entries[oa]);
                assert(m1.entries[b] == m.entries[ob]);
            }
            assert forall|a: int, j: int| 0 <= a < n && 0 <= j < m1.free_slots.len() implies #[trigger] m1.entries[a].1.slot
                != #[trigger] m1.free_slots[j] by {
                let oa = if a == n - 1 { i } else if a < i { a } else { a + 1 };
                assert(m1.entries[a] == m.entries[oa]);
            }
            assert forall|a: int| 0 <= a < n implies (#[trigger] m1.entries[a]).1.slot < m1.capacity
                && m1.generations[m1.entries[a].1.slot as int] == m1.entries[a].1.generation by {
                let oa = if a == n - 1 { i } else if a < i { a } else { a + 1 };
                assert(m1.entries[a] == m.entries[oa]);
            }
        },
        None => {
            lemma_not_found(m, key);
            let e = m.next_entry();
            let n1 = m1.entries.len();
            if m.free_slots.len() > 0 {
                let f = m.free_slots.len() - 1;
                assert(e.slot == m.free_slots[f]);
                assert forall|a: int| 0 <= a < n1 - 1 implies #[trigger] m1.entries[a] == m.entries[a] by {}
                assert forall|a: int, b: int|
                    0 <= a < n1 && 0 <= b < n1 && a != b implies #[trigger] m1.entries[a].0 != #[trigger] m1.entries[b].0
                        && m1.entries[a].1.slot != m1.entries[b].1.slot by {
                    if a < n1 - 1 && b < n1 - 1 {
                        assert(m1.entries[a] == m.entries[a]);
                        assert(m1.entries[b] == m.entries[b]);
                    } else if a < n1 - 1 {
                        assert(m1.entries[a] == m.entries[a]);
                        assert(m.entries[a].1.slot != m.free_slots[f]);
                    } else {
                        assert(m1.entries[b] == m.entries[b]);
                        assert(m.entries[b].1.slot != m.free_slots[f]);
                    }
                }
                assert forall|a: int, j: int| 0 <= a < n1 && 0 <= j < m1.free_slots.len() implies #[trigger] m1.entries[a].1.slot
                    != #[trigger] m1.free_slots[j] by {
                    assert(m1.free_slots[j] == m.free_slots[j]);
                    if a < n1 - 1 {
                        assert(m1.entries[a] == m.entries[a]);
                    }
                }
                assert forall|a: int, b: int|
                    0 <= a < m1.free_slots.len() && 0 <= b < m1.free_slots.len() && a != b implies #[trigger] m1.free_slots[a]
                        != #[trigger] m1.free_slots[b] by {
                    assert(m1.free_slots[a] == m.free_slots[a]);
                    assert(m1.free_slots[b] == m.free_slots[b]);
                }
                assert forall|j: int| 0 <= j < m1.free_slots.len() implies #[trigger] m1.free_slots[j] < m1.capacity by {
                    assert(m1.free_slots[j] == m.free_slots[j]);
                }
                assert forall|a: int| 0 <= a < n1 implies (#[trigger] m1.entries[a]).1.slot < m1.capacity
                    && m1.generations[m1.entries[a].1.slot as int] == m1.entries[a].1.generation by {
                    if a < n1 - 1 {
                        assert(m1.entries[a] == m.entries[a]);
                    }
                }
            } else {
                let s = m.entries[0].1.slot;
                assert(e.slot == s);
                assert forall|a: int| 0 <= a < n1 - 1 implies #[trigger] m1.entries[a] == m.entries[a + 1] by {}
                assert forall|a: int, b: int|
                    0 <= a < n1 && 0 <= b < n1 && a != b implies #[trigger] m1.entries[a].0 != #[trigger] m1.entries[b].0
                        && m1.entries[a].1.slot != m1.entries[b].1.slot by {
                    if a < n1 - 1 && b < n1 - 1 {
                        assert(m1.entries[a] == m.entries[a + 1]);
                        assert(m1.entries[b] == m.entries[b + 1]);
                    } else if a < n1 - 1 {
                        assert(m1.entries[a] == m.entries[a + 1]);
                        assert(m.entries[a + 1].1.slot != m.entries[0].1.slot);
                    } else {
                        assert(m1.entries[b] == m.entries[b + 1]);
                        assert(m.entries[b + 1].1.slot != m.entries[0].1.slot);
                    }
                }
                assert forall|a: int| 0 <= a < n1 implies (#[trigger] m1.entries[a]).1.slot < m1.capacity
                    && m1.generations[m1.entries[a].1.slot as int] == m1.entries[a].1.generation by {
                    if a < n1 - 1 {
                        assert(m1.entries[a] == m.entries[a + 1]);
                        assert(m.entries[a + 1].1.slot != m.entries[0].1.slot);
                    }
                }
            }
        },
    }
}

/// The running counts of a sequence of lookups from a new atlas.
spec fn counts_hold(m: GlyphAtlasModel, keys: Seq<GlyphKeyModel>, capacity: nat) -> bool {
    &&& m.consistent()
    &&& m.capacity == capacity
    &&& m.hits + m.misses == keys.len()
    &&& m.evictions + m.entries.len() == m.misses
    &&& forall|s: int| 0 <= s < m.generations.len() ==> #[trigger] m.generations[s] <= m.evictions
    &&& forall|i: int| 0 <= i < m.entries.len() ==> seen_keys(keys).contains(#[trigger] m.entries[i].0)
    &&& seen_keys(keys).finite()
    &&& m.entries.len() == (if seen_keys(keys).len() < capacity { seen_keys(keys).len() } else { capacity })
    &&& m.entries.len() < capacity ==> forall|k: GlyphKeyModel| #[trigger] seen_keys(keys).contains(k) ==> m.caches(k)
}

/// What every entry handed out so far still tells about the state.
spec fn handouts_hold(m: GlyphAtlasModel, keys: Seq<GlyphKeyModel>, h: Seq<GlyphEntry>) -> bool {
    &&& h.len() == keys.len()
    &&& forall|i: int| 0 <= i < h.len() ==> (#[trigger] h[i]).slot < m.capacity
    &&& forall|i: int, j: int| 0 <= i < h.len() && 0 <= j < m.free_slots.len() ==> (#[trigger] h[i]).slot != #[trigger] m.free_slots[j]
    &&& forall|i: int| 0 <= i < h.len() ==> (#[trigger] h[i]).generation <= m.generations[h[i].slot as int]
    &&& forall|i: int|
        0 <= i < h.len() && (#[trigger] h[i]).generation == m.generations[h[i].slot as int] ==> exists|p: int|
            0 <= p < m.entries.len() && #[trigger] m.entries[p] == (keys[i], h[i])
}

/// Handed-out entries of one slot never go back in generation, and two entries
/// of one slot with the same generation were handed out for the same key.
spec fn handouts_ordered(keys: Seq<GlyphKeyModel>, h: Seq<GlyphEntry>) -> bool {
    forall|i: int, j: int|
        0 <= i < j < h.len() && (#[trigger] h[i]).slot == (#[trigger] h[j]).slot ==> h[i].generation <= h[j].generation
            && (h[i].generation == h[j].generation ==> keys[i] == keys[j])
}

proof fn lemma_lookups_hold(capacity: nat, keys: Seq<GlyphKeyModel>)
    requires
        1 <= capacity <= MAX_GLYPH_ATLAS_CAPACITY,
        keys.len() <= u64::MAX,
    ensures
        counts_hold(after_lookups(fresh_atlas(capacity), keys), keys, capacity),
        handouts_hold(after_lookups(fresh_atlas(capacity), keys), keys, handed_out(fresh_atlas(capacity), keys)),
        handouts_ordered(keys, handed_out(fresh_atlas(capacity), keys)),
    decreases keys.len(),
{
    let m0 = fresh_atlas(capacity);
    if keys.len() == 0 {
        assert forall|i: int, j: int|
            0 <= i < m0.free_slots.len() && 0 <= j < m0.free_slots.len() && i != j implies #[trigger] m0.free_slots[i]
                != #[trigger] m0.free_slots[j] by {
            assert(m0.free_slots[i] == (capacity - 1 - i) as u32);
            assert(m0.free_slots[j] == (capacity - 1 - j) as u32);
        }
        assert(seen_keys(keys) =~= Set::<GlyphKeyModel>::empty());
    } else {
        let prev = keys.drop_last();
        let key = keys.last();
        lemma_lookups_hold(capacity, prev);
        let m = after_lookups(m0, prev);
        let h = handed_out(m0, prev);
        let (m1, e) = m.lookup(key);
        let h1 = handed_out(m0, keys);
        assert(after_lookups(m0, keys) == m1);
        assert(h1 == h.push(e));
        lemma_lookup_consistent(m, key);
        lemma_seen_keys_finite(keys);
        let seen = seen_keys(prev);
        assert(seen_keys(keys) == seen.insert(key));
        assert forall|i: int| 0 <= i < prev.len() implies #[trigger] keys[i] == prev[i] by {}
        assert(keys[keys.len() - 1] == key);
        assert forall|i: int| 0 <= i < h.len() implies #[trigger] h1[i] == h[i] by {}
        assert(h1[h.len() as int] == e);
        match m.find(key) {
            Some(p) => {
                lemma_found(m, key);
                assert(seen.contains(key));
                assert(seen.insert(key) =~= seen);
                let n = m.entries.len();
                assert forall|a: int| 0 <= a < n implies #[trigger] m1.entries[a] == m.entries[
                    if a == n - 1 { p } else if a < p { a } else { a + 1 }
                ] by {}
                assert forall|k: GlyphKeyModel| m.caches(k) implies m1.caches(k) by {
                    let q = choose|q: int| 0 <= q < n && #[trigger] m.entries[q].0 == k;
                    let a = if q == p { n - 1 } else if q < p { q } else { q - 1 };
                    assert(m1.entries[a] == m.entries[q]);
                }
                assert forall|i: int| 0 <= i < m1.entries.len() implies seen_keys(keys).contains(#[trigger] m1.entries[i].0) by {
                    let o = if i == n - 1 { p } else if i < p { i } else { i + 1 };
                    assert(m1.entries[i] == m.entries[o]);
                }
                assert forall|i: int|
                    0 <= i < h1.len() && (#[trigger] h1[i]).generation == m1.generations[h1[i].slot as int] implies exists|a: int|
                        0 <= a < m1.entries.len() && #[trigger] m1.entries[a] == (keys[i], h1[i]) by {
                    if i < h.len() {
                        let q = choose|q: int| 0 <= q < m.entries.len() && #[trigger] m.entries[q] == (prev[i], h[i]);
                        let a = if q == p { n - 1 } else if q < p { q } else { q - 1 };
                        assert(m1.entries[a] == m.entries[q]);
                    } else {
                        assert(m1.entries[n - 1] == m.entries[p]);
                    }
                }
                assert forall|i: int, j: int|
                    0 <= i < j < h1.len() && (#[trigger] h1[i]).slot == (#[trigger] h1[j]).slot implies h1[i].generation
                        <= h1[j].generation && (h1[i].generation == h1[j].generation ==> keys[i] == keys[j]) by {
                    assert(h1[i] == h[i]);
                    if j == h.len() {
                        assert(h1[j] == e);
                        assert(e == m.entries[p].1);
                        assert(m.generations[e.slot as int] == e.generation);
                        assert(h[i].generation <= m.generations[h[i].slot as int]);
                        if h[i].generation == e.generation {
                            let q = choose|q: int| 0 <= q < m.entries.len() && #[trigger] m.entries[q] == (prev[i], h[i]);
                            assert(m.entries[q].1.slot == m.entries[p].1.slot);
                            assert(q == p);
                        }
                    } else {
                        assert(h1[j] == h[j]);
                    }
                }
            },
            None => {
                lemma_not_found(m, key);
                assert(!seen.contains(key) || m.entries.len() == capacity) by {
                    if seen.contains(key) && m.entries.len() < capacity {
                        assert(m.caches(key));
                        let q = choose|q: int| 0 <= q < m.entries.len() && #[trigger] m.entries[q].0 == key;
                    }
                }
                let n1 = m1.entries.len();
                if m.free_slots.len() > 0 {
                    let f = m.free_slots.len() - 1;
                    assert(!seen.contains(key));
                    assert(seen.insert(key).len() == seen.len() + 1);
                    assert forall|a: int| 0 <= a < n1 - 1 implies #[trigger] m1.entries[a] == m.entries[a] by {}
                    assert(m1.entries[n1 - 1] == (key, e));
                    assert forall|k: GlyphKeyModel| #[trigger] seen_keys(keys).contains(k) && m1.entries.len() < capacity
                        implies m1.caches(k) by {
                        if k == key {
                            assert(m1.entries[n1 - 1].0 == key);
                        } else {
                            assert(seen.contains(k));
                            let q = choose|q: int| 0 <= q < m.entries.len() && #[trigger] m.entries[q].0 == k;
                            assert(m1.entries[q] == m.entries[q]);
                        }
                    }
                    assert forall|i: int| 0 <= i < m1.entries.len() implies seen_keys(keys).contains(#[trigger] m1.entries[i].0) by {
                        if i < n1 - 1 {
                            assert(m1.entries[i] == m.entries[i]);
                        }
                    }
                    assert forall|i: int, j: int| 0 <= i < h1.len() && 0 <= j < m1.free_slots.len() implies (#[trigger] h1[i]).slot
                        != #[trigger] m1.free_slots[j] by {
                        assert(m1.free_slots[j] == m.free_slots[j]);
                        if i == h.len() {
                            assert(e.slot == m.free_slots[f]);
                        }
                    }
                    assert forall|i: int|
                        0 <= i < h1.len() && (#[trigger] h1[i]).generation == m1.generations[h1[i].slot as int] implies exists|a: int|
                            0 <= a < m1.entries.len() && #[trigger] m1.entries[a] == (keys[i], h1[i]) by {
                        if i < h.len() {
                            let q = choose|q: int| 0 <= q < m.entries.len() && #[trigger] m.entries[q] == (prev[i], h[i]);
                            assert(m1.entries[q] == m.entries[q]);
                        } else {
                            assert(m1.entries[n1 - 1] == (keys[i], h1[i]));
                        }
                    }
                    assert forall|i: int, j: int|
                        0 <= i < j < h1.len() && (#[trigger] h1[i]).slot == (#[trigger] h1[j]).slot implies h1[i].generation
                            <= h1[j].generation && (h1[i].generation == h1[j].generation ==> keys[i] == keys[j]) by {
                        if j == h.len() {
                            assert(h1[i] == h[i]);
                            assert(h[i].slot != m.free_slots[f]);
                        } else {
                            assert(h1[i] == h[i]);
                            assert(h1[j] == h[j]);
                        }
                    }
                } else {
                    let s = m.entries[0].1.slot;
                    let g = m.entries[0].1.generation;
                    assert(m.entries.len() == capacity);
                    assert(seen.len() >= capacity);
                    lemma_seen_keys_finite(prev);
                    if !seen.contains(key) {
                        assert(seen.insert(key).len() == seen.len() + 1);
                    } else {
                        assert(seen.insert(key) =~= seen);
                    }
                    assert(m.generations[s as int] == g);
                    assert(e == GlyphEntry { slot: s, generation: (g + 1) as u64 });
                    assert forall|a: int| 0 <= a < n1 - 1 implies #[trigger] m1.entries[a] == m.entries[a + 1] by {}
                    assert(m1.entries[n1 - 1] == (key, e));
                    assert forall|i: int| 0 <= i < m1.entries.len() implies seen_keys(keys).contains(#[trigger] m1.entries[i].0) by {
                        if i < n1 - 1 {
                            assert(m1.entries[i] == m.entries[i + 1]);
                        }
                    }
                    assert forall|t: int| 0 <= t < m1.generations.len() implies #[trigger] m1.generations[t] <= m1.evictions by {
                        assert(m.generations[t] <= m.evictions);
                    }
                    assert forall|i: int| 0 <= i < h1.len() implies (#[trigger] h1[i]).generation <= m1.generations[h1[i].slot as int] by {
                        if i < h.len() {
                            assert(h[i].generation <= m.generations[h[i].slot as int]);
                        }
                    }
                    assert forall|i: int|
                        0 <= i < h1.len() && (#[trigger] h1[i]).generation == m1.generations[h1[i].slot as int] implies exists|a: int|
                            0 <= a < m1.entries.len() && #[trigger] m1.entries[a] == (keys[i], h1[i]) by {
                        if i < h.len() {
                            assert(h1[i] == h[i]);
                            if h[i].slot == s {
                                assert(h[i].generation <= g);
                                assert(false);
                            }
                            assert(m1.generations[h[i].slot as int] == m.generations[h[i].slot as int]);
                            let q = choose|q: int| 0 <= q < m.entries.len() && #[trigger] m.entries[q] == (prev[i], h[i]);
                            assert(q != 0);
                            assert(m1.entries[q - 1] == m.entries[q]);
                        } else {
                            assert(m1.entries[n1 - 1] == (keys[i], h1[i]));
                        }
                    }
                    assert forall|i: int, j: int|
                        0 <= i < j < h1.len() && (#[trigger] h1[i]).slot == (#[trigger] h1[j]).slot implies h1[i].generation
                            <= h1[j].generation && (h1[i].generation == h1[j].generation ==> keys[i] == keys[j]) by {
                        if j == h.len() {
                            assert(h1[i] == h[i]);
                            assert(h[i].generation <= m.generations[s as int]);
                        } else {
                            assert(h1[i] == h[i]);
                            assert(h1[j] == h[j]);
                        }
                    }
                }
            },
        }
    }
}

/// Counting over a sequence of lookups into a new atlas: every lookup is a hit
/// or a miss, the atlas caches as many glyphs as there were distinct keys up to
/// its capacity, and every miss beyond those cached evicted a glyph.
pub proof fn lemma_lookup_sequence_counts(capacity: nat, keys: Seq<GlyphKeyModel>)
    requires
        1 <= capacity <= MAX_GLYPH_ATLAS_CAPACITY,
        keys.len() <= u64::MAX,
    ensures
        ({
            let m = after_lookups(fresh_atlas(capacity), keys);
            &&& m.hits + m.misses == keys.len()
            &&& m.entries.len() == (if seen_keys(keys).len() < capacity { seen_keys(keys).len() } else { capacity })
            &&& m.evictions == m.misses - m.entries.len()
        }),
{
    lemma_lookups_hold(capacity, keys);
}

/// Slots over a sequence of lookups into a new atlas: the state stays
/// consistent (cached glyphs hold distinct slots below the capacity), every
/// entry handed out names a slot below the capacity, and a slot handed out again
/// for another key comes with a strictly larger generation.
pub proof fn lemma_lookup_sequence_slots(capacity: nat, keys: Seq<GlyphKeyModel>)
    requires
        1 <= capacity <= MAX_GLYPH_ATLAS_CAPACITY,
        keys.len() <= u64::MAX,
    ensures
        after_lookups(fresh_atlas(capacity), keys).consistent(),
        ({
            let h = handed_out(fresh_atlas(capacity), keys);
            &&& h.len() == keys.len()
            &&& forall|i: int| 0 <= i < h.len() ==> (#[trigger] h[i]).slot < capacity
            &&& forall|i: int, j: int|
                0 <= i < j < h.len() && (#[trigger] h[i]).slot == (#[trigger] h[j]).slot ==> h[i].generation <= h[j].generation
                    && (keys[i] != keys[j] ==> h[i].generation < h[j].generation)
        }),
{
    lemma_lookups_hold(capacity, keys);
}

} // verus!

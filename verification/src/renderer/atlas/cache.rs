//! Least-recently-used glyph atlas slot cache.

use std::collections::VecDeque;

use vstd::prelude::*;

use crate::error::GromaqError;
use crate::renderer::atlas::key::{GlyphKey, GlyphKeyModel};
use crate::renderer::atlas::laws::fresh_atlas;
use crate::renderer::atlas::{GlyphAtlasConfig, GlyphAtlasMetrics, GlyphEntry, MAX_GLYPH_ATLAS_CAPACITY};

verus! {

/// One cached glyph: its key and the atlas entry handed out for it.
#[derive(Debug)]
struct CachedGlyph {
    key: GlyphKey,
    entry: GlyphEntry,
}

/// Deterministic glyph atlas cache.
///
/// Cached glyphs are kept in least-recently-used order; slots never handed out
/// yet are kept in `free_slots`, and `generations` holds the generation of the
/// glyph currently (or last) occupying each slot.
#[derive(Debug)]
pub struct GlyphAtlas {
    config: GlyphAtlasConfig,
    lru: VecDeque<CachedGlyph>,
    free_slots: Vec<u32>,
    generations: Vec<u64>,
    metrics: GlyphAtlasMetrics,
}

/// Mathematical state of a glyph atlas.
pub ghost struct GlyphAtlasModel {
    /// Cached keys and their entries, least recently used first.
    pub entries: Seq<(GlyphKeyModel, GlyphEntry)>,
    /// Slots not handed out yet; the last one is handed out next.
    pub free_slots: Seq<u32>,
    /// Current generation of every slot.
    pub generations: Seq<u64>,
    /// Cache hits so far.
    pub hits: u64,
    /// Cache misses so far.
    pub misses: u64,
    /// Evictions so far.
    pub evictions: u64,
    /// Maximum number of cached glyphs.
    pub capacity: nat,
}

impl GlyphAtlasModel {
    /// Position of `key` among the cached glyphs, if it is cached.
    pub open spec fn find(self, key: GlyphKeyModel) -> Option<int> {
        if exists|i: int| 0 <= i < self.entries.len() && #[trigger] self.entries[i].0 == key {
            Some(choose|i: int| 0 <= i < self.entries.len() && #[trigger] self.entries[i].0 == key)
        } else {
            None
        }
    }

    /// The counters and generations can each grow by `n` more without overflowing.
    pub open spec fn has_headroom(self, n: nat) -> bool {
        &&& self.hits + n <= u64::MAX
        &&& self.misses + n <= u64::MAX
        &&& self.evictions + n <= u64::MAX
        &&& forall|s: int| 0 <= s < self.generations.len() ==> #[trigger] self.generations[s] + n <= u64::MAX
    }

    /// The entry a miss on this state hands out.
    pub open spec fn next_entry(self) -> GlyphEntry {
        if self.free_slots.len() > 0 {
            let slot = self.free_slots.last();
            GlyphEntry { slot, generation: self.generations[slot as int] }
        } else {
            let evicted = self.entries[0].1;
            GlyphEntry { slot: evicted.slot, generation: (evicted.generation + 1) as u64 }
        }
    }

    /// The state after a miss on `key` on this state.
    pub open spec fn after_miss(self, key: GlyphKeyModel) -> GlyphAtlasModel {
        let entry = self.next_entry();
        if self.free_slots.len() > 0 {
            GlyphAtlasModel {
                entries: self.entries.push((key, entry)),
                free_slots: self.free_slots.drop_last(),
                misses: (self.misses + 1) as u64,
                ..self
            }
        } else {
            GlyphAtlasModel {
                entries: self.entries.drop_first().push((key, entry)),
                generations: self.generations.update(entry.slot as int, entry.generation),
                misses: (self.misses + 1) as u64,
                evictions: (self.evictions + 1) as u64,
                ..self
            }
        }
    }

    /// The state after looking up `key`, and the entry the lookup returns.
    pub open spec fn lookup(self, key: GlyphKeyModel) -> (GlyphAtlasModel, GlyphEntry) {
        match self.find(key) {
            Some(i) => (self.after_hit(i), self.entries[i].1),
            None => (self.after_miss(key), self.next_entry()),
        }
    }

    /// No two cached glyphs have the same key.
    pub open spec fn keys_distinct(self) -> bool {
        forall|i: int, j: int|
            0 <= i < self.entries.len() && 0 <= j < self.entries.len() && i != j ==> #[trigger] self.entries[i].0
                != #[trigger] self.entries[j].0
    }

    /// No two cached glyphs have the same key, and no two hold the same slot.
    pub open spec fn distinct(self) -> bool {
        &&& self.keys_distinct()
        &&& forall|i: int, j: int|
            0 <= i < self.entries.len() && 0 <= j < self.entries.len() && i != j ==> #[trigger] self.entries[i].1.slot
                != #[trigger] self.entries[j].1.slot
    }

    /// The state after a hit on the cached glyph at position `i`: it becomes the most recently used.
    pub open spec fn after_hit(self, i: int) -> GlyphAtlasModel {
        GlyphAtlasModel {
            entries: self.entries.remove(i).push(self.entries[i]),
            hits: (self.hits + 1) as u64,
            ..self
        }
    }
}

impl View for GlyphAtlas {
    type V = GlyphAtlasModel;

    closed spec fn view(&self) -> GlyphAtlasModel {
        GlyphAtlasModel {
            entries: self.lru@.map_values(|c: CachedGlyph| (c.key@, c.entry)),
            free_slots: self.free_slots@,
            generations: self.generations@,
            hits: self.metrics.hits,
            misses: self.metrics.misses,
            evictions: self.metrics.evictions,
            capacity: self.config.spec_capacity() as nat,
        }
    }
}

impl GlyphAtlas {
    /// The bookkeeping is consistent: every slot below the capacity is either free or
    /// held by exactly one cached glyph, cached keys are distinct, and each cached
    /// entry carries its slot's current generation.
    pub closed spec fn wf(&self) -> bool {
        let cap = self.config.spec_capacity() as int;
        &&& self.config.valid()
        &&& self.generations@.len() == cap
        &&& self.lru@.len() + self.free_slots@.len() == cap
        &&& forall|i: int| 0 <= i < self.lru@.len() ==> #[trigger] self.lru@[i].entry.slot < cap
        &&& forall|j: int| 0 <= j < self.free_slots@.len() ==> #[trigger] self.free_slots@[j] < cap
        &&& forall|i: int, j: int|
            0 <= i < self.lru@.len() && 0 <= j < self.lru@.len() && i != j ==> #[trigger] self.lru@[i].entry.slot
                != #[trigger] self.lru@[j].entry.slot
        &&& forall|i: int, j: int|
            0 <= i < self.free_slots@.len() && 0 <= j < self.free_slots@.len() && i != j ==> #[trigger] self.free_slots@[i]
                != #[trigger] self.free_slots@[j]
        &&& forall|i: int, j: int|
            0 <= i < self.lru@.len() && 0 <= j < self.free_slots@.len() ==> #[trigger] self.lru@[i].entry.slot
                != #[trigger] self.free_slots@[j]
        &&& forall|i: int|
            0 <= i < self.lru@.len() ==> self.generations@[#[trigger] self.lru@[i].entry.slot as int]
                == self.lru@[i].entry.generation
        &&& forall|i: int, j: int|
            0 <= i < self.lru@.len() && 0 <= j < self.lru@.len() && i != j ==> #[trigger] self.lru@[i].key@
                != #[trigger] self.lru@[j].key@
    }

    /// Create an empty glyph atlas whose free slots are handed out in order 0, 1, 2, ...
    pub fn new(config: GlyphAtlasConfig) -> (atlas: Self)
        requires
            config.valid(),
        ensures
            atlas.wf(),
            atlas@.entries.len() == 0,
            atlas@.capacity == config.spec_capacity(),
            atlas@.free_slots == Seq::new(config.spec_capacity() as nat, |i: int| (config.spec_capacity() - 1 - i) as u32),
            atlas@.generations == Seq::new(config.spec_capacity() as nat, |i: int| 0u64),
            atlas@.hits == 0,
            atlas@.misses == 0,
            atlas@.evictions == 0,
            atlas@ == fresh_atlas(config.spec_capacity() as nat),
    {
        let capacity = config.capacity();
        let mut free_slots: Vec<u32> = Vec::with_capacity(capacity);
        let mut k: usize = capacity;
        while k > 0
            invariant
                0 <= k <= capacity,
                capacity <= MAX_GLYPH_ATLAS_CAPACITY,
                free_slots@.len() == capacity - k,
                forall|j: int| 0 <= j < free_slots@.len() ==> #[trigger] free_slots@[j] == (capacity - 1 - j) as u32,
            decreases k,
        {
            k = k - 1;
            free_slots.push(k as u32);
        }
        let generations = vec![0u64; capacity];
        let atlas = Self {
            config,
            lru: VecDeque::new(),
            free_slots,
            generations,
            metrics: GlyphAtlasMetrics { hits: 0, misses: 0, evictions: 0, entries: 0 },
        };
        proof {
            assert(atlas@.free_slots =~= Seq::new(capacity as nat, |i: int| (capacity - 1 - i) as u32));
            assert(atlas@.generations =~= Seq::new(capacity as nat, |i: int| 0u64));
            assert(atlas@.entries =~= Seq::<(GlyphKeyModel, GlyphEntry)>::empty());
        }
        atlas
    }

    /// Return glyph atlas metrics.
    pub fn metrics(&self) -> (m: GlyphAtlasMetrics)
        ensures
            m == (GlyphAtlasMetrics {
                hits: self@.hits,
                misses: self@.misses,
                evictions: self@.evictions,
                entries: self@.entries.len() as usize,
            }),
    {
        GlyphAtlasMetrics {
            hits: self.metrics.hits,
            misses: self.metrics.misses,
            evictions: self.metrics.evictions,
            entries: self.lru.len(),
        }
    }

    /// Position of the cached glyph with `key`, if any.
    fn position_of(&self, key: &GlyphKey) -> (r: Option<usize>)
        requires
            self.wf(),
        ensures
            match r {
                Some(i) => i < self@.entries.len() && self@.find(key@) == Some(i as int),
                None => self@.find(key@) is None,
            },
    {
        let mut i: usize = 0;
        while i < self.lru.len()
            invariant
                0 <= i <= self.lru@.len(),
                self.wf(),
                forall|j: int| 0 <= j < i ==> #[trigger] self.lru@[j].key@ != key@,
            decreases self.lru@.len() - i,
        {
            if self.lru[i].key.same_key(key) {
                proof {
                    let m = self@;
                    assert(m.entries[i as int].0 == key@);
                    let c = choose|j: int| 0 <= j < m.entries.len() && #[trigger] m.entries[j].0 == key@;
                    assert(m.entries[c] == (self.lru@[c].key@, self.lru@[c].entry));
                    assert(self.lru@[c].key@ == key@);
                    if c != i {
                        assert(self.lru@[c].key@ != self.lru@[i as int].key@);
                        assert(false);
                    }
                }
                return Some(i);
            }
            i = i + 1;
        }
        proof {
            let m = self@;
            assert forall|j: int| 0 <= j < m.entries.len() implies #[trigger] m.entries[j].0 != key@ by {
                assert(self.lru@[j].key@ != key@);
            }
        }
        None
    }

    /// Evicts the least recently used glyph and returns its entry; its slot is
    /// left for the caller to reuse.
    pub fn evict_lru(&mut self) -> (r: Result<GlyphEntry, GromaqError>)
        requires
            old(self).wf(),
            old(self)@.evictions < u64::MAX,
        ensures
            old(self)@.entries.len() == 0 ==> r == Err::<GlyphEntry, GromaqError>(
                GromaqError::GlyphAtlasInvariant { reason: "glyph atlas full with no LRU key" },
            ) && final(self)@ == old(self)@,
            old(self)@.entries.len() > 0 ==> r == Ok::<GlyphEntry, GromaqError>(old(self)@.entries[0].1)
                && final(self)@ == (GlyphAtlasModel {
                entries: old(self)@.entries.drop_first(),
                evictions: (old(self)@.evictions + 1) as u64,
                ..old(self)@
            }),
    {
        let evicted = match self.lru.pop_front() {
            Some(evicted) => evicted,
            None => return Err(GromaqError::GlyphAtlasInvariant { reason: "glyph atlas full with no LRU key" }),
        };
        self.metrics.evictions = self.metrics.evictions + 1;
        proof {
            assert(self@.entries =~= old(self)@.entries.drop_first());
        }
        Ok(evicted.entry)
    }

    /// Look up a glyph entry or allocate one. A hit makes the glyph the most
    /// recently used; a miss takes the next free slot or, when none is left,
    /// reuses the slot of the least recently used glyph with its generation bumped.
    pub fn lookup_or_insert(&mut self, key: GlyphKey) -> (r: Result<GlyphEntry, GromaqError>)
        requires
            old(self).wf(),
            old(self)@.has_headroom(1),
        ensures
            final(self).wf(),
            r == Ok::<GlyphEntry, GromaqError>(old(self)@.lookup(key@).1),
            final(self)@ == old(self)@.lookup(key@).0,
    {
        let ghost old_lru = self.lru@;
        match self.position_of(&key) {
            Some(i) => {
                let entry = self.lru[i].entry;
                self.metrics.hits = self.metrics.hits + 1;
                if let Some(item) = self.lru.remove(i) {
                    self.lru.push_back(item);
                }
                proof {
                    let m = old(self)@;
                    assert(self@.entries =~= m.entries.remove(i as int).push(m.entries[i as int]));
                    assert(self.lru@ =~= old_lru.remove(i as int).push(old_lru[i as int]));
                    assert forall|a: int, b: int|
                        0 <= a < self.lru@.len() && 0 <= b < self.lru@.len() && a != b implies #[trigger] self.lru@[a].entry.slot
                            != #[trigger] self.lru@[b].entry.slot && self.lru@[a].key@ != self.lru@[b].key@ by {
                        let oa = if a == self.lru@.len() - 1 { i as int } else if a < i { a } else { a + 1 };
                        let ob = if b == self.lru@.len() - 1 { i as int } else if b < i { b } else { b + 1 };
                        assert(self.lru@[a] == old_lru[oa]);
                        assert(self.lru@[b] == old_lru[ob]);
                    }
                    assert forall|a: int, j: int| 0 <= a < self.lru@.len() && 0 <= j < self.free_slots@.len()
                        implies #[trigger] self.lru@[a].entry.slot != #[trigger] self.free_slots@[j] by {
                        let oa = if a == self.lru@.len() - 1 { i as int } else if a < i { a } else { a + 1 };
                        assert(self.lru@[a] == old_lru[oa]);
                    }
                    assert forall|a: int| 0 <= a < self.lru@.len() implies #[trigger] self.lru@[a].entry.slot < self.config.spec_capacity()
                        && self.generations@[self.lru@[a].entry.slot as int] == self.lru@[a].entry.generation by {
                        let oa = if a == self.lru@.len() - 1 { i as int } else if a < i { a } else { a + 1 };
                        assert(self.lru@[a] == old_lru[oa]);
                    }
                }
                Ok(entry)
            },
            None => {
                self.metrics.misses = self.metrics.misses + 1;
                let entry = if self.free_slots.len() > 0 {
                    let slot = self.free_slots.pop().unwrap();
                    GlyphEntry { slot, generation: self.generations[slot as usize] }
                } else {
                    let evicted = match self.lru.pop_front() {
                        Some(evicted) => evicted.entry,
                        None => return Err(GromaqError::GlyphAtlasInvariant { reason: "glyph atlas full with no LRU key" }),
                    };
                    self.metrics.evictions = self.metrics.evictions + 1;
                    proof {
                        assert(self.lru@ =~= old_lru.drop_first());
                        assert(evicted == old_lru[0].entry);
                        assert(self.generations@[evicted.slot as int] == evicted.generation);
                        assert(evicted.slot < self.generations@.len());
                        assert(old(self)@.generations[evicted.slot as int] + 1 <= u64::MAX);
                    }
                    let slot = evicted.slot;
                    let generation = evicted.generation + 1;
                    self.generations.set(slot as usize, generation);
                    GlyphEntry { slot, generation }
                };
                let ghost mid = self.lru@;
                self.lru.push_back(CachedGlyph { key, entry });
                proof {
                    let m = old(self)@;
                    assert(entry == m.next_entry());
                    if m.free_slots.len() > 0 {
                        assert(mid =~= old_lru);
                        assert(self@.entries =~= m.entries.push((key@, entry)));
                        assert(self@.free_slots =~= m.free_slots.drop_last());
                    } else {
                        assert(mid =~= old_lru.drop_first());
                        assert(self@.entries =~= m.entries.drop_first().push((key@, entry)));
                    }
                    assert(self@ == m.after_miss(key@));
                    let n = self.lru@.len();
                    assert forall|a: int| 0 <= a < n - 1 implies #[trigger] self.lru@[a].key@ != key@ by {
                        assert(self.lru@[a] == mid[a]);
                        if m.free_slots.len() > 0 {
                            assert(mid[a] == old_lru[a]);
                            assert(m.entries[a].0 == old_lru[a].key@);
                        } else {
                            assert(mid[a] == old_lru[a + 1]);
                            assert(m.entries[a + 1].0 == old_lru[a + 1].key@);
                        }
                    }
                    assert forall|a: int| 0 <= a < n - 1 implies #[trigger] self.lru@[a].entry.slot != entry.slot by {
                        assert(self.lru@[a] == mid[a]);
                        if m.free_slots.len() > 0 {
                            assert(mid[a] == old_lru[a]);
                            assert(old(self).free_slots@[old(self).free_slots@.len() - 1] == entry.slot);
                        } else {
                            assert(mid[a] == old_lru[a + 1]);
                            assert(old_lru[0].entry.slot == entry.slot);
                        }
                    }
                    assert forall|a: int, b: int|
                        0 <= a < n && 0 <= b < n && a != b implies #[trigger] self.lru@[a].entry.slot
                            != #[trigger] self.lru@[b].entry.slot && self.lru@[a].key@ != self.lru@[b].key@ by {
                        if a < n - 1 && b < n - 1 {
                            assert(self.lru@[a] == mid[a]);
                            assert(self.lru@[b] == mid[b]);
                            if m.free_slots.len() == 0 {
                                assert(mid[a] == old_lru[a + 1]);
                                assert(mid[b] == old_lru[b + 1]);
                            }
                        } else if a == n - 1 {
                            assert(self.lru@[b].key@ != key@);
                        } else {
                            assert(self.lru@[a].key@ != key@);
                        }
                    }
                    assert forall|a: int, j: int| 0 <= a < n && 0 <= j < self.free_slots@.len()
                        implies #[trigger] self.lru@[a].entry.slot != #[trigger] self.free_slots@[j] by {
                        if a < n - 1 {
                            assert(self.lru@[a] == mid[a]);
                            if m.free_slots.len() == 0 {
                                assert(mid[a] == old_lru[a + 1]);
                            }
                        } else if m.free_slots.len() > 0 {
                            assert(self.free_slots@[j] == old(self).free_slots@[j]);
                        }
                    }
                    assert forall|a: int| 0 <= a < n implies #[trigger] self.lru@[a].entry.slot < self.config.spec_capacity()
                        && self.generations@[self.lru@[a].entry.slot as int] == self.lru@[a].entry.generation by {
                        if a < n - 1 {
                            assert(self.lru@[a] == mid[a]);
                            if m.free_slots.len() == 0 {
                                assert(mid[a] == old_lru[a + 1]);
                                assert(old_lru[a + 1].entry.slot != old_lru[0].entry.slot);
                            }
                        }
                    }
                    assert forall|a: int, b: int|
                        0 <= a < self.free_slots@.len() && 0 <= b < self.free_slots@.len() && a != b implies #[trigger] self.free_slots@[a]
                            != #[trigger] self.free_slots@[b] by {
                        assert(self.free_slots@[a] == old(self).free_slots@[a]);
                        assert(self.free_slots@[b] == old(self).free_slots@[b]);
                    }
                }
                Ok(entry)
            },
        }
    }

    /// A consistent atlas caches at most `capacity` glyphs, in slots below the
    /// capacity, and no two cached glyphs share a key or a slot.
    pub proof fn lemma_consistent_bounds(&self)
        requires
            self.wf(),
        ensures
            self@.distinct(),
            self@.entries.len() <= self@.capacity,
            self@.generations.len() == self@.capacity,
            self@.capacity <= MAX_GLYPH_ATLAS_CAPACITY,
            1 <= self@.capacity,
            self@.entries.len() + self@.free_slots.len() == self@.capacity,
            forall|i: int| 0 <= i < self@.entries.len() ==> (#[trigger] self@.entries[i]).1.slot < self@.capacity,
            forall|i: int| 0 <= i < self@.entries.len() ==> self@.generations[(#[trigger] self@.entries[i]).1.slot as int]
                == self@.entries[i].1.generation,
            self@.consistent(),
    {
        let m = self@;
        assert forall|i: int, j: int|
            0 <= i < m.entries.len() && 0 <= j < m.entries.len() && i != j implies #[trigger] m.entries[i].0
                != #[trigger] m.entries[j].0 && m.entries[i].1.slot != m.entries[j].1.slot by {
            assert(m.entries[i] == (self.lru@[i].key@, self.lru@[i].entry));
            assert(m.entries[j] == (self.lru@[j].key@, self.lru@[j].entry));
        }
        assert forall|i: int| 0 <= i < m.entries.len() implies (#[trigger] m.entries[i]).1.slot < m.capacity
            && m.generations[m.entries[i].1.slot as int] == m.entries[i].1.generation by {
            assert(m.entries[i] == (self.lru@[i].key@, self.lru@[i].entry));
        }
    }

    /// Maximum cached glyph entries.
    pub fn capacity(&self) -> (r: usize)
        ensures
            r == self@.capacity,
    {
        self.config.capacity()
    }
}

/// With distinct keys, a cached key is found at the one position that holds it.
pub proof fn lemma_find_position(m: GlyphAtlasModel, key: GlyphKeyModel, i: int)
    requires
        m.keys_distinct(),
        0 <= i < m.entries.len(),
        m.entries[i].0 == key,
    ensures
        m.find(key) == Some(i),
{
    let c = choose|j: int| 0 <= j < m.entries.len() && #[trigger] m.entries[j].0 == key;
    if c != i {
        assert(m.entries[c].0 != m.entries[i].0);
    }
}

/// Looking a key up twice in a row: the second lookup is a hit that returns the
/// entry the first lookup returned, whether the first was a hit or a miss.
pub proof fn lemma_repeat_lookup_hits(m: GlyphAtlasModel, key: GlyphKeyModel)
    requires
        m.keys_distinct(),
        m.free_slots.len() == 0 ==> m.entries.len() > 0,
    ensures
        ({
            let (m1, e1) = m.lookup(key);
            &&& m1.find(key) == Some(m1.entries.len() - 1)
            &&& m1.lookup(key).1 == e1
        }),
{
    let (m1, e1) = m.lookup(key);
    match m.find(key) {
        Some(i) => {
            let c = choose|j: int| 0 <= j < m.entries.len() && #[trigger] m.entries[j].0 == key;
            assert(m.entries[i].0 == key);
            assert forall|a: int, b: int|
                0 <= a < m1.entries.len() && 0 <= b < m1.entries.len() && a != b implies #[trigger] m1.entries[a].0
                    != #[trigger] m1.entries[b].0 by {
                let n = m1.entries.len();
                let oa = if a == n - 1 { i } else if a < i { a } else { a + 1 };
                let ob = if b == n - 1 { i } else if b < i { b } else { b + 1 };
                assert(m1.entries[a] == m.entries[oa]);
                assert(m1.entries[b] == m.entries[ob]);
            }
            assert(m1.entries[m1.entries.len() - 1] == m.entries[i]);
            lemma_find_position(m1, key, m1.entries.len() - 1);
        },
        None => {
            assert forall|a: int| 0 <= a < m.entries.len() implies #[trigger] m.entries[a].0 != key by {
                if m.entries[a].0 == key {
                    assert(exists|j: int| 0 <= j < m.entries.len() && #[trigger] m.entries[j].0 == key);
                }
            }
            let n = m1.entries.len();
            assert forall|a: int, b: int|
                0 <= a < n && 0 <= b < n && a != b implies #[trigger] m1.entries[a].0 != #[trigger] m1.entries[b].0 by {
                if m.free_slots.len() > 0 {
                    if a < n - 1 && b < n - 1 {
                        assert(m1.entries[a] == m.entries[a]);
                        assert(m1.entries[b] == m.entries[b]);
                    } else if a < n - 1 {
                        assert(m1.entries[a] == m.entries[a]);
                    } else {
                        assert(m1.entries[b] == m.entries[b]);
                    }
                } else {
                    if a < n - 1 && b < n - 1 {
                        assert(m1.entries[a] == m.entries[a + 1]);
                        assert(m1.entries[b] == m.entries[b + 1]);
                    } else if a < n - 1 {
                        assert(m1.entries[a] == m.entries[a + 1]);
                    } else {
                        assert(m1.entries[b] == m.entries[b + 1]);
                    }
                }
            }
            lemma_find_position(m1, key, n - 1);
        },
    }
}

/// Each lookup takes at most one step of headroom from every counter and generation.
pub proof fn lemma_lookup_headroom(m: GlyphAtlasModel, key: GlyphKeyModel, n: nat)
    requires
        m.has_headroom(n + 1),
        m.free_slots.len() == 0 ==> m.entries.len() > 0,
        forall|i: int| 0 <= i < m.entries.len() ==> (#[trigger] m.entries[i]).1.slot < m.generations.len(),
        forall|i: int| 0 <= i < m.entries.len() ==> m.generations[(#[trigger] m.entries[i]).1.slot as int]
            == m.entries[i].1.generation,
    ensures
        m.lookup(key).0.has_headroom(n),
        m.lookup(key).0.generations.len() == m.generations.len(),
{
    let m1 = m.lookup(key).0;
    if m.find(key) is None && m.free_slots.len() == 0 {
        let slot = m.entries[0].1.slot as int;
        assert(m.generations[slot] == m.entries[0].1.generation);
        assert forall|s: int| 0 <= s < m1.generations.len() implies #[trigger] m1.generations[s] + n <= u64::MAX by {
            if s == slot {
                assert(m.generations[slot] + n + 1 <= u64::MAX);
            } else {
                assert(m1.generations[s] == m.generations[s]);
            }
        }
    }
}

} // verus!

verus! {

/// A miss on a full atlas evicts the least recently used glyph: its key is no
/// longer cached, and its slot is handed out again with the next generation.
pub proof fn lemma_full_miss_evicts_lru(m: GlyphAtlasModel, key: GlyphKeyModel)
    requires
        m.keys_distinct(),
        m.find(key) is None,
        m.free_slots.len() == 0,
        m.entries.len() > 0,
        m.has_headroom(1),
        m.entries[0].1.generation == m.generations[m.entries[0].1.slot as int],
        m.entries[0].1.slot < m.generations.len(),
    ensures
        m.lookup(key).1.slot == m.entries[0].1.slot,
        m.lookup(key).1.generation == m.entries[0].1.generation + 1,
        m.lookup(key).0.find(m.entries[0].0) is None,
        m.lookup(key).0.find(key) == Some(m.lookup(key).0.entries.len() - 1),
        m.lookup(key).0.entries.len() == m.entries.len(),
        m.lookup(key).0.evictions == m.evictions + 1,
{
    let m1 = m.lookup(key).0;
    let lru = m.entries[0].0;
    assert(lru != key) by {
        if lru == key {
            assert(exists|j: int| 0 <= j < m.entries.len() && #[trigger] m.entries[j].0 == key);
        }
    }
    assert forall|j: int| 0 <= j < m1.entries.len() implies #[trigger] m1.entries[j].0 != lru by {
        if j < m1.entries.len() - 1 {
            assert(m1.entries[j] == m.entries[j + 1]);
            assert(m.entries[j + 1].0 != m.entries[0].0);
        }
    }
    lemma_repeat_lookup_hits(m, key);
}

} // verus!

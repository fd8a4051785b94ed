//! A memory-bounded LRU cache for rendered page tiles.
//!
//! The cache keeps its entries in one vector ordered from least to most
//! recently used. Keys are unique within it, and the byte count it reports is
//! always the sum of the pixel buffers it holds, which never exceeds the
//! budget it was created with.
use vstd::prelude::*;

verus! {

/// Quantized zoom level.
///
/// Zoom is bucketed so that small changes reuse cached tiles instead of
/// invalidating them. A bucket counts eighths of a unit of zoom and is never
/// zero: the smallest bucket is one step.
#[derive(Debug, Clone, Copy, PartialEq, Eq, Hash, PartialOrd, Ord, Structural)]
pub struct ZoomBucket(u16);

impl View for ZoomBucket {
    type V = u16;

    closed spec fn view(&self) -> u16 {
        self.0
    }
}

impl ZoomBucket {
    /// Builds a bucket from a count of zoom steps, clamping zero up to the
    /// smallest bucket.
    pub fn from_steps(steps: u16) -> (bucket: ZoomBucket)
        ensures
            bucket@ == (if steps == 0 { 1 } else { steps }),
    {
        if steps == 0 {
            ZoomBucket(1)
        } else {
            ZoomBucket(steps)
        }
    }

    /// The number of zoom steps this bucket stands for.
    pub fn steps(self) -> (steps: u16)
        ensures
            steps == self@,
    {
        self.0
    }
}

/// Identifies a cached tile.
#[derive(Debug, Clone, Copy, PartialEq, Eq, Hash, Structural)]
pub struct TileKey {
    /// Zero-based page index.
    pub page: usize,
    /// Quantized zoom.
    pub zoom: ZoomBucket,
    /// Rotation in degrees clockwise (0, 90, 180, 270).
    pub rotation: i32,
}

/// A rendered tile: raw BGRA pixel data plus its dimensions.
#[derive(Debug, Clone, PartialEq, Eq)]
pub struct Tile {
    /// Width in pixels.
    pub width: u32,
    /// Height in pixels.
    pub height: u32,
    /// BGRA pixel data, 4 bytes per pixel.
    pub pixels: Vec<u8>,
}

impl Tile {
    /// Memory footprint in bytes.
    pub fn size_bytes(&self) -> (size: usize)
        ensures
            size == tile_size(*self),
    {
        self.pixels.len()
    }
}

/// Bytes a tile occupies: the length of its pixel buffer.
pub open spec fn tile_size(tile: Tile) -> nat {
    tile.pixels@.len()
}

/// Total bytes held by a sequence of cache entries.
pub open spec fn total_bytes(entries: Seq<(TileKey, Tile)>) -> nat
    decreases entries.len(),
{
    if entries.len() == 0 {
        0
    } else {
        total_bytes(entries.drop_last()) + tile_size(entries.last().1)
    }
}

/// No key occurs twice.
pub open spec fn keys_unique(entries: Seq<(TileKey, Tile)>) -> bool {
    forall|i: int, j: int|
        0 <= i < j < entries.len() ==> #[trigger] entries[i].0 != #[trigger] entries[j].0
}

/// Some entry carries `key`.
pub open spec fn has_key(entries: Seq<(TileKey, Tile)>, key: TileKey) -> bool {
    exists|i: int| 0 <= i < entries.len() && #[trigger] entries[i].0 == key
}

/// Where `key` sits; meaningful when [`has_key`] holds.
pub open spec fn key_position(entries: Seq<(TileKey, Tile)>, key: TileKey) -> int {
    choose|i: int| 0 <= i < entries.len() && #[trigger] entries[i].0 == key
}

/// The entries with `key` taken out, order otherwise kept.
pub open spec fn without_key(entries: Seq<(TileKey, Tile)>, key: TileKey) -> Seq<(TileKey, Tile)> {
    if has_key(entries, key) {
        entries.remove(key_position(entries, key))
    } else {
        entries
    }
}

/// Drops least-recently-used entries until `size` more bytes fit the budget.
pub open spec fn evict_to_fit(entries: Seq<(TileKey, Tile)>, size: nat, budget: nat) -> Seq<
    (TileKey, Tile),
>
    decreases entries.len(),
{
    if entries.len() == 0 || total_bytes(entries) + size <= budget {
        entries
    } else {
        evict_to_fit(entries.drop_first(), size, budget)
    }
}

/// The entries after `tile` is inserted under `key`: an older copy of the key
/// goes, least-recently-used entries go until the tile fits, and the tile
/// becomes the most recently used entry.
pub open spec fn after_insert(
    entries: Seq<(TileKey, Tile)>,
    budget: nat,
    key: TileKey,
    tile: Tile,
) -> Seq<(TileKey, Tile)> {
    evict_to_fit(without_key(entries, key), tile_size(tile), budget).push((key, tile))
}

/// The entries after a hit on `key`: that entry moves to the most recently
/// used end.
pub open spec fn after_touch(entries: Seq<(TileKey, Tile)>, key: TileKey) -> Seq<(TileKey, Tile)> {
    if has_key(entries, key) {
        let i = key_position(entries, key);
        entries.remove(i).push(entries[i])
    } else {
        entries
    }
}

proof fn lemma_total_push(entries: Seq<(TileKey, Tile)>, entry: (TileKey, Tile))
    ensures
        total_bytes(entries.push(entry)) == total_bytes(entries) + tile_size(entry.1),
{
    assert(entries.push(entry).drop_last() =~= entries);
}

proof fn lemma_total_remove(entries: Seq<(TileKey, Tile)>, i: int)
    requires
        0 <= i < entries.len(),
    ensures
        total_bytes(entries) == total_bytes(entries.remove(i)) + tile_size(entries[i].1),
    decreases entries.len(),
{
    if i == entries.len() - 1 {
        assert(entries.remove(i) =~= entries.drop_last());
    } else {
        let shorter = entries.drop_last();
        lemma_total_remove(shorter, i);
        assert(entries.remove(i) =~= shorter.remove(i).push(entries.last()));
        lemma_total_push(shorter.remove(i), entries.last());
    }
}

proof fn lemma_unique_remove(entries: Seq<(TileKey, Tile)>, i: int)
    requires
        0 <= i < entries.len(),
        keys_unique(entries),
    ensures
        keys_unique(entries.remove(i)),
        !has_key(entries.remove(i), entries[i].0),
        forall|k: TileKey| k != entries[i].0 ==> (has_key(entries.remove(i), k) == has_key(entries, k)),
{
    let r = entries.remove(i);
    assert forall|a: int, b: int| 0 <= a < b < r.len() implies #[trigger] r[a].0 != #[trigger] r[b].0 by {
        let oa = if a < i { a } else { a + 1 };
        let ob = if b < i { b } else { b + 1 };
        assert(r[a] == entries[oa]);
        assert(r[b] == entries[ob]);
    }
    if has_key(r, entries[i].0) {
        let j = choose|j: int| 0 <= j < r.len() && #[trigger] r[j].0 == entries[i].0;
        let oj = if j < i { j } else { j + 1 };
        assert(r[j] == entries[oj]);
    }
    assert forall|k: TileKey| k != entries[i].0 implies (has_key(r, k) == has_key(entries, k)) by {
        if has_key(entries, k) {
            let j = choose|j: int| 0 <= j < entries.len() && #[trigger] entries[j].0 == k;
            let rj = if j < i { j } else { j - 1 };
            assert(r[rj] == entries[j]);
        }
        if has_key(r, k) {
            let j = choose|j: int| 0 <= j < r.len() && #[trigger] r[j].0 == k;
            let oj = if j < i { j } else { j + 1 };
            assert(r[j] == entries[oj]);
        }
    }
}

proof fn lemma_position_unique(entries: Seq<(TileKey, Tile)>, i: int)
    requires
        0 <= i < entries.len(),
        keys_unique(entries),
    ensures
        has_key(entries, entries[i].0),
        key_position(entries, entries[i].0) == i,
{
    assert(entries[i].0 == entries[i].0);
    let j = key_position(entries, entries[i].0);
    if j < i {
        assert(entries[j].0 != entries[i].0);
    } else if j > i {
        assert(entries[i].0 != entries[j].0);
    }
}

proof fn lemma_evict_step(entries: Seq<(TileKey, Tile)>, size: nat, budget: nat)
    requires
        entries.len() > 0,
        total_bytes(entries) + size > budget,
    ensures
        evict_to_fit(entries, size, budget) == evict_to_fit(entries.drop_first(), size, budget),
        total_bytes(entries) == total_bytes(entries.drop_first()) + tile_size(entries[0].1),
{
    lemma_total_remove(entries, 0);
    assert(entries.remove(0) =~= entries.drop_first());
}

proof fn lemma_evict_is_suffix(entries: Seq<(TileKey, Tile)>, size: nat, budget: nat)
    ensures
        exists|k: int|
            0 <= k <= entries.len() && #[trigger] evict_to_fit(entries, size, budget)
                == entries.subrange(k, entries.len() as int),
        size <= budget ==> total_bytes(evict_to_fit(entries, size, budget)) + size <= budget,
    decreases entries.len(),
{
    if entries.len() == 0 || total_bytes(entries) + size <= budget {
        assert(entries.subrange(0, entries.len() as int) =~= entries);
    } else {
        lemma_evict_is_suffix(entries.drop_first(), size, budget);
        let rest = entries.drop_first();
        let k = choose|k: int|
            0 <= k <= rest.len() && #[trigger] evict_to_fit(rest, size, budget) == rest.subrange(
                k,
                rest.len() as int,
            );
        assert(rest.subrange(k, rest.len() as int) =~= entries.subrange(k + 1, entries.len() as int));
    }
}

proof fn lemma_suffix_keeps_uniqueness(entries: Seq<(TileKey, Tile)>, k: int, key: TileKey)
    requires
        0 <= k <= entries.len(),
        keys_unique(entries),
        !has_key(entries, key),
    ensures
        keys_unique(entries.subrange(k, entries.len() as int)),
        !has_key(entries.subrange(k, entries.len() as int), key),
{
    let suffix = entries.subrange(k, entries.len() as int);
    assert forall|a: int, b: int| 0 <= a < b < suffix.len() implies #[trigger] suffix[a].0
        != #[trigger] suffix[b].0 by {
        assert(suffix[a] == entries[a + k]);
        assert(suffix[b] == entries[b + k]);
    }
    if has_key(suffix, key) {
        let j = choose|j: int| 0 <= j < suffix.len() && #[trigger] suffix[j].0 == key;
        assert(suffix[j] == entries[j + k]);
    }
}

/// After a tile that fits the budget is inserted, the cache still holds each
/// key once and stays within its budget, the new tile is the most recently
/// used entry, and looking its key up finds exactly that tile.
pub proof fn law_inserted_tile_is_found_within_budget(
    entries: Seq<(TileKey, Tile)>,
    budget: nat,
    key: TileKey,
    tile: Tile,
)
    requires
        keys_unique(entries),
        tile_size(tile) <= budget,
    ensures
        keys_unique(after_insert(entries, budget, key, tile)),
        total_bytes(after_insert(entries, budget, key, tile)) <= budget,
        after_insert(entries, budget, key, tile).last() == (key, tile),
        has_key(after_insert(entries, budget, key, tile), key),
        after_insert(entries, budget, key, tile)[key_position(
            after_insert(entries, budget, key, tile),
            key,
        )].1 == tile,
{
    let removed = without_key(entries, key);
    if has_key(entries, key) {
        lemma_unique_remove(entries, key_position(entries, key));
    }
    assert(keys_unique(removed) && !has_key(removed, key));
    let size = tile_size(tile);
    lemma_evict_is_suffix(removed, size, budget);
    let kept = evict_to_fit(removed, size, budget);
    let k = choose|k: int|
        0 <= k <= removed.len() && #[trigger] evict_to_fit(removed, size, budget)
            == removed.subrange(k, removed.len() as int);
    lemma_suffix_keeps_uniqueness(removed, k, key);
    let after = kept.push((key, tile));
    lemma_total_push(kept, (key, tile));
    assert forall|a: int, b: int| 0 <= a < b < after.len() implies #[trigger] after[a].0
        != #[trigger] after[b].0 by {
        if b == after.len() - 1 {
            assert(after[a] == kept[a]);
        }
    }
    lemma_position_unique(after, after.len() - 1);
}

proof fn lemma_evict_stops_as_soon_as_it_fits(entries: Seq<(TileKey, Tile)>, size: nat, budget: nat)
    ensures
        exists|k: int|
            0 <= k <= entries.len() && evict_to_fit(entries, size, budget)
                == #[trigger] entries.subrange(k, entries.len() as int) && (k > 0 ==> total_bytes(
                entries.subrange(k - 1, entries.len() as int),
            ) + size > budget),
    decreases entries.len(),
{
    if entries.len() == 0 || total_bytes(entries) + size <= budget {
        assert(entries.subrange(0, entries.len() as int) =~= entries);
    } else {
        let rest = entries.drop_first();
        lemma_evict_stops_as_soon_as_it_fits(rest, size, budget);
        let k = choose|k: int|
            0 <= k <= rest.len() && evict_to_fit(rest, size, budget) == #[trigger] rest.subrange(
                k,
                rest.len() as int,
            ) && (k > 0 ==> total_bytes(rest.subrange(k - 1, rest.len() as int)) + size > budget);
        assert(rest.subrange(k, rest.len() as int) =~= entries.subrange(k + 1, entries.len() as int));
        if k == 0 {
            assert(entries.subrange(0, entries.len() as int) =~= entries);
        } else {
            assert(rest.subrange(k - 1, rest.len() as int) =~= entries.subrange(
                k,
                entries.len() as int,
            ));
        }
        assert(evict_to_fit(entries, size, budget) == entries.subrange(k + 1, entries.len() as int));
    }
}

/// A lookup hit on the entry at `i` moves exactly that entry to the most
/// recently used end and keeps every other entry in its order; a miss
/// changes nothing.
pub proof fn law_a_hit_becomes_most_recently_used(
    entries: Seq<(TileKey, Tile)>,
    key: TileKey,
    i: int,
)
    requires
        keys_unique(entries),
    ensures
        0 <= i < entries.len() && entries[i].0 == key ==> after_touch(entries, key) == entries.remove(
            i,
        ).push(entries[i]),
        0 <= i < entries.len() && entries[i].0 == key ==> after_touch(entries, key).last().0 == key,
        (forall|j: int| 0 <= j < entries.len() ==> #[trigger] entries[j].0 != key) ==> after_touch(
            entries,
            key,
        ) == entries,
{
    if 0 <= i < entries.len() && entries[i].0 == key {
        lemma_position_unique(entries, i);
    }
}

/// Inserting takes out any older entry of the key (keeping the others in
/// order), then evicts from the least recently used end, one entry at a
/// time and no more than needed for the new tile to fit, and puts the new
/// tile at the most recently used end.
pub proof fn law_insert_evicts_least_recently_used_first(
    entries: Seq<(TileKey, Tile)>,
    budget: nat,
    key: TileKey,
    tile: Tile,
)
    requires
        keys_unique(entries),
        tile_size(tile) <= budget,
    ensures
        forall|i: int|
            0 <= i < entries.len() && #[trigger] entries[i].0 == key ==> without_key(entries, key)
                == entries.remove(i),
        (forall|i: int| 0 <= i < entries.len() ==> #[trigger] entries[i].0 != key) ==> without_key(
            entries,
            key,
        ) == entries,
        exists|k: int|
            0 <= k <= without_key(entries, key).len() && after_insert(entries, budget, key, tile)
                == (#[trigger] without_key(entries, key).subrange(
                k,
                without_key(entries, key).len() as int,
            )).push((key, tile)) && total_bytes(
                without_key(entries, key).subrange(k, without_key(entries, key).len() as int),
            ) + tile_size(tile) <= budget && (k > 0 ==> total_bytes(
                without_key(entries, key).subrange(k - 1, without_key(entries, key).len() as int),
            ) + tile_size(tile) > budget),
{
    assert forall|i: int|
        0 <= i < entries.len() && #[trigger] entries[i].0 == key implies without_key(entries, key)
            == entries.remove(i) by {
        lemma_position_unique(entries, i);
    }
    let rest = without_key(entries, key);
    let size = tile_size(tile);
    lemma_evict_stops_as_soon_as_it_fits(rest, size, budget);
    lemma_evict_is_suffix(rest, size, budget);
    let k = choose|k: int|
        0 <= k <= rest.len() && evict_to_fit(rest, size, budget) == #[trigger] rest.subrange(
            k,
            rest.len() as int,
        ) && (k > 0 ==> total_bytes(rest.subrange(k - 1, rest.len() as int)) + size > budget);
    assert(after_insert(entries, budget, key, tile) == rest.subrange(k, rest.len() as int).push(
        (key, tile),
    ));
}

/// Where `key` is in `entries`, if it is there.
fn position(entries: &Vec<(TileKey, Tile)>, key: &TileKey) -> (found: Option<usize>)
    requires
        keys_unique(entries@),
    ensures
        match found {
            Some(i) => i < entries@.len() && entries@[i as int].0 == *key && key_position(
                entries@,
                *key,
            ) == i,
            None => !has_key(entries@, *key),
        },
{
    let mut i: usize = 0;
    while i < entries.len()
        invariant
            keys_unique(entries@),
            i <= entries@.len(),
            forall|j: int| 0 <= j < i ==> #[trigger] entries@[j].0 != *key,
        decreases entries@.len() - i,
    {
        if entries[i].0 == *key {
            proof {
                lemma_position_unique(entries@, i as int);
            }
            return Some(i);
        }
        i = i + 1;
    }
    None
}

/// LRU tile cache with a hard byte ceiling.
#[derive(Debug)]
pub struct TileCache {
    /// Least-recently-used first.
    entries: Vec<(TileKey, Tile)>,
    used_bytes: usize,
    budget_bytes: usize,
}

impl TileCache {
    /// The cached entries, least recently used first.
    pub closed spec fn entries(&self) -> Seq<(TileKey, Tile)> {
        self.entries@
    }

    /// The byte ceiling the cache was created with.
    pub closed spec fn budget(&self) -> nat {
        self.budget_bytes as nat
    }

    /// What every cache guarantees: each key once, and no more bytes than
    /// the budget.
    pub open spec fn is_bounded(&self) -> bool {
        &&& keys_unique(self.entries())
        &&& total_bytes(self.entries()) <= self.budget()
    }

    /// The cache's invariant: unique keys, exact accounting, budget respected.
    #[verifier::type_invariant]
    spec fn wf(&self) -> bool {
        &&& keys_unique(self.entries@)
        &&& self.used_bytes as nat == total_bytes(self.entries@)
        &&& self.used_bytes <= self.budget_bytes
    }

    /// Creates a cache limited to `budget_bytes`.
    pub fn new(budget_bytes: usize) -> (cache: Self)
        ensures
            cache.is_bounded(),
            cache.entries() == Seq::<(TileKey, Tile)>::empty(),
            cache.budget() == budget_bytes,
    {
        let entries: Vec<(TileKey, Tile)> = Vec::new();
        assert(entries@ =~= Seq::<(TileKey, Tile)>::empty());
        TileCache { entries, used_bytes: 0, budget_bytes }
    }

    /// Takes the cache's contents out, leaving it empty with the same budget.
    fn take(&mut self) -> (parts: (Vec<(TileKey, Tile)>, usize))
        ensures
            final(self).entries() == Seq::<(TileKey, Tile)>::empty(),
            final(self).budget() == old(self).budget(),
            parts.0@ == old(self).entries(),
            keys_unique(parts.0@),
            parts.1 as nat == total_bytes(parts.0@),
            parts.1 <= old(self).budget(),
    {
        proof {
            use_type_invariant(&*self);
        }
        let mut taken = TileCache::new(self.budget_bytes);
        std::mem::swap(self, &mut taken);
        let TileCache { entries, used_bytes, budget_bytes: _ } = taken;
        (entries, used_bytes)
    }

    /// Looks up a tile, marking it as recently used.
    pub fn get(&mut self, key: &TileKey) -> (found: Option<&Tile>)
        ensures
            final(self).is_bounded(),
            final(self).budget() == old(self).budget(),
            final(self).entries() == after_touch(old(self).entries(), *key),
            has_key(old(self).entries(), *key) ==> final(self).entries().last() == old(
                self,
            ).entries()[key_position(old(self).entries(), *key)] && final(self).entries().drop_last()
                == old(self).entries().remove(key_position(old(self).entries(), *key)),
            !has_key(old(self).entries(), *key) ==> final(self).entries() == old(self).entries(),
            match found {
                Some(tile) => has_key(old(self).entries(), *key) && *tile == old(
                    self,
                ).entries()[key_position(old(self).entries(), *key)].1,
                None => !has_key(old(self).entries(), *key),
            },
    {
        proof {
            use_type_invariant(&*self);
        }
        match position(&self.entries, key) {
            None => None,
            Some(i) => {
                let budget_bytes = self.budget_bytes;
                let (mut entries, used_bytes) = self.take();
                let ghost before = entries@;
                let entry = entries.remove(i);
                proof {
                    lemma_total_remove(before, i as int);
                    lemma_unique_remove(before, i as int);
                    lemma_total_push(before.remove(i as int), entry);
                }
                entries.push(entry);
                proof {
                    let after = entries@;
                    assert forall|a: int, b: int| 0 <= a < b < after.len() implies
                        #[trigger] after[a].0 != #[trigger] after[b].0 by {
                        if b == after.len() - 1 {
                            assert(after[a] == before.remove(i as int)[a]);
                        }
                    }
                }
                *self = TileCache { entries, used_bytes, budget_bytes };
                let last = self.entries.len() - 1;
                Some(&self.entries[last].1)
            },
        }
    }

    /// Inserts a tile, evicting least-recently-used entries as needed.
    ///
    /// A tile larger than the entire budget is rejected, and the cache is
    /// left as it was.
    pub fn insert(&mut self, key: TileKey, tile: Tile) -> (inserted: bool)
        ensures
            final(self).is_bounded(),
            final(self).budget() == old(self).budget(),
            inserted == (tile_size(tile) <= old(self).budget()),
            inserted ==> final(self).entries() == after_insert(
                old(self).entries(),
                old(self).budget(),
                key,
                tile,
            ),
            !inserted ==> final(self).entries() == old(self).entries(),
    {
        proof {
            use_type_invariant(&*self);
        }
        let size = tile.size_bytes();
        let budget_bytes = self.budget_bytes;
        if size > budget_bytes {
            return false;
        }
        let (mut entries, mut used_bytes) = self.take();
        let ghost initial = entries@;
        match position(&entries, &key) {
            Some(i) => {
                let existing = entries.remove(i);
                proof {
                    lemma_total_remove(initial, i as int);
                    lemma_unique_remove(initial, i as int);
                }
                used_bytes = used_bytes - existing.1.size_bytes();
            },
            None => {},
        }
        let ghost removed = entries@;
        assert(removed == without_key(initial, key));
        assert(!has_key(removed, key)) by {
            if has_key(initial, key) {
                lemma_unique_remove(initial, key_position(initial, key));
            }
        }
        while size > budget_bytes - used_bytes
            invariant
                keys_unique(entries@),
                !has_key(entries@, key),
                used_bytes as nat == total_bytes(entries@),
                used_bytes <= budget_bytes,
                size == tile_size(tile),
                size <= budget_bytes,
                evict_to_fit(entries@, size as nat, budget_bytes as nat) == evict_to_fit(
                    removed,
                    size as nat,
                    budget_bytes as nat,
                ),
            decreases entries@.len(),
        {
            let ghost before = entries@;
            proof {
                lemma_evict_step(before, size as nat, budget_bytes as nat);
                lemma_unique_remove(before, 0);
                assert(before.remove(0) =~= before.drop_first());
            }
            let evicted = entries.remove(0);
            used_bytes = used_bytes - evicted.1.size_bytes();
        }
        assert(evict_to_fit(entries@, size as nat, budget_bytes as nat) == entries@);
        let ghost kept = entries@;
        used_bytes = used_bytes + size;
        entries.push((key, tile));
        proof {
            lemma_total_push(kept, (key, tile));
            let after = entries@;
            assert forall|a: int, b: int| 0 <= a < b < after.len() implies
                #[trigger] after[a].0 != #[trigger] after[b].0 by {
                if b == after.len() - 1 {
                    assert(after[a] == kept[a]);
                }
            }
        }
        *self = TileCache { entries, used_bytes, budget_bytes };
        true
    }

    /// Current memory use in bytes.
    pub fn used_bytes(&self) -> (used: usize)
        ensures
            used == total_bytes(self.entries()),
            used <= self.budget(),
            self.is_bounded(),
    {
        proof {
            use_type_invariant(self);
        }
        self.used_bytes
    }

    /// Number of cached tiles.
    pub fn len(&self) -> (count: usize)
        ensures
            count == self.entries().len(),
    {
        self.entries.len()
    }

    /// Whether the cache is empty.
    pub fn is_empty(&self) -> (empty: bool)
        ensures
            empty == (self.entries().len() == 0),
    {
        self.entries.len() == 0
    }

    /// Drops every cached tile.
    pub fn clear(&mut self)
        ensures
            final(self).is_bounded(),
            final(self).budget() == old(self).budget(),
            final(self).entries() == Seq::<(TileKey, Tile)>::empty(),
    {
        let _ = self.take();
    }
}

} // verus!

//! The blob cache: serialized subchunks shared by hash between clients that
//! support the client-side blob cache, with reference counts.
use vstd::prelude::*;
use std::sync::Arc;
use dashmap::DashMap;
use nohash_hasher::{BuildNoHashHasher, NoHashHasher};
use std::hash::BuildHasherDefault;
use crate::coords::Vector3;
use crate::heightmap::Heightmap;
use crate::region_index::{RegionIndex, pack, packable};

verus! {

#[verifier::external_type_specification]
#[verifier::external_body]
#[verifier::reject_recursive_types(K)]
#[verifier::reject_recursive_types(V)]
#[verifier::reject_recursive_types(S)]
pub struct ExDashMap<K, V, S>(DashMap<K, V, S>);

#[verifier::external_type_specification]
#[verifier::external_body]
#[verifier::reject_recursive_types(H)]
pub struct ExBuildHasherDefault<H>(BuildHasherDefault<H>);

#[verifier::external_type_specification]
#[verifier::external_body]
#[verifier::reject_recursive_types(T)]
pub struct ExNoHashHasher<T>(NoHashHasher<T>);

/// The 64-bit xxHash of `data` with the given seed, as computed by
/// `xxhash_rust::xxh64::xxh64`.
pub uninterp spec fn spec_xxh64(data: Seq<u8>, seed: u64) -> u64;

/// Hashes `data` with `xxhash_rust::xxh64::xxh64`.
///
/// Trusted: the result is the named `spec_xxh64(data, seed)`.
#[verifier::external_body]
fn xxh64(data: &[u8], seed: u64) -> (h: u64)
    ensures
        h == spec_xxh64(data@, seed),
{
    xxhash_rust::xxh64::xxh64(data, seed)
}

/// A serialized subchunk that can be shared through the blob cache.
#[derive(Debug)]
pub struct CacheableSubChunk {
    /// Hash of the payload.
    pub hash: u64,
    /// Heightmap of the subchunk.
    pub heightmap: Heightmap,
    /// Network-serialized subchunk.
    pub payload: Arc<Vec<u8>>,
}

/// A cached blob with its reference count.
#[derive(Debug)]
pub struct ChunkRef {
    /// Number of references to the blob.
    pub counter: u16,
    /// The cached blob.
    pub data: Arc<CacheableSubChunk>,
}

impl ChunkRef {
    /// Number of references to the blob.
    pub open spec fn count(&self) -> u16 {
        self.counter
    }

    /// The cached blob.
    pub open spec fn blob(&self) -> Arc<CacheableSubChunk> {
        self.data
    }
}

/// The map from blob hashes to cached blobs.
pub type ChunkMap = DashMap<u64, ChunkRef, BuildNoHashHasher<u64>>;

/// The map from packed positions to blob hashes.
pub type HashMapByPos = DashMap<u64, u64, BuildNoHashHasher<u64>>;

/// The entries of a blob map.
pub uninterp spec fn chunk_entries(m: ChunkMap) -> Map<u64, ChunkRef>;

/// The entries of a position map.
pub uninterp spec fn pos_entries(m: HashMapByPos) -> Map<u64, u64>;

/// The blob map with no entries.
pub open spec fn no_chunks() -> Map<u64, ChunkRef> {
    Map::empty()
}

/// The position map with no entries.
pub open spec fn no_positions() -> Map<u64, u64> {
    Map::empty()
}

/// Creates an empty blob map with `DashMap::with_hasher` and the no-op hasher.
///
/// Trusted: the new map has no entries.
#[verifier::external_body]
fn new_chunk_map() -> (fresh: ChunkMap)
    ensures
        chunk_entries(fresh) == no_chunks(),
{
    DashMap::with_hasher(BuildNoHashHasher::default())
}

/// Creates an empty position map with `DashMap::with_hasher` and the no-op hasher.
///
/// Trusted: the new map has no entries.
#[verifier::external_body]
pub(crate) fn new_pos_map() -> (fresh: HashMapByPos)
    ensures
        pos_entries(fresh) == no_positions(),
{
    DashMap::with_hasher(BuildNoHashHasher::default())
}

/// `DashMap::insert` on the blob map.
///
/// Trusted: the key now maps to the value, other entries are unchanged, and
/// the value previously stored under the key (if any) is returned.
#[verifier::external_body]
fn chunk_insert(m: &mut ChunkMap, key: u64, value: ChunkRef) -> (old_value: Option<ChunkRef>)
    ensures
        chunk_entries(*final(m)) == chunk_entries(*old(m)).insert(key, value),
        old_value == (if chunk_entries(*old(m)).contains_key(key) {
            Some(chunk_entries(*old(m))[key])
        } else {
            None
        }),
{
    m.insert(key, value)
}

/// `DashMap::remove` on the blob map, keeping the removed value.
///
/// Trusted: the key is no longer present, other entries are unchanged, and
/// the value that was stored under the key (if any) is returned.
#[verifier::external_body]
fn chunk_remove(m: &mut ChunkMap, key: u64) -> (removed: Option<ChunkRef>)
    ensures
        chunk_entries(*final(m)) == chunk_entries(*old(m)).remove(key),
        removed == (if chunk_entries(*old(m)).contains_key(key) {
            Some(chunk_entries(*old(m))[key])
        } else {
            None
        }),
{
    m.remove(&key).map(|(_, v)| v)
}

/// `DashMap::get` on the blob map, copying out the count and sharing the blob.
///
/// Trusted: for a present key, the stored count and (a clone of the `Arc`
/// to) the stored blob; `None` for an absent key.
#[verifier::external_body]
fn chunk_get(m: &ChunkMap, key: u64) -> (entry: Option<(u16, Arc<CacheableSubChunk>)>)
    ensures
        chunk_entries(*m).contains_key(key) ==> entry == Some(
            (chunk_entries(*m)[key].count(), chunk_entries(*m)[key].blob()),
        ),
        !chunk_entries(*m).contains_key(key) ==> entry is None,
{
    m.get(&key).map(|r| (r.counter, Arc::clone(&r.data)))
}

/// `DashMap::insert` on the position map.
///
/// Trusted: the key now maps to the value, other entries are unchanged, and
/// the value previously stored under the key (if any) is returned.
#[verifier::external_body]
pub(crate) fn pos_insert(m: &mut HashMapByPos, key: u64, value: u64) -> (old_value: Option<u64>)
    ensures
        pos_entries(*final(m)) == pos_entries(*old(m)).insert(key, value),
        old_value == (if pos_entries(*old(m)).contains_key(key) {
            Some(pos_entries(*old(m))[key])
        } else {
            None
        }),
{
    m.insert(key, value)
}

/// `DashMap::get` on the position map, copying out the hash.
///
/// Trusted: the stored hash for a present key, `None` for an absent key.
#[verifier::external_body]
pub(crate) fn pos_get(m: &HashMapByPos, key: u64) -> (value: Option<u64>)
    ensures
        pos_entries(*m).contains_key(key) ==> value == Some(pos_entries(*m)[key]),
        !pos_entries(*m).contains_key(key) ==> value is None,
{
    m.get(&key).map(|r| *r)
}

/// `DashMap::remove` on a position map, keeping the removed value.
///
/// Trusted: the key is no longer present, other entries are unchanged, and
/// the value that was stored under the key (if any) is returned.
#[verifier::external_body]
pub(crate) fn pos_remove(m: &mut HashMapByPos, key: u64) -> (removed: Option<u64>)
    ensures
        pos_entries(*final(m)) == pos_entries(*old(m)).remove(key),
        removed == (if pos_entries(*old(m)).contains_key(key) {
            Some(pos_entries(*old(m))[key])
        } else {
            None
        }),
{
    m.remove(&key).map(|(_, v)| v)
}

/// Whether a position entry is kept when the blob `hash` is dropped.
pub open spec fn keeps(v: u64, hash: u64) -> bool {
    v != hash
}

fn keeps_entry(v: &u64, hash: u64) -> (b: bool)
    ensures
        b == keeps(*v, hash),
{
    *v != hash
}

/// `DashMap::retain` on the position map, keeping the entries whose hash is
/// not `hash`.
///
/// Trusted: exactly the entries for which the predicate holds remain.
#[verifier::external_body]
fn pos_retain_not(m: &mut HashMapByPos, hash: u64)
    ensures
        pos_entries(*final(m)) == pos_entries(*old(m)).restrict(
            pos_entries(*old(m)).dom().filter(|k: u64| keeps(pos_entries(*old(m))[k], hash)),
        ),
{
    m.retain(|_, v| keeps_entry(v, hash))
}

/// Errors of the blob cache.
#[derive(Debug, Copy, Clone, PartialEq, Eq, Structural)]
pub enum BlobError {
    /// The position cannot be packed into a region index.
    InvalidPosition,
    /// A hash was requested that the cache does not hold.
    MissingChunk,
    /// Replacing the blob of a position would have to drop a blob that is no
    /// longer cached.
    MissingPrevious,
}

/// Stores serialized subchunks by hash, with a reference count each, and
/// maps positions to the hash of their blob.
#[derive(Debug)]
pub struct BlobCache {
    /// Chunk data stored by hash.
    /// As clients will request by hash rather than coordinates,
    /// this means there will only be one lookup.
    chunks: ChunkMap,
    /// Maps coordinates to blob hashes.
    pos_to_hash: HashMapByPos,
}

/// Whether caching a blob with hash `hash` at packed position `key` can drop
/// the position's previous blob: it has none, or its previous hash is the
/// new one, or the previous blob is still cached.
pub open spec fn can_replace(chunks: Map<u64, ChunkRef>, hashes: Map<u64, u64>, key: u64, hash: u64) -> bool {
    hashes.contains_key(key) ==> (hashes[key] == hash || chunks.contains_key(hashes[key]))
}

/// The blobs after caching `r` under `hash` at packed position `key`: the
/// position's previous blob is dropped when it had another hash, and `r`
/// is stored under `hash` (replacing whatever was stored there).
pub open spec fn cached_chunks(chunks: Map<u64, ChunkRef>, hashes: Map<u64, u64>, key: u64, hash: u64, r: ChunkRef) -> Map<u64, ChunkRef> {
    if hashes.contains_key(key) && hashes[key] != hash {
        chunks.remove(hashes[key]).insert(hash, r)
    } else {
        chunks.insert(hash, r)
    }
}

/// The blob that caching at packed position `key` replaces: the one stored
/// under the position's previous hash, if the position had one and it is
/// still cached.
pub open spec fn replaced_blob(chunks: Map<u64, ChunkRef>, hashes: Map<u64, u64>, key: u64) -> Option<Arc<CacheableSubChunk>> {
    if hashes.contains_key(key) && chunks.contains_key(hashes[key]) {
        Some(chunks[hashes[key]].blob())
    } else {
        None
    }
}

/// The chunks after a reference to the stored blob `hash` is taken: its
/// count goes up by one (wrapping around past `u16::MAX`).
pub open spec fn chunks_after_ref(chunks: Map<u64, ChunkRef>, hash: u64) -> Map<u64, ChunkRef> {
    let r = chunks[hash];
    chunks.insert(
        hash,
        ChunkRef { counter: (if r.count() == u16::MAX { 0 } else { r.count() + 1 }) as u16, data: r.blob() },
    )
}

/// The chunks after a reference to the stored blob `hash` is given back:
/// the blob is dropped when it held the last reference, otherwise its count
/// goes down by one.
pub open spec fn chunks_after_unref(chunks: Map<u64, ChunkRef>, hash: u64) -> Map<u64, ChunkRef> {
    let r = chunks[hash];
    if r.count() == 1 {
        chunks.remove(hash)
    } else {
        chunks.insert(hash, ChunkRef { counter: (r.count() - 1) as u16, data: r.blob() })
    }
}

/// The positions after a reference to the stored blob `hash` is given back:
/// when the blob is dropped, every position that refers to it goes too.
pub open spec fn hashes_after_unref(chunks: Map<u64, ChunkRef>, hashes: Map<u64, u64>, hash: u64) -> Map<u64, u64> {
    if chunks[hash].count() == 1 {
        without_hash(hashes, hash)
    } else {
        hashes
    }
}

/// The position map once the blob `hash` is dropped: every position that
/// refers to it is removed.
pub open spec fn without_hash(hashes: Map<u64, u64>, hash: u64) -> Map<u64, u64> {
    hashes.restrict(hashes.dom().filter(|k: u64| keeps(hashes[k], hash)))
}

impl BlobCache {
    /// The cached blobs by hash.
    pub closed spec fn chunks_view(&self) -> Map<u64, ChunkRef> {
        chunk_entries(self.chunks)
    }

    /// The hash of the blob of each packed position.
    pub closed spec fn hashes_view(&self) -> Map<u64, u64> {
        pos_entries(self.pos_to_hash)
    }

    /// Creates an empty cache.
    pub fn new() -> (c: BlobCache)
        ensures
            c.chunks_view() == Map::<u64, ChunkRef>::empty(),
            c.hashes_view() == Map::<u64, u64>::empty(),
    {
        BlobCache { chunks: new_chunk_map(), pos_to_hash: new_pos_map() }
    }

    /// Stores `chunk` under `hash` with a count of one (replacing whatever was
    /// stored under that hash) and makes the position `index` refer to it.
    /// If the position referred to a blob before, that blob is dropped from
    /// the cache and returned.
    pub fn insert_blob(&mut self, index: RegionIndex, hash: u64, chunk: CacheableSubChunk) -> (prev: Option<Arc<CacheableSubChunk>>)
        requires
            can_replace(old(self).chunks_view(), old(self).hashes_view(), index@, hash),
        ensures
            final(self).hashes_view() == old(self).hashes_view().insert(index@, hash),
            final(self).chunks_view() == cached_chunks(
                old(self).chunks_view(),
                old(self).hashes_view(),
                index@,
                hash,
                ChunkRef { counter: 1, data: Arc::new(chunk) },
            ),
            prev == replaced_blob(old(self).chunks_view(), old(self).hashes_view(), index@),
            final(self).chunks_view().contains_key(hash),
            old(self).hashes_view().contains_key(index@) && old(self).hashes_view()[index@] != hash
                ==> !final(self).chunks_view().contains_key(old(self).hashes_view()[index@]),
    {
        proof {
            lemma_cache_replaces_previous(
                self.chunks_view(),
                self.hashes_view(),
                index@,
                hash,
                ChunkRef { counter: 1, data: Arc::new(chunk) },
            );
        }
        let entry = ChunkRef { counter: 1, data: Arc::new(chunk) };
        let prev = match pos_insert(&mut self.pos_to_hash, index.as_u64(), hash) {
            Some(prev_hash) => {
                if prev_hash != hash {
                    match chunk_remove(&mut self.chunks, prev_hash) {
                        Some(r) => Some(r.data),
                        None => None,
                    }
                } else {
                    match chunk_get(&self.chunks, prev_hash) {
                        Some((_, data)) => Some(data),
                        None => None,
                    }
                }
            },
            None => None,
        };
        let _ = chunk_insert(&mut self.chunks, hash, entry);
        prev
    }

    /// Inserts a blob into the cache.
    /// If a blob already existed for this chunk, it will be removed and returned
    /// (a blob with the same hash is replaced by the new one).
    ///
    /// The blob is stored under the xxHash of its payload with a count of one.
    /// Fails when the position cannot be packed, and (leaving the cache
    /// unchanged) when the position's previous blob is no longer cached.
    pub fn cache(&mut self, position: Vector3, heightmap: Heightmap, payload: Vec<u8>) -> (res: Result<Option<Arc<CacheableSubChunk>>, BlobError>)
        ensures
            !packable(position) ==> res == Err::<Option<Arc<CacheableSubChunk>>, BlobError>(
                BlobError::InvalidPosition,
            ) && *final(self) == *old(self),
            packable(position) ==> {
                let key = pack(position);
                let hash = spec_xxh64(payload@, 0);
                if can_replace(old(self).chunks_view(), old(self).hashes_view(), key, hash) {
                    let new_chunk = CacheableSubChunk { hash, heightmap, payload: Arc::new(payload) };
                    &&& final(self).hashes_view() == old(self).hashes_view().insert(key, hash)
                    &&& final(self).chunks_view() == cached_chunks(
                        old(self).chunks_view(),
                        old(self).hashes_view(),
                        key,
                        hash,
                        ChunkRef { counter: 1, data: Arc::new(new_chunk) },
                    )
                    &&& res == Ok::<Option<Arc<CacheableSubChunk>>, BlobError>(
                        replaced_blob(old(self).chunks_view(), old(self).hashes_view(), key),
                    )
                    &&& final(self).chunks_view().contains_key(hash)
                    &&& old(self).hashes_view().contains_key(key) && old(self).hashes_view()[key] != hash
                        ==> !final(self).chunks_view().contains_key(old(self).hashes_view()[key])
                } else {
                    &&& res == Err::<Option<Arc<CacheableSubChunk>>, BlobError>(BlobError::MissingPrevious)
                    &&& *final(self) == *old(self)
                }
            },
    {
        let index = match RegionIndex::try_from_coordinates(position) {
            Some(i) => i,
            None => {
                return Err(BlobError::InvalidPosition);
            },
        };
        let hash = xxh64(payload.as_slice(), 0);
        let key = index.as_u64();
        match pos_get(&self.pos_to_hash, key) {
            Some(prev_hash) => {
                if prev_hash != hash && chunk_get(&self.chunks, prev_hash).is_none() {
                    return Err(BlobError::MissingPrevious);
                }
            },
            None => {},
        }
        let chunk = CacheableSubChunk { hash, heightmap, payload: Arc::new(payload) };
        Ok(self.insert_blob(index, hash, chunk))
    }

    /// Removes one from the reference counter of the given blob, returning the *previous*
    /// reference count if the blob was found.
    ///
    /// If the reference count has reached zero, the blob is removed, together
    /// with every position that refers to it.
    pub fn unref_by_hash(&mut self, hash: u64) -> (count: Option<u16>)
        requires
            old(self).chunks_view().contains_key(hash) ==> old(self).chunks_view()[hash].count() != 0,
        ensures
            !old(self).chunks_view().contains_key(hash) ==> count is None && *final(self) == *old(self),
            old(self).chunks_view().contains_key(hash) ==> {
                let r = old(self).chunks_view()[hash];
                &&& count == Some(r.count())
                &&& r.count() == 1 ==> {
                    &&& final(self).chunks_view() == old(self).chunks_view().remove(hash)
                    &&& final(self).hashes_view() == without_hash(old(self).hashes_view(), hash)
                    &&& !final(self).chunks_view().contains_key(hash)
                    &&& forall|k: u64| #[trigger]
                        final(self).hashes_view().contains_key(k) ==> final(self).hashes_view()[k] != hash
                    &&& forall|k: u64|
                        #[trigger] old(self).hashes_view().contains_key(k) && old(self).hashes_view()[k] != hash
                            ==> final(self).hashes_view().contains_key(k) && final(self).hashes_view()[k]
                            == old(self).hashes_view()[k]
                }
                &&& r.count() == 1 ==> forall|k: u64| #[trigger]
                    final(self).hashes_view().contains_key(k) ==> old(self).hashes_view().contains_key(k)
                        && final(self).hashes_view()[k] == old(self).hashes_view()[k]
                &&& r.count() != 1 ==> {
                    &&& final(self).chunks_view() == old(self).chunks_view().insert(
                        hash,
                        ChunkRef { counter: (r.count() - 1) as u16, data: r.blob() },
                    )
                    &&& final(self).hashes_view() == old(self).hashes_view()
                }
            },
    {
        let (prev, data) = match chunk_get(&self.chunks, hash) {
            Some(e) => e,
            None => {
                return None;
            },
        };
        let _ = chunk_insert(&mut self.chunks, hash, ChunkRef { counter: prev - 1, data });
        if prev == 1 {
            let _ = chunk_remove(&mut self.chunks, hash);
            pos_retain_not(&mut self.pos_to_hash, hash);
            proof {
                assert(chunk_entries(self.chunks) =~= old(self).chunks_view().remove(hash));
            }
        }
        Some(prev)
    }

    /// Removes one from the reference count of the blob at the given position,
    /// returning the *previous* reference count if the blob was found.
    ///
    /// If the reference count has reached zero, the blob is removed.
    pub fn unref_by_pos(&mut self, pos: Vector3) -> (res: Result<Option<u16>, BlobError>)
        requires
            packable(pos) && old(self).hashes_view().contains_key(pack(pos)) && old(self).chunks_view().contains_key(
                old(self).hashes_view()[pack(pos)],
            ) ==> old(self).chunks_view()[old(self).hashes_view()[pack(pos)]].count() != 0,
        ensures
            !packable(pos) ==> res == Err::<Option<u16>, BlobError>(BlobError::InvalidPosition) && *final(self) == *old(self),
            packable(pos) && !old(self).hashes_view().contains_key(pack(pos)) ==> res == Ok::<Option<u16>, BlobError>(None)
                && *final(self) == *old(self),
            packable(pos) && old(self).hashes_view().contains_key(pack(pos)) ==> {
                let h = old(self).hashes_view()[pack(pos)];
                &&& old(self).chunks_view().contains_key(h) ==> res == Ok::<Option<u16>, BlobError>(
                    Some(old(self).chunks_view()[h].count()),
                )
                &&& old(self).chunks_view().contains_key(h) ==> final(self).chunks_view() == chunks_after_unref(
                    old(self).chunks_view(),
                    h,
                )
                &&& old(self).chunks_view().contains_key(h) ==> final(self).hashes_view() == hashes_after_unref(
                    old(self).chunks_view(),
                    old(self).hashes_view(),
                    h,
                )
                &&& !old(self).chunks_view().contains_key(h) ==> res == Ok::<Option<u16>, BlobError>(None)
                    && *final(self) == *old(self)
                &&& old(self).chunks_view().contains_key(h) && old(self).chunks_view()[h].count() == 1 ==> {
                    &&& !final(self).chunks_view().contains_key(h)
                    &&& forall|k: u64| #[trigger]
                        final(self).hashes_view().contains_key(k) ==> final(self).hashes_view()[k] != h
                    &&& forall|k: u64|
                        #[trigger] old(self).hashes_view().contains_key(k) && old(self).hashes_view()[k] != h
                            ==> final(self).hashes_view().contains_key(k) && final(self).hashes_view()[k]
                            == old(self).hashes_view()[k]
                    &&& forall|k: u64| #[trigger]
                        final(self).hashes_view().contains_key(k) ==> old(self).hashes_view().contains_key(k)
                            && final(self).hashes_view()[k] == old(self).hashes_view()[k]
                }
            },
    {
        proof {
            if packable(pos) && self.hashes_view().contains_key(pack(pos)) {
                let h = self.hashes_view()[pack(pos)];
                if self.chunks_view().contains_key(h) && self.chunks_view()[h].count() == 1 {
                    lemma_release_drops_positions(self.chunks_view(), self.hashes_view(), h);
                }
            }
        }
        let hash = match self.get_hash(pos)? {
            Some(h) => h,
            None => {
                return Ok(None);
            },
        };
        Ok(self.unref_by_hash(hash))
    }

    /// Retrieves the hash of a chunk without returning the blob.
    pub fn get_hash(&self, pos: Vector3) -> (res: Result<Option<u64>, BlobError>)
        ensures
            !packable(pos) ==> res == Err::<Option<u64>, BlobError>(BlobError::InvalidPosition),
            packable(pos) && self.hashes_view().contains_key(pack(pos)) ==> res == Ok::<Option<u64>, BlobError>(
                Some(self.hashes_view()[pack(pos)]),
            ),
            packable(pos) && !self.hashes_view().contains_key(pack(pos)) ==> res == Ok::<Option<u64>, BlobError>(None),
    {
        let index = match RegionIndex::try_from_coordinates(pos) {
            Some(i) => i,
            None => {
                return Err(BlobError::InvalidPosition);
            },
        };
        Ok(pos_get(&self.pos_to_hash, index.as_u64()))
    }

    /// Loads a blob using its hash.
    /// The reference counter of the chunk can optionally be incremented
    /// (wrapping around past `u16::MAX`).
    pub fn get_by_hash(&mut self, hash: u64, incr_ref: bool) -> (res: Result<Option<Arc<CacheableSubChunk>>, BlobError>)
        ensures
            !old(self).chunks_view().contains_key(hash) ==> res == Err::<Option<Arc<CacheableSubChunk>>, BlobError>(
                BlobError::MissingChunk,
            ) && *final(self) == *old(self),
            old(self).chunks_view().contains_key(hash) ==> {
                let r = old(self).chunks_view()[hash];
                &&& res == Ok::<Option<Arc<CacheableSubChunk>>, BlobError>(Some(r.blob()))
                &&& final(self).hashes_view() == old(self).hashes_view()
                &&& incr_ref ==> final(self).chunks_view() == old(self).chunks_view().insert(
                    hash,
                    ChunkRef { counter: (if r.count() == u16::MAX { 0 } else { r.count() + 1 }) as u16, data: r.blob() },
                )
                &&& !incr_ref ==> final(self).chunks_view() == old(self).chunks_view()
            },
    {
        let (count, data) = match chunk_get(&self.chunks, hash) {
            Some(e) => e,
            None => {
                return Err(BlobError::MissingChunk);
            },
        };
        if incr_ref {
            let next = if count == u16::MAX { 0 } else { count + 1 };
            let _ = chunk_insert(&mut self.chunks, hash, ChunkRef { counter: next, data: Arc::clone(&data) });
        }
        Ok(Some(data))
    }

    /// Attempts to load a blob by coordinate, increasing its reference count
    /// by one when it exists.
    pub fn get_by_pos(&mut self, pos: Vector3) -> (res: Result<Option<Arc<CacheableSubChunk>>, BlobError>)
        ensures
            !packable(pos) ==> res == Err::<Option<Arc<CacheableSubChunk>>, BlobError>(BlobError::InvalidPosition)
                && *final(self) == *old(self),
            packable(pos) && !old(self).hashes_view().contains_key(pack(pos)) ==> res == Ok::<
                Option<Arc<CacheableSubChunk>>,
                BlobError,
            >(None) && *final(self) == *old(self),
            packable(pos) && old(self).hashes_view().contains_key(pack(pos)) ==> {
                let h = old(self).hashes_view()[pack(pos)];
                &&& !old(self).chunks_view().contains_key(h) ==> res == Err::<Option<Arc<CacheableSubChunk>>, BlobError>(
                    BlobError::MissingChunk,
                )
                &&& !old(self).chunks_view().contains_key(h) ==> *final(self) == *old(self)
                &&& old(self).chunks_view().contains_key(h) ==> res == Ok::<Option<Arc<CacheableSubChunk>>, BlobError>(
                    Some(old(self).chunks_view()[h].blob()),
                )
                &&& old(self).chunks_view().contains_key(h) ==> final(self).chunks_view() == chunks_after_ref(
                    old(self).chunks_view(),
                    h,
                )
                &&& final(self).hashes_view() == old(self).hashes_view()
            },
    {
        let hash = match self.get_hash(pos)? {
            Some(h) => h,
            None => {
                return Ok(None);
            },
        };
        self.get_by_hash(hash, true)
    }
}

/// Law: giving back the last reference to a cached blob drops the blob, and
/// afterwards no position refers to its hash, while every position that
/// referred to another blob keeps referring to it and no other position is
/// added.
pub proof fn lemma_release_drops_positions(chunks: Map<u64, ChunkRef>, hashes: Map<u64, u64>, hash: u64)
    requires
        chunks.contains_key(hash),
        chunks[hash].count() == 1,
    ensures
        !chunks_after_unref(chunks, hash).contains_key(hash),
        forall|k: u64| #[trigger]
            hashes_after_unref(chunks, hashes, hash).contains_key(k) ==> hashes_after_unref(chunks, hashes, hash)[k]
                != hash,
        forall|k: u64|
            #[trigger] hashes.contains_key(k) && hashes[k] != hash ==> hashes_after_unref(chunks, hashes, hash).contains_key(k)
                && hashes_after_unref(chunks, hashes, hash)[k] == hashes[k],
        forall|k: u64| #[trigger]
            hashes_after_unref(chunks, hashes, hash).contains_key(k) ==> hashes.contains_key(k)
                && hashes_after_unref(chunks, hashes, hash)[k] == hashes[k],
{
    let out = hashes_after_unref(chunks, hashes, hash);
    assert forall|k: u64| #[trigger] out.contains_key(k) implies out[k] != hash by {
        assert(hashes.dom().filter(|k: u64| keeps(hashes[k], hash)).contains(k));
    }
    assert forall|k: u64| #[trigger] hashes.contains_key(k) && hashes[k] != hash implies out.contains_key(k) && out[k]
        == hashes[k] by {
        assert(hashes.dom().filter(|k: u64| keeps(hashes[k], hash)).contains(k));
    }
}

/// Law: caching a blob at a position stores it under its hash with the
/// given entry, drops the position's previous blob when that had another
/// hash, and leaves every other cached blob as it was.
pub proof fn lemma_cache_replaces_previous(chunks: Map<u64, ChunkRef>, hashes: Map<u64, u64>, key: u64, hash: u64, r: ChunkRef)
    ensures
        cached_chunks(chunks, hashes, key, hash, r).contains_key(hash),
        cached_chunks(chunks, hashes, key, hash, r)[hash] == r,
        hashes.contains_key(key) && hashes[key] != hash ==> !cached_chunks(chunks, hashes, key, hash, r).contains_key(
            hashes[key],
        ),
        forall|k: u64|
            k != hash && !(hashes.contains_key(key) && k == hashes[key]) ==> (#[trigger] cached_chunks(
                chunks,
                hashes,
                key,
                hash,
                r,
            ).contains_key(k) == chunks.contains_key(k) && (chunks.contains_key(k) ==> cached_chunks(
                chunks,
                hashes,
                key,
                hash,
                r,
            )[k] == chunks[k])),
{
}

/// Law: after a blob is cached at a position, the position refers to the
/// blob's hash and the cache holds the blob under it, also when the
/// position held a blob with the same hash before.
pub proof fn lemma_cache_then_lookup(chunks: Map<u64, ChunkRef>, hashes: Map<u64, u64>, key: u64, hash: u64, r: ChunkRef)
    ensures
        hashes.insert(key, hash)[key] == hash,
        cached_chunks(chunks, hashes, key, hash, r).contains_key(hash),
        cached_chunks(chunks, hashes, key, hash, r)[hash] == r,
{
}

/// Law: once a blob is dropped, no position refers to it any more, and the
/// positions that referred to other blobs are kept.
pub proof fn lemma_dropped_blob_unreachable(hashes: Map<u64, u64>, hash: u64, k: u64)
    ensures
        without_hash(hashes, hash).contains_key(k) ==> without_hash(hashes, hash)[k] != hash,
        hashes.contains_key(k) && hashes[k] != hash ==> without_hash(hashes, hash).contains_key(k)
            && without_hash(hashes, hash)[k] == hashes[k],
{
}

/// Law: taking a reference to a blob (incrementing its count) and giving it
/// back (decrementing) leaves the cache as it was, when the count is neither
/// zero nor at its maximum.
pub proof fn lemma_ref_unref_restores(chunks: Map<u64, ChunkRef>, hash: u64)
    requires
        chunks.contains_key(hash),
        0 < chunks[hash].count() < u16::MAX,
    ensures
        ({
            let r = chunks[hash];
            let after_ref = chunks.insert(hash, ChunkRef { counter: (r.count() + 1) as u16, data: r.blob() });
            let r2 = after_ref[hash];
            &&& r2.count() != 1
            &&& after_ref.insert(hash, ChunkRef { counter: (r2.count() - 1) as u16, data: r2.blob() }) == chunks
        }),
{
    let r = chunks[hash];
    let after_ref = chunks.insert(hash, ChunkRef { counter: (r.count() + 1) as u16, data: r.blob() });
    let r2 = after_ref[hash];
    assert(after_ref.insert(hash, ChunkRef { counter: (r2.count() - 1) as u16, data: r2.blob() }) =~= chunks);
}

} // verus!

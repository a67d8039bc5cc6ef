//! The blob cache of the network layer: raw serialized blobs shared by a
//! hash that the caller computes, with reference counts.
use vstd::prelude::*;
use std::sync::Arc;
use dashmap::DashMap;
use nohash_hasher::BuildNoHashHasher;
use crate::coords::Vector3;
use crate::region_index::{RegionIndex, pack, packable};
use crate::blobs::{BlobError, HashMapByPos, pos_entries, new_pos_map, pos_insert, pos_get, pos_remove};

verus! {

/// A cached blob with its reference count.
#[derive(Debug)]
pub struct BlobRef {
    /// Number of references to the blob.
    pub counter: u16,
    /// The cached blob.
    pub blob: Arc<Vec<u8>>,
}

/// The map from blob hashes to cached blobs.
pub type BlobMap = DashMap<u64, BlobRef, BuildNoHashHasher<u64>>;

/// The entries of a blob map.
pub uninterp spec fn blob_entries(m: BlobMap) -> Map<u64, BlobRef>;

/// The blob map with no entries.
pub open spec fn no_blobs() -> Map<u64, BlobRef> {
    Map::empty()
}

/// Creates an empty blob map with `DashMap::with_hasher` and the no-op hasher.
///
/// Trusted: the new map has no entries.
#[verifier::external_body]
fn new_blob_map() -> (fresh: BlobMap)
    ensures
        blob_entries(fresh) == no_blobs(),
{
    DashMap::with_hasher(BuildNoHashHasher::default())
}

/// `DashMap::insert` on the blob map.
///
/// Trusted: the key now maps to the value and other entries are unchanged.
#[verifier::external_body]
fn blob_insert(m: &mut BlobMap, key: u64, value: BlobRef)
    ensures
        blob_entries(*final(m)) == blob_entries(*old(m)).insert(key, value),
{
    m.insert(key, value);
}

/// `DashMap::remove` on the blob map, keeping the removed value.
///
/// Trusted: the key is no longer present, other entries are unchanged, and
/// the value that was stored under the key (if any) is returned.
#[verifier::external_body]
fn blob_remove(m: &mut BlobMap, key: u64) -> (removed: Option<BlobRef>)
    ensures
        blob_entries(*final(m)) == blob_entries(*old(m)).remove(key),
        removed == (if blob_entries(*old(m)).contains_key(key) {
            Some(blob_entries(*old(m))[key])
        } else {
            None
        }),
{
    m.remove(&key).map(|(_, v)| v)
}

/// `DashMap::get` on the blob map, copying out the count and sharing the blob.
///
/// Trusted: for a present key, the stored count and (a clone of the `Arc`
/// to) the stored blob; `None` for an absent key.
#[verifier::external_body]
fn blob_get(m: &BlobMap, key: u64) -> (entry: Option<(u16, Arc<Vec<u8>>)>)
    ensures
        blob_entries(*m).contains_key(key) ==> entry == Some(
            (blob_entries(*m)[key].counter, blob_entries(*m)[key].blob),
        ),
        !blob_entries(*m).contains_key(key) ==> entry is None,
{
    m.get(&key).map(|r| (r.counter, Arc::clone(&r.blob)))
}

/// The blobs after a reference to the stored blob `hash` is taken: its count
/// goes up by one (wrapping around past `u16::MAX`).
pub open spec fn blobs_after_ref(blobs: Map<u64, BlobRef>, hash: u64) -> Map<u64, BlobRef> {
    let r = blobs[hash];
    blobs.insert(
        hash,
        BlobRef { counter: (if r.counter == u16::MAX { 0 } else { r.counter + 1 }) as u16, blob: r.blob },
    )
}

/// The blobs after a reference to the stored blob `hash` is given back: the
/// blob is dropped when it held the last reference, otherwise its count goes
/// down by one.
pub open spec fn blobs_after_unref(blobs: Map<u64, BlobRef>, hash: u64) -> Map<u64, BlobRef> {
    let r = blobs[hash];
    if r.counter == 1 {
        blobs.remove(hash)
    } else {
        blobs.insert(hash, BlobRef { counter: (r.counter - 1) as u16, blob: r.blob })
    }
}

/// The blobs after caching `entry` under `hash` at packed position `key`:
/// the position's previous blob is dropped when it had another hash, and
/// `entry` is stored under `hash`.
pub open spec fn blobs_after_cache(blobs: Map<u64, BlobRef>, positions: Map<u64, u64>, key: u64, hash: u64, entry: BlobRef) -> Map<u64, BlobRef> {
    if positions.contains_key(key) && positions[key] != hash {
        blobs.remove(positions[key]).insert(hash, entry)
    } else {
        blobs.insert(hash, entry)
    }
}

/// The blob that caching at packed position `key` replaces, if the position
/// had one and it is still cached.
pub open spec fn replaced(blobs: Map<u64, BlobRef>, positions: Map<u64, u64>, key: u64) -> Option<Arc<Vec<u8>>> {
    if positions.contains_key(key) && blobs.contains_key(positions[key]) {
        Some(blobs[positions[key]].blob)
    } else {
        None
    }
}

/// The positions after the last reference to blob `hash` is given back: the
/// position recorded for the hash (if any) no longer refers to a blob.
pub open spec fn positions_after_drop(positions: Map<u64, u64>, hash_positions: Map<u64, u64>, hash: u64) -> Map<u64, u64> {
    if hash_positions.contains_key(hash) {
        positions.remove(hash_positions[hash])
    } else {
        positions
    }
}

/// The blob cache of the network layer.
pub struct BlobCache {
    /// Blob data stored by hash.
    /// As clients will request by hash rather than coordinates,
    /// this means there will only be one lookup.
    blobs: BlobMap,
    /// Maps coordinates to blob hashes.
    pos_to_hash: HashMapByPos,
    /// Maps blob hashes to coordinates.
    hash_to_pos: HashMapByPos,
}

impl BlobCache {
    /// The cached blobs by hash.
    pub closed spec fn blobs_view(&self) -> Map<u64, BlobRef> {
        blob_entries(self.blobs)
    }

    /// The blob hash of each packed position.
    pub closed spec fn positions_view(&self) -> Map<u64, u64> {
        pos_entries(self.pos_to_hash)
    }

    /// The packed position of each blob hash.
    pub closed spec fn hash_positions_view(&self) -> Map<u64, u64> {
        pos_entries(self.hash_to_pos)
    }

    /// Creates an empty cache.
    pub fn new() -> (c: BlobCache)
        ensures
            c.blobs_view() == no_blobs(),
            c.positions_view() == Map::<u64, u64>::empty(),
            c.hash_positions_view() == Map::<u64, u64>::empty(),
    {
        BlobCache { blobs: new_blob_map(), pos_to_hash: new_pos_map(), hash_to_pos: new_pos_map() }
    }

    /// Inserts a blob into the cache under the given hash, with a count of
    /// one, and records its position. If a blob already existed for this
    /// chunk, it will be removed and returned (a blob with the same hash is
    /// replaced by the new one).
    ///
    /// Fails when the position cannot be packed, and (leaving the cache
    /// unchanged) when the position's previous blob is no longer cached.
    pub fn cache(&mut self, position: Vector3, blob: Vec<u8>, hash: u64) -> (res: Result<Option<Arc<Vec<u8>>>, BlobError>)
        ensures
            !packable(position) ==> res == Err::<Option<Arc<Vec<u8>>>, BlobError>(BlobError::InvalidPosition)
                && *final(self) == *old(self),
            packable(position) ==> {
                let key = pack(position);
                let entry = BlobRef { counter: 1, blob: Arc::new(blob) };
                if old(self).positions_view().contains_key(key) && old(self).positions_view()[key] != hash
                    && !old(self).blobs_view().contains_key(old(self).positions_view()[key]) {
                    &&& res == Err::<Option<Arc<Vec<u8>>>, BlobError>(BlobError::MissingPrevious)
                    &&& *final(self) == *old(self)
                } else {
                    &&& final(self).positions_view() == old(self).positions_view().insert(key, hash)
                    &&& final(self).hash_positions_view() == old(self).hash_positions_view().insert(hash, key)
                    &&& final(self).blobs_view() == blobs_after_cache(
                        old(self).blobs_view(),
                        old(self).positions_view(),
                        key,
                        hash,
                        entry,
                    )
                    &&& res == Ok::<Option<Arc<Vec<u8>>>, BlobError>(
                        replaced(old(self).blobs_view(), old(self).positions_view(), key),
                    )
                }
            },
    {
        let index = match RegionIndex::try_from_coordinates(position) {
            Some(i) => i,
            None => {
                return Err(BlobError::InvalidPosition);
            },
        };
        let key = index.as_u64();
        match pos_get(&self.pos_to_hash, key) {
            Some(prev_hash) => {
                if prev_hash != hash && blob_get(&self.blobs, prev_hash).is_none() {
                    return Err(BlobError::MissingPrevious);
                }
            },
            None => {},
        }
        let prev = match pos_insert(&mut self.pos_to_hash, key, hash) {
            Some(prev_hash) => {
                if prev_hash != hash {
                    match blob_remove(&mut self.blobs, prev_hash) {
                        Some(r) => Some(r.blob),
                        None => None,
                    }
                } else {
                    match blob_get(&self.blobs, prev_hash) {
                        Some((_, b)) => Some(b),
                        None => None,
                    }
                }
            },
            None => None,
        };
        let _ = pos_insert(&mut self.hash_to_pos, hash, key);
        blob_insert(&mut self.blobs, hash, BlobRef { counter: 1, blob: Arc::new(blob) });
        Ok(prev)
    }

    /// Removes one from the reference counter of the given blob, returning the
    /// *previous* reference count if the blob was found.
    ///
    /// If the reference count has reached zero, the blob is removed, together
    /// with its position.
    pub fn unref_by_hash(&mut self, hash: u64) -> (count: Option<u16>)
        requires
            old(self).blobs_view().contains_key(hash) ==> old(self).blobs_view()[hash].counter != 0,
        ensures
            !old(self).blobs_view().contains_key(hash) ==> count is None && *final(self) == *old(self),
            old(self).blobs_view().contains_key(hash) ==> {
                let r = old(self).blobs_view()[hash];
                &&& count == Some(r.counter)
                &&& final(self).blobs_view() == blobs_after_unref(old(self).blobs_view(), hash)
                &&& r.counter == 1 ==> {
                    &&& final(self).hash_positions_view() == old(self).hash_positions_view().remove(hash)
                    &&& final(self).positions_view() == positions_after_drop(
                        old(self).positions_view(),
                        old(self).hash_positions_view(),
                        hash,
                    )
                }
                &&& r.counter != 1 ==> {
                    &&& final(self).hash_positions_view() == old(self).hash_positions_view()
                    &&& final(self).positions_view() == old(self).positions_view()
                }
            },
    {
        let (prev, blob) = match blob_get(&self.blobs, hash) {
            Some(e) => e,
            None => {
                return None;
            },
        };
        blob_insert(&mut self.blobs, hash, BlobRef { counter: prev - 1, blob });
        if prev == 1 {
            let _ = blob_remove(&mut self.blobs, hash);
            proof {
                assert(blob_entries(self.blobs) =~= old(self).blobs_view().remove(hash));
            }
            match pos_remove(&mut self.hash_to_pos, hash) {
                Some(pos) => {
                    let _ = pos_remove(&mut self.pos_to_hash, pos);
                },
                None => {},
            }
        }
        Some(prev)
    }

    /// Removes one from the reference count of the blob at the given
    /// position, returning the *previous* reference count if the blob was
    /// found.
    ///
    /// If the reference count has reached zero, the blob is removed.
    pub fn unref_by_pos(&mut self, pos: Vector3) -> (res: Result<Option<u16>, BlobError>)
        requires
            packable(pos) && old(self).positions_view().contains_key(pack(pos)) && old(self).blobs_view().contains_key(
                old(self).positions_view()[pack(pos)],
            ) ==> old(self).blobs_view()[old(self).positions_view()[pack(pos)]].counter != 0,
        ensures
            !packable(pos) ==> res == Err::<Option<u16>, BlobError>(BlobError::InvalidPosition) && *final(self) == *old(self),
            packable(pos) && !old(self).positions_view().contains_key(pack(pos)) ==> res == Ok::<Option<u16>, BlobError>(
                None,
            ) && *final(self) == *old(self),
            packable(pos) && old(self).positions_view().contains_key(pack(pos)) ==> {
                let h = old(self).positions_view()[pack(pos)];
                &&& !old(self).blobs_view().contains_key(h) ==> res == Ok::<Option<u16>, BlobError>(None)
                    && *final(self) == *old(self)
                &&& old(self).blobs_view().contains_key(h) ==> {
                    let r = old(self).blobs_view()[h];
                    &&& res == Ok::<Option<u16>, BlobError>(Some(r.counter))
                    &&& final(self).blobs_view() == blobs_after_unref(old(self).blobs_view(), h)
                    &&& r.counter == 1 ==> {
                        &&& final(self).hash_positions_view() == old(self).hash_positions_view().remove(h)
                        &&& final(self).positions_view() == positions_after_drop(
                            old(self).positions_view(),
                            old(self).hash_positions_view(),
                            h,
                        )
                    }
                    &&& r.counter != 1 ==> {
                        &&& final(self).hash_positions_view() == old(self).hash_positions_view()
                        &&& final(self).positions_view() == old(self).positions_view()
                    }
                }
            },
    {
        let hash = match self.get_hash(pos)? {
            Some(h) => h,
            None => {
                return Ok(None);
            },
        };
        Ok(self.unref_by_hash(hash))
    }

    /// Attempts to load a blob by coordinate, increasing its reference count
    /// by one when it exists.
    pub fn get_by_pos(&mut self, pos: Vector3) -> (res: Result<Option<Arc<Vec<u8>>>, BlobError>)
        ensures
            !packable(pos) ==> res == Err::<Option<Arc<Vec<u8>>>, BlobError>(BlobError::InvalidPosition)
                && *final(self) == *old(self),
            packable(pos) && !old(self).positions_view().contains_key(pack(pos)) ==> res == Ok::<
                Option<Arc<Vec<u8>>>,
                BlobError,
            >(None) && *final(self) == *old(self),
            packable(pos) && old(self).positions_view().contains_key(pack(pos)) ==> {
                let h = old(self).positions_view()[pack(pos)];
                &&& !old(self).blobs_view().contains_key(h) ==> res == Err::<Option<Arc<Vec<u8>>>, BlobError>(
                    BlobError::MissingChunk,
                ) && *final(self) == *old(self)
                &&& old(self).blobs_view().contains_key(h) ==> {
                    &&& res == Ok::<Option<Arc<Vec<u8>>>, BlobError>(Some(old(self).blobs_view()[h].blob))
                    &&& final(self).blobs_view() == blobs_after_ref(old(self).blobs_view(), h)
                    &&& final(self).positions_view() == old(self).positions_view()
                    &&& final(self).hash_positions_view() == old(self).hash_positions_view()
                }
            },
    {
        let hash = match self.get_hash(pos)? {
            Some(h) => h,
            None => {
                return Ok(None);
            },
        };
        self.get_by_hash(hash)
    }

    /// Retrieves the hash of a chunk without returning the blob.
    pub fn get_hash(&self, pos: Vector3) -> (res: Result<Option<u64>, BlobError>)
        ensures
            !packable(pos) ==> res == Err::<Option<u64>, BlobError>(BlobError::InvalidPosition),
            packable(pos) && self.positions_view().contains_key(pack(pos)) ==> res == Ok::<Option<u64>, BlobError>(
                Some(self.positions_view()[pack(pos)]),
            ),
            packable(pos) && !self.positions_view().contains_key(pack(pos)) ==> res == Ok::<Option<u64>, BlobError>(None),
    {
        let index = match RegionIndex::try_from_coordinates(pos) {
            Some(i) => i,
            None => {
                return Err(BlobError::InvalidPosition);
            },
        };
        Ok(pos_get(&self.pos_to_hash, index.as_u64()))
    }

    /// Loads a blob using its hash, increasing its reference count by one
    /// (wrapping around past `u16::MAX`).
    pub fn get_by_hash(&mut self, hash: u64) -> (res: Result<Option<Arc<Vec<u8>>>, BlobError>)
        ensures
            !old(self).blobs_view().contains_key(hash) ==> res == Err::<Option<Arc<Vec<u8>>>, BlobError>(
                BlobError::MissingChunk,
            ) && *final(self) == *old(self),
            old(self).blobs_view().contains_key(hash) ==> {
                &&& res == Ok::<Option<Arc<Vec<u8>>>, BlobError>(Some(old(self).blobs_view()[hash].blob))
                &&& final(self).blobs_view() == blobs_after_ref(old(self).blobs_view(), hash)
                &&& final(self).positions_view() == old(self).positions_view()
                &&& final(self).hash_positions_view() == old(self).hash_positions_view()
            },
    {
        let (count, blob) = match blob_get(&self.blobs, hash) {
            Some(e) => e,
            None => {
                return Err(BlobError::MissingChunk);
            },
        };
        let next = if count == u16::MAX { 0 } else { count + 1 };
        blob_insert(&mut self.blobs, hash, BlobRef { counter: next, blob: Arc::clone(&blob) });
        Ok(Some(blob))
    }
}

} // verus!

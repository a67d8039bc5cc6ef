use mirai::blobs::BlobError;
use mirai::coords::Vector3;
use mirai::net_blobs::BlobCache;

#[test]
fn net_blob_cache_counts_references() {
    let mut cache = BlobCache::new();
    let pos = Vector3::new(1, 2, 3);
    assert_eq!(cache.cache(pos, vec![1, 2, 3], 42).unwrap(), None);
    assert_eq!(cache.get_hash(pos).unwrap(), Some(42));
    assert_eq!(*cache.get_by_hash(42).unwrap().unwrap(), vec![1, 2, 3]);
    assert_eq!(*cache.get_by_pos(pos).unwrap().unwrap(), vec![1, 2, 3]);
    assert_eq!(cache.unref_by_hash(42), Some(3));
    assert_eq!(cache.unref_by_pos(pos).unwrap(), Some(2));
    assert_eq!(cache.get_by_hash(7), Err(BlobError::MissingChunk));
    assert_eq!(cache.unref_by_hash(7), None);
}

#[test]
fn net_blob_cache_replaces_blobs() {
    let mut cache = BlobCache::new();
    let pos = Vector3::new(0, 0, 0);
    cache.cache(pos, vec![1], 1).unwrap();
    assert_eq!(*cache.cache(pos, vec![2], 2).unwrap().unwrap(), vec![1]);
    assert_eq!(cache.get_hash(pos).unwrap(), Some(2));
    assert_eq!(cache.get_by_hash(1), Err(BlobError::MissingChunk));
    assert_eq!(cache.cache(Vector3::new(-1, 0, 0), vec![3], 3), Err(BlobError::InvalidPosition));
    assert_eq!(cache.get_by_pos(Vector3::new(5, 5, 5)).unwrap(), None);
}

#[test]
fn net_blob_cache_frees_last_reference() {
    let mut cache = BlobCache::new();
    let pos = Vector3::new(0, 0, 0);
    assert_eq!(cache.cache(pos, vec![1], 7).unwrap(), None);
    assert_eq!(cache.unref_by_hash(7), Some(1));
    assert_eq!(cache.get_hash(pos).unwrap(), None);
    assert_eq!(cache.get_by_hash(7), Err(BlobError::MissingChunk));
    assert_eq!(cache.cache(pos, vec![2], 8).unwrap(), None);
    assert_eq!(*cache.cache(pos, vec![2], 8).unwrap().unwrap(), vec![2]);
    assert_eq!(*cache.get_by_hash(8).unwrap().unwrap(), vec![2]);
    assert_eq!(cache.unref_by_pos(pos).unwrap(), Some(2));
    assert_eq!(cache.unref_by_pos(pos).unwrap(), Some(1));
    assert_eq!(cache.get_hash(pos).unwrap(), None);
}

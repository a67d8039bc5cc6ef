use mirai::point::PointRegion;
use mirai::coords::Dimension;
use mirai::coords::{LocalPos, Vector3};
use mirai::region::{BoxRegion, RegionProducer, RegionQuery};
use mirai::region_index::RegionIndex;
use mirai::subchunk::{
    from_offset, read_header, to_offset, write_header, LayerIter, PaletteEntry, SubChunk,
    SubChunkError, SubChunkHeader, SubChunkVersion, SubLayer,
};
use std::sync::Arc;

#[test]
fn region_index_packs_and_unpacks() {
    let v = Vector3::new(12, 5, 77);
    let idx = RegionIndex::from_coordinates(v);
    assert_eq!(idx.as_u64(), (5u64 << 58) | (12u64 << 29) | 77);
    assert_eq!(idx.to_coordinates(), v);
    assert!(RegionIndex::try_from_coordinates(Vector3::new(0, 63, 0)).is_none());
    assert!(RegionIndex::try_from_coordinates(Vector3::new(-1, 0, 0)).is_none());
    assert!(RegionIndex::try_from_coordinates(Vector3::new(0x1fff_ffff, 0, 0)).is_none());
    let max = Vector3::new(0x1fff_fffe, 62, 0x1fff_fffe);
    assert_eq!(RegionIndex::try_from_coordinates(max).unwrap().to_coordinates(), max);
}

#[test]
fn offsets_roundtrip() {
    assert_eq!(to_offset(LocalPos::new(1, 2, 3)), 256 + 48 + 2);
    assert_eq!(from_offset(306), LocalPos::new(1, 2, 3));
    for o in [0usize, 1, 15, 16, 255, 256, 4095] {
        assert_eq!(to_offset(from_offset(o)), o);
    }
    assert_eq!(from_offset(4095), LocalPos::new(15, 15, 15));
}

#[test]
fn subchunk_header_codec() {
    assert_eq!(SubChunkVersion::try_from_byte(9), Ok(SubChunkVersion::Limitless));
    assert_eq!(SubChunkVersion::try_from_byte(3), Err(SubChunkError::InvalidVersion(3)));
    let h = SubChunkHeader { version: SubChunkVersion::Limitless, layer_count: 2, index: -4 };
    let mut out = Vec::new();
    write_header(&mut out, &h);
    assert_eq!(out, vec![9, 2, 0xfc]);
    out.push(0x55);
    assert_eq!(read_header(&out), Ok((h, 3)));
    assert_eq!(read_header(&[1]), Ok((SubChunkHeader { version: SubChunkVersion::Legacy, layer_count: 1, index: 0 }, 1)));
    assert_eq!(read_header(&[8, 3]), Err(SubChunkError::InvalidLayerCount(3)));
    assert_eq!(read_header(&[8, 0]), Err(SubChunkError::InvalidLayerCount(0)));
    assert_eq!(read_header(&[9, 1]), Err(SubChunkError::UnexpectedEof));
    assert_eq!(read_header(&[]), Err(SubChunkError::UnexpectedEof));
    let legacy = SubChunkHeader { version: SubChunkVersion::Legacy, layer_count: 1, index: 0 };
    let mut out = Vec::new();
    write_header(&mut out, &legacy);
    assert_eq!(out, vec![1]);
    out.push(7);
    assert_eq!(read_header(&out), Ok((legacy, 1)));
}

fn entry(name: &str) -> PaletteEntry {
    PaletteEntry { name: name.to_owned(), version: None, states: Vec::new() }
}

#[test]
fn layer_lookup_and_iteration() {
    let mut indices = Box::new([0u16; 4096]);
    indices[to_offset(LocalPos::new(2, 3, 4))] = 1;
    let layer = SubLayer::from_parts(indices, vec![entry("minecraft:air"), entry("minecraft:stone")]);
    assert_eq!(layer.get(LocalPos::new(2, 3, 4)).unwrap().name, "minecraft:stone");
    assert_eq!(layer.get(LocalPos::new(0, 0, 0)).unwrap().name, "minecraft:air");
    assert!(layer.get(LocalPos::new(17, 0, 0)).is_none());
    assert!(layer.get(LocalPos::new(16, 0, 0)).is_none());
    assert!(layer.get(LocalPos::new(0, 16, 0)).is_none());
    assert!(layer.get(LocalPos::new(0, 0, 16)).is_none());
    assert!(SubLayer::default().get(LocalPos::new(16, 0, 0)).is_none());
    let mut it: LayerIter = layer.iter();
    assert_eq!(it.len(), 4096);
    assert_eq!(it.next().unwrap().name, "minecraft:air");
    assert_eq!(it.len(), 4095);
    let default = SubLayer::default();
    assert!(default.palette().is_empty());
    assert_eq!(default.indices()[4095], 0);
    let sub = SubChunk::from_parts(SubChunkVersion::Limited, 0, vec![layer]);
    assert!(sub.layer(0).is_some());
    assert!(sub.layer(1).is_none());
    let mut bytes = Vec::new();
    sub.serialize_header_in(&mut bytes);
    assert_eq!(bytes, vec![8, 1]);
}

#[test]
fn box_region_geometry() {
    let r = BoxRegion::from_bounds(Vector3::new(2, 0, 5), Vector3::new(0, 3, 5));
    assert_eq!(r, BoxRegion::from_bounds(Vector3::new(0, 3, 5), Vector3::new(2, 0, 5)));
    assert_eq!(r.len(), 3 * 4 * 1);
    assert_eq!(r.as_index(&Vector3::new(1, 2, 5)), Some(1 + 3 * 2));
    assert_eq!(r.as_index(&Vector3::new(3, 2, 5)), None);
    assert_eq!(r.as_coord(0), Some(Vector3::new(0, 0, 5)));
    assert_eq!(r.as_coord(4), Some(Vector3::new(1, 1, 5)));
    assert_eq!(r.as_coord(11), Some(Vector3::new(2, 3, 5)));
    assert_eq!(r.as_coord(12), None);
    for i in 0..r.len() {
        let c = r.as_coord(i).unwrap();
        assert_eq!(r.as_index(&c), Some(i));
        assert_eq!(r.as_coord_unchecked(i), c);
        assert_eq!(r.as_index_unchecked(&c), i);
    }
}

#[test]
fn one_chunk_boxes() {
    let r = BoxRegion::from_bounds(Vector3::new(1, 0, 0), Vector3::new(1, 0, 0));
    assert_eq!(r.len(), 1);
    assert_eq!(r.as_coord(0), Some(Vector3::new(1, 0, 0)));
    assert_eq!(r.as_coord(1), None);
    let s = BoxRegion::from_bounds(Vector3::new(5, 5, 5), Vector3::new(5, 5, 5));
    assert_eq!(s.as_index(&Vector3::new(5, 5, 5)), Some(0));
    assert_eq!(s.as_index(&Vector3::new(6, 5, 5)), None);
    let n = BoxRegion::from_bounds(Vector3::new(-3, -2, -1), Vector3::new(-4, -2, -1));
    assert_eq!(n.as_coord(1), Some(Vector3::new(-3, -2, -1)));
    assert_eq!(n.as_index(&Vector3::new(-4, -2, -1)), Some(0));
}

#[test]
fn region_query_iteration() {
    let q = RegionQuery::from_bounds(Vector3::new(0, 0, 0), Vector3::new(1, 1, 0));
    assert_eq!(q.len(), 4);
    assert_eq!(q.get(3), Some(Vector3::new(1, 1, 0)));
    assert_eq!(q.get(4), None);
    let mut it = q.iter(Arc::new(()));
    assert_eq!(it.len(), 4);
    assert_eq!(it.next(), Some(Vector3::new(0, 0, 0)));
    assert_eq!(it.next(), Some(Vector3::new(1, 0, 0)));
    assert_eq!(it.next_back(), Some(Vector3::new(1, 1, 0)));
    assert_eq!(it.len(), 1);
    assert_eq!(it.next(), Some(Vector3::new(0, 1, 0)));
    assert_eq!(it.next(), None);
    assert_eq!(it.next_back(), None);
    let producer = RegionProducer::from_iter(q.iter(Arc::new(())));
    let (left, right) = producer.split_at(1);
    assert_eq!(left.0.len(), 1);
    assert_eq!(right.0.len(), 3);
    let mut r = right.into_iter();
    assert_eq!(r.nth(1), Some(Vector3::new(0, 1, 0)));
}

#[test]
fn region_query_back_iteration() {
    let q = RegionQuery::from_bounds(Vector3::new(3, 7, -2), Vector3::new(4, 8, -2));
    let mut forward = Vec::new();
    let mut it = q.iter(Arc::new(()));
    while let Some(c) = it.next() {
        forward.push(c);
    }
    let mut backward = Vec::new();
    let mut it = q.iter(Arc::new(()));
    while let Some(c) = it.next_back() {
        backward.push(c);
    }
    backward.reverse();
    assert_eq!(forward, backward);
    assert_eq!(
        forward,
        vec![
            Vector3::new(3, 7, -2),
            Vector3::new(4, 7, -2),
            Vector3::new(3, 8, -2),
            Vector3::new(4, 8, -2)
        ]
    );
    let mut it = q.iter(Arc::new(()));
    assert_eq!(it.nth_back(1), Some(Vector3::new(3, 8, -2)));
    assert_eq!(it.next_back(), Some(Vector3::new(4, 7, -2)));
    assert_eq!(it.nth_back(5), None);
    assert_eq!(it.len(), 0);
    assert_eq!(it.next(), None);
}

// Opening the level database and reading its settings is not part of this
// crate; this checks the level configuration that carries the level's path.
#[test]
fn level_settings() {
    let level = mirai::config::LevelConfig { path: String::from("../../resources/level") };
    assert_eq!(level.path, "../../resources/level");
}

#[test]
fn point_region_lookups() {
    let a = Vector3::new(0, 1, 2);
    let b = Vector3::new(-5, 3, 9);
    let region = PointRegion::from_points(vec![a, b, a], Dimension::Nether);
    assert_eq!(region.len(), 3);
    assert_eq!(region.dimension(), Dimension::Nether);
    assert_eq!(region.as_coord(1), Some(b));
    assert_eq!(region.as_coord(3), None);
    assert_eq!(region.as_index(&a), Some(0));
    assert_eq!(region.as_index(&b), Some(1));
    assert_eq!(region.as_index(&Vector3::new(1, 1, 1)), None);
    for i in 0..2 {
        assert_eq!(region.as_index(&region.as_coord(i).unwrap()), Some(i));
    }
}

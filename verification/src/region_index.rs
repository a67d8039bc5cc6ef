//! Packing of subchunk coordinates into a single 64-bit identifier.
use vstd::prelude::*;
use crate::coords::Vector3;

verus! {

/// Mask of the 29 bits used for each horizontal coordinate.
pub const XZ_MASK: u64 = 0x1fff_ffff;

/// Whether a subchunk coordinate can be packed: the vertical index fits in
/// `0..63` and both horizontal coordinates in `0..XZ_MASK`.
pub open spec fn packable(v: Vector3) -> bool {
    &&& 0 <= v.y < 63
    &&& 0 <= v.x < XZ_MASK
    &&& 0 <= v.z < XZ_MASK
}

/// The packed form of a coordinate: the vertical index in the top six bits,
/// then 29 bits of x, then 29 bits of z.
pub open spec fn pack(v: Vector3) -> u64 {
    ((v.y as u64) << 58u64) | (((v.x as u64) & XZ_MASK) << 29u64) | ((v.z as u64) & XZ_MASK)
}

/// The coordinate read back from a packed identifier.
pub open spec fn unpack(index: u64) -> Vector3 {
    Vector3 {
        x: ((index >> 29u64) & XZ_MASK) as i32,
        y: (index >> 58u64) as i32,
        z: (index & XZ_MASK) as i32,
    }
}

/// A unique identifier for a specific subchunk.
///
/// First 6 bits are the vertical index,
/// then 29 bits for the x-coordinate
/// and 29 bits for the z-coordinate.
#[derive(Debug, Copy, Clone, PartialEq, Eq, Hash)]
pub struct RegionIndex(u64);

impl View for RegionIndex {
    type V = u64;

    closed spec fn view(&self) -> u64 {
        self.0
    }
}

impl RegionIndex {
    /// Packs a subchunk coordinate.
    ///
    /// The coordinate must be packable: vertical index below 63 and both
    /// horizontal coordinates below `XZ_MASK`, none of them negative.
    pub fn from_coordinates(value: Vector3) -> (index: RegionIndex)
        requires
            packable(value),
        ensures
            index@ == pack(value),
    {
        let mut index: u64 = (value.y as u64) << 58u64;
        index = index | (((value.x as u64) & XZ_MASK) << 29u64);
        index = index | ((value.z as u64) & XZ_MASK);
        RegionIndex(index)
    }

    /// Packs a subchunk coordinate, or gives `None` when it is not packable.
    pub fn try_from_coordinates(value: Vector3) -> (index: Option<RegionIndex>)
        ensures
            index is Some <==> packable(value),
            index matches Some(i) ==> i@ == pack(value),
    {
        if value.y < 0 || value.y >= 63 || value.x < 0 || value.z < 0 {
            return None;
        }
        if value.x as u64 >= XZ_MASK || value.z as u64 >= XZ_MASK {
            return None;
        }
        Some(RegionIndex::from_coordinates(value))
    }

    /// Unpacks the identifier back into a subchunk coordinate.
    pub fn to_coordinates(&self) -> (v: Vector3)
        ensures
            v == unpack(self@),
    {
        let index = self.0;
        let y = (index >> 58u64) as i32;
        let x = ((index >> 29u64) & XZ_MASK) as i32;
        let z = (index & XZ_MASK) as i32;
        Vector3 { x, y, z }
    }

    /// The raw 64-bit identifier.
    pub fn as_u64(&self) -> (raw: u64)
        ensures
            raw == self@,
    {
        self.0
    }
}

proof fn lemma_pack_fields(y: u64, x: u64, z: u64)
    requires
        y < 63,
        x < 0x1fff_ffff,
        z < 0x1fff_ffff,
    ensures
        ((y << 58u64) | ((x & 0x1fff_ffffu64) << 29u64) | (z & 0x1fff_ffffu64)) >> 58u64 == y,
        (((y << 58u64) | ((x & 0x1fff_ffffu64) << 29u64) | (z & 0x1fff_ffffu64)) >> 29u64) & 0x1fff_ffffu64 == x,
        ((y << 58u64) | ((x & 0x1fff_ffffu64) << 29u64) | (z & 0x1fff_ffffu64)) & 0x1fff_ffffu64 == z,
{
    assert(((y << 58u64) | ((x & 0x1fff_ffffu64) << 29u64) | (z & 0x1fff_ffffu64)) >> 58u64 == y)
        by (bit_vector)
        requires
            y < 63,
            x < 0x1fff_ffff,
            z < 0x1fff_ffff,
    ;
    assert((((y << 58u64) | ((x & 0x1fff_ffffu64) << 29u64) | (z & 0x1fff_ffffu64)) >> 29u64)
        & 0x1fff_ffffu64 == x) by (bit_vector)
        requires
            y < 63,
            x < 0x1fff_ffff,
            z < 0x1fff_ffff,
    ;
    assert(((y << 58u64) | ((x & 0x1fff_ffffu64) << 29u64) | (z & 0x1fff_ffffu64)) & 0x1fff_ffffu64
        == z) by (bit_vector)
        requires
            y < 63,
            x < 0x1fff_ffff,
            z < 0x1fff_ffff,
    ;
}

/// Law: unpacking a packed coordinate gives the coordinate back.
pub proof fn lemma_unpack_pack(v: Vector3)
    requires
        packable(v),
    ensures
        unpack(pack(v)) == v,
{
    lemma_pack_fields(v.y as u64, v.x as u64, v.z as u64);
}

/// Law: distinct packable coordinates get distinct identifiers.
pub proof fn lemma_pack_injective(a: Vector3, b: Vector3)
    requires
        packable(a),
        packable(b),
        pack(a) == pack(b),
    ensures
        a == b,
{
    lemma_unpack_pack(a);
    lemma_unpack_pack(b);
}

} // verus!

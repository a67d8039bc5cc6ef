//! Sub chunks: 16x16x16 block volumes stored as palette indices.
use vstd::prelude::*;
use crate::coords::LocalPos;

verus! {

/// Version of the subchunk.
#[derive(Debug, Copy, Clone, PartialEq, Eq, Structural)]
pub enum SubChunkVersion {
    /// Legacy sub chunks are from before the Aquatic update.
    /// These sub chunks only contain a single layer.
    Legacy,
    /// Limited sub chunks are from before the Caves and Cliffs update.
    Limited,
    /// Limitless are post Caves and Cliffs. The only difference between `Limitless` and `Limited` is the fact that limitless
    /// contains a sub chunk index.
    Limitless,
}

/// The byte that identifies each version on disk.
pub open spec fn version_byte(v: SubChunkVersion) -> u8 {
    match v {
        SubChunkVersion::Legacy => 1,
        SubChunkVersion::Limited => 8,
        SubChunkVersion::Limitless => 9,
    }
}

/// The version that a byte identifies, if any.
pub open spec fn version_from_byte(b: u8) -> Option<SubChunkVersion> {
    if b == 1 {
        Some(SubChunkVersion::Legacy)
    } else if b == 8 {
        Some(SubChunkVersion::Limited)
    } else if b == 9 {
        Some(SubChunkVersion::Limitless)
    } else {
        None
    }
}

impl SubChunkVersion {
    /// Reads a version from its byte, failing on an unknown byte.
    pub fn try_from_byte(v: u8) -> (res: Result<SubChunkVersion, SubChunkError>)
        ensures
            match version_from_byte(v) {
                Some(ver) => res == Ok::<SubChunkVersion, SubChunkError>(ver),
                None => res == Err::<SubChunkVersion, SubChunkError>(SubChunkError::InvalidVersion(v)),
            },
    {
        if v == 1 {
            Ok(SubChunkVersion::Legacy)
        } else if v == 8 {
            Ok(SubChunkVersion::Limited)
        } else if v == 9 {
            Ok(SubChunkVersion::Limitless)
        } else {
            Err(SubChunkError::InvalidVersion(v))
        }
    }

    /// The byte that identifies this version.
    pub fn as_byte(&self) -> (b: u8)
        ensures
            b == version_byte(*self),
    {
        match self {
            SubChunkVersion::Legacy => 1,
            SubChunkVersion::Limited => 8,
            SubChunkVersion::Limitless => 9,
        }
    }
}

/// Errors when reading a sub chunk from disk.
#[derive(Debug, Copy, Clone, PartialEq, Eq, Structural)]
pub enum SubChunkError {
    /// The input ended before the sub chunk header did.
    UnexpectedEof,
    /// The version byte is not one of the known versions.
    InvalidVersion(u8),
    /// A sub chunk must have one or two layers.
    InvalidLayerCount(u8),
}

/// The fixed part of a sub chunk on disk that precedes its layers.
#[derive(Debug, Copy, Clone, PartialEq, Eq, Structural)]
pub struct SubChunkHeader {
    /// Version of the sub chunk.
    pub version: SubChunkVersion,
    /// Number of layers that follow.
    pub layer_count: u8,
    /// Vertical index (stored only by limitless sub chunks, 0 otherwise).
    pub index: i8,
}

/// What reading a sub chunk header from `s` gives: the header and the
/// number of bytes it took, or the error.
pub open spec fn spec_read_header(s: Seq<u8>) -> Result<(SubChunkHeader, nat), SubChunkError> {
    if s.len() == 0 {
        Err(SubChunkError::UnexpectedEof)
    } else {
        match version_from_byte(s[0]) {
            None => Err(SubChunkError::InvalidVersion(s[0])),
            Some(version) => {
                let legacy = version == SubChunkVersion::Legacy;
                if !legacy && s.len() < 2 {
                    Err(SubChunkError::UnexpectedEof)
                } else {
                    let layer_count: u8 = if legacy { 1 } else { s[1] };
                    let pos: nat = if legacy { 1 } else { 2 };
                    if layer_count == 0 || layer_count > 2 {
                        Err(SubChunkError::InvalidLayerCount(layer_count))
                    } else if version == SubChunkVersion::Limitless {
                        if s.len() < 3 {
                            Err(SubChunkError::UnexpectedEof)
                        } else {
                            Ok((SubChunkHeader { version, layer_count, index: s[2] as i8 }, 3nat))
                        }
                    } else {
                        Ok((SubChunkHeader { version, layer_count, index: 0 }, pos))
                    }
                }
            },
        }
    }
}

/// The bytes written for a header: the version, then the layer count unless
/// the sub chunk is legacy (legacy sub chunks have one layer and no count
/// byte), then the index for limitless sub chunks.
pub open spec fn spec_header_bytes(h: SubChunkHeader) -> Seq<u8> {
    match h.version {
        SubChunkVersion::Legacy => seq![version_byte(h.version)],
        SubChunkVersion::Limited => seq![version_byte(h.version), h.layer_count],
        SubChunkVersion::Limitless => seq![version_byte(h.version), h.layer_count, h.index as u8],
    }
}

/// Whether a header describes a sub chunk as it can be stored: one or two
/// layers, exactly one for a legacy sub chunk, and index 0 unless the sub
/// chunk is limitless (only limitless sub chunks store their index).
pub open spec fn header_valid(h: SubChunkHeader) -> bool {
    &&& 1 <= h.layer_count <= 2
    &&& h.version == SubChunkVersion::Legacy ==> h.layer_count == 1
    &&& h.version != SubChunkVersion::Limitless ==> h.index == 0
}

/// Reads the header of a sub chunk stored on disk.
///
/// Legacy sub chunks carry no layer count (they have one layer); the count
/// must be 1 or 2; only limitless sub chunks store their vertical index.
pub fn read_header(s: &[u8]) -> (res: Result<(SubChunkHeader, usize), SubChunkError>)
    ensures
        match spec_read_header(s@) {
            Ok((h, n)) => res == Ok::<(SubChunkHeader, usize), SubChunkError>((h, n as usize)),
            Err(e) => res == Err::<(SubChunkHeader, usize), SubChunkError>(e),
        },
{
    if s.len() == 0 {
        return Err(SubChunkError::UnexpectedEof);
    }
    let version = SubChunkVersion::try_from_byte(s[0])?;
    let mut pos: usize = 1;
    let layer_count: u8 = match version {
        SubChunkVersion::Legacy => 1,
        _ => {
            if s.len() < 2 {
                return Err(SubChunkError::UnexpectedEof);
            }
            pos = 2;
            s[1]
        },
    };
    if layer_count == 0 || layer_count > 2 {
        return Err(SubChunkError::InvalidLayerCount(layer_count));
    }
    let index: i8 = match version {
        SubChunkVersion::Limitless => {
            if s.len() < 3 {
                return Err(SubChunkError::UnexpectedEof);
            }
            pos = 3;
            s[2] as i8
        },
        _ => 0,
    };
    Ok((SubChunkHeader { version, layer_count, index }, pos))
}

/// Appends the header bytes of a sub chunk to `out`.
pub fn write_header(out: &mut Vec<u8>, h: &SubChunkHeader)
    ensures
        final(out)@ == old(out)@ + spec_header_bytes(*h),
{
    let ghost start = out@;
    out.push(h.version.as_byte());
    if h.version != SubChunkVersion::Legacy {
        out.push(h.layer_count);
    }
    if h.version == SubChunkVersion::Limitless {
        out.push(h.index as u8);
    }
    assert(out@ =~= start + spec_header_bytes(*h));
}

/// Law: every valid header reads back as written, whatever follows it.
pub proof fn lemma_header_roundtrip(h: SubChunkHeader, rest: Seq<u8>)
    requires
        header_valid(h),
    ensures
        spec_read_header(spec_header_bytes(h) + rest) == Ok::<(SubChunkHeader, nat), SubChunkError>(
            (h, spec_header_bytes(h).len()),
        ),
{
    let s = spec_header_bytes(h) + rest;
    assert(s[0] == version_byte(h.version));
    if h.version != SubChunkVersion::Legacy {
        assert(s[1] == h.layer_count);
    }
    if h.version == SubChunkVersion::Limitless {
        assert(s[2] == h.index as u8);
        let i = h.index;
        assert((i as u8) as i8 == i) by (bit_vector);
    }
}

/// The offset of a block position into the 4096 palette indices of a layer.
pub open spec fn spec_to_offset(p: LocalPos) -> int {
    256 * p.x + 16 * p.z + p.y
}

/// The block position at an offset into the palette indices.
pub open spec fn spec_from_offset(offset: usize) -> LocalPos {
    LocalPos {
        x: ((offset >> 8usize) as u8) & 0xf,
        y: (offset as u8) & 0xf,
        z: ((offset >> 4usize) as u8) & 0xf,
    }
}

/// Converts coordinates to offsets into the block palette indices.
///
/// These coordinates should be in the range [0, 16) for each component.
pub fn to_offset(position: LocalPos) -> (offset: usize)
    ensures
        offset == spec_to_offset(position),
{
    let x = position.x as usize;
    let z = position.z as usize;
    let y = position.y as usize;
    assert(256 * x <= 65280) by (nonlinear_arith)
        requires
            x <= 255,
    ;
    16 * 16 * x + 16 * z + y
}

/// Converts an offset back to coordinates.
///
/// This offset should be in the range [0, 4096).
pub fn from_offset(offset: usize) -> (p: LocalPos)
    ensures
        p == spec_from_offset(offset),
{
    LocalPos { x: ((offset >> 8usize) as u8) & 0xf, y: (offset as u8) & 0xf, z: ((offset >> 4usize) as u8) & 0xf }
}

/// Law: the position of the offset of a position inside the subchunk is
/// that position.
pub proof fn lemma_from_to_offset(p: LocalPos)
    requires
        p.x < 16,
        p.y < 16,
        p.z < 16,
    ensures
        spec_from_offset(spec_to_offset(p) as usize) == p,
{
    let x = p.x as usize;
    let y = p.y as usize;
    let z = p.z as usize;
    let o = (256 * x + 16 * z + y) as usize;
    assert(o == 256 * x + 16 * z + y);
    assert(x < 16 && y < 16 && z < 16 && o == 256 * x + 16 * z + y ==> {
        &&& ((o >> 8usize) as u8) & 0xf == x as u8
        &&& (o as u8) & 0xf == y as u8
        &&& ((o >> 4usize) as u8) & 0xf == z as u8
    }) by (bit_vector);
}

/// Law: the offset of the position at an offset below 4096 is that offset.
pub proof fn lemma_to_from_offset(offset: usize)
    requires
        offset < 4096,
    ensures
        spec_to_offset(spec_from_offset(offset)) == offset,
{
    let p = spec_from_offset(offset);
    assert(offset < 4096 ==> 256 * (((offset >> 8usize) as u8) & 0xf) as usize + 16 * (((offset
        >> 4usize) as u8) & 0xf) as usize + ((offset as u8) & 0xf) as usize == offset) by (bit_vector);
}

/// The value of a single block state property.
#[derive(Debug)]
pub enum StateValue {
    /// A byte property (also used for flags).
    Byte(i8),
    /// An integer property.
    Int(i32),
    /// A string property.
    Str(String),
}

/// Definition of block in the sub chunk block palette.
#[derive(Debug)]
pub struct PaletteEntry {
    /// Name of the block.
    pub name: String,
    /// Version of the block.
    pub version: Option<[u8; 4]>,
    /// Block-specific properties.
    pub states: Vec<(String, StateValue)>,
}

/// A layer in a sub chunk.
///
/// Sub chunks can have multiple layers.
/// The first layer contains plain old block data,
/// while the second layer (if it exists) generally contains water logging data.
#[derive(Debug)]
pub struct SubLayer {
    /// List of indices into the palette.
    ///
    /// Coordinates can be converted to an offset into the array using [`to_offset`].
    pub(crate) indices: Box<[u16; 4096]>,
    /// List of all different block types in this sub chunk layer.
    pub(crate) palette: Vec<PaletteEntry>,
}

/// Whether a position lies outside the layer (some component not below 16).
pub open spec fn beyond_layer(p: LocalPos) -> bool {
    p.x >= 16 || p.y >= 16 || p.z >= 16
}

impl SubLayer {
    /// The palette indices of the layer, one per block.
    pub closed spec fn index_seq(&self) -> Seq<u16> {
        self.indices@
    }

    /// The palette of the layer.
    pub closed spec fn palette_seq(&self) -> Seq<PaletteEntry> {
        self.palette@
    }

    /// Whether `get` can look up the block at `pos`: the position lies
    /// outside the layer, or the palette index stored for it is in the palette.
    pub open spec fn can_get(&self, pos: LocalPos) -> bool {
        beyond_layer(pos) || self.index_seq()[spec_to_offset(pos)] < self.palette_seq().len()
    }

    /// Assembles a layer from its palette indices and palette.
    pub fn from_parts(indices: Box<[u16; 4096]>, palette: Vec<PaletteEntry>) -> (layer: SubLayer)
        ensures
            layer.index_seq() == indices@,
            layer.palette_seq() == palette@,
    {
        SubLayer { indices, palette }
    }

    /// Creates an iterator over the blocks in this layer.
    ///
    /// This iterates over every indices
    pub fn iter(&self) -> (it: LayerIter<'_>)
        ensures
            it.remaining() == self.index_seq(),
            it.palette_view() == self.palette_seq(),
    {
        LayerIter::from_layer(self)
    }

    /// Gets a reference to a block inside the subchunk.
    ///
    /// Positions with a component of 16 or more give `None`.
    pub fn get(&self, pos: LocalPos) -> (entry: Option<&PaletteEntry>)
        requires
            self.can_get(pos),
        ensures
            beyond_layer(pos) ==> entry is None,
            !beyond_layer(pos) ==> entry == Some(
                &self.palette_seq()[self.index_seq()[spec_to_offset(pos)] as int],
            ),
    {
        if pos.x >= 16 || pos.y >= 16 || pos.z >= 16 {
            return None;
        }
        let offset = to_offset(pos);
        let index = self.indices[offset] as usize;
        Some(&self.palette[index])
    }

    /// Returns a reference to the block palette.
    pub fn palette(&self) -> (p: &[PaletteEntry])
        ensures
            p@ == self.palette_seq(),
    {
        self.palette.as_slice()
    }

    /// Returns a reference to the block indices.
    pub fn indices(&self) -> (i: &[u16; 4096])
        ensures
            i@ == self.index_seq(),
    {
        &self.indices
    }

    /// Takes ownership of the layer and returns the indices.
    pub fn take_indices(self) -> (i: Box<[u16; 4096]>)
        ensures
            i@ == self.index_seq(),
    {
        self.indices
    }
}

impl Default for SubLayer {
    fn default() -> (layer: SubLayer)
        ensures
            layer.index_seq() == Seq::new(4096, |_i: int| 0u16),
            layer.palette_seq() == Seq::<PaletteEntry>::empty(),
    {
        let indices: [u16; 4096] = vstd::array::array_fill_for_copy_types(0u16);
        let layer = SubLayer { indices: Box::new(indices), palette: Vec::new() };
        assert(layer.index_seq() =~= Seq::new(4096, |_i: int| 0u16));
        layer
    }
}

/// A Minecraft sub chunk.
#[derive(Debug)]
pub struct SubChunk {
    /// Version of the sub chunk.
    ///
    /// See [`SubChunkVersion`] for more info.
    pub(crate) version: SubChunkVersion,
    /// Index of the sub chunk.
    ///
    /// This specifies the vertical position of the sub chunk.
    /// It is only used if `version` is set to [`Limitless`](SubChunkVersion::Limitless)
    /// and set to 0 otherwise.
    pub(crate) index: i8,
    /// Layers the sub chunk consists of.
    ///
    /// See [`SubLayer`] for more info.
    pub(crate) layers: Vec<SubLayer>,
}

impl SubChunk {
    /// Version of the sub chunk.
    pub closed spec fn spec_version(&self) -> SubChunkVersion {
        self.version
    }

    /// Vertical index of the sub chunk.
    pub closed spec fn spec_index(&self) -> i8 {
        self.index
    }

    /// The layers of the sub chunk.
    pub closed spec fn layer_seq(&self) -> Seq<SubLayer> {
        self.layers@
    }

    /// The header written in front of the layers when this sub chunk is stored.
    pub open spec fn spec_header(&self) -> SubChunkHeader {
        SubChunkHeader {
            version: self.spec_version(),
            layer_count: self.layer_seq().len() as u8,
            index: self.spec_index(),
        }
    }

    /// Assembles a sub chunk from its version, vertical index and layers.
    pub fn from_parts(version: SubChunkVersion, index: i8, layers: Vec<SubLayer>) -> (sub: SubChunk)
        ensures
            sub.spec_version() == version,
            sub.spec_index() == index,
            sub.layer_seq() == layers@,
    {
        SubChunk { version, index, layers }
    }

    /// Version of this subchunk.
    /// See [`SubChunkVersion`] for more information.
    pub fn version(&self) -> (v: SubChunkVersion)
        ensures
            v == self.spec_version(),
    {
        self.version
    }

    /// Vertical index of this subchunk
    pub fn index(&self) -> (i: i8)
        ensures
            i == self.spec_index(),
    {
        self.index
    }

    /// The layers (storage records) contained in this subchunk.
    pub fn layers(&self) -> (l: &[SubLayer])
        ensures
            l@ == self.layer_seq(),
    {
        self.layers.as_slice()
    }

    /// Get an immutable reference to the layer at the specified index.
    pub fn layer(&self, index: usize) -> (l: Option<&SubLayer>)
        ensures
            index < self.layer_seq().len() ==> l == Some(&self.layer_seq()[index as int]),
            index >= self.layer_seq().len() ==> l is None,
    {
        if index < self.layers.len() {
            Some(&self.layers[index])
        } else {
            None
        }
    }

    /// Takes ownership of the subchunk and returns an owned list of its layers.
    pub fn take_layers(self) -> (l: Vec<SubLayer>)
        ensures
            l@ == self.layer_seq(),
    {
        self.layers
    }

    /// The header that precedes the layers when this sub chunk is stored.
    pub fn header(&self) -> (h: SubChunkHeader)
        ensures
            h == self.spec_header(),
    {
        SubChunkHeader { version: self.version, layer_count: self.layers.len() as u8, index: self.index }
    }

    /// Writes the header of this sub chunk to `out`: version, layer count
    /// (except for legacy sub chunks) and, for limitless sub chunks, the
    /// vertical index.
    pub fn serialize_header_in(&self, out: &mut Vec<u8>)
        ensures
            final(out)@ == old(out)@ + spec_header_bytes(self.spec_header()),
    {
        let h = self.header();
        write_header(out, &h);
    }
}

/// Iterator over blocks in a layer.
pub struct LayerIter<'a> {
    /// Indices in the sub chunk.
    /// While iterating, this is slowly consumed by `std::slice::split_at`.
    indices: &'a [u16],
    /// All possible block states in the current chunk.
    palette: &'a [PaletteEntry],
}

impl<'a> LayerIter<'a> {
    /// The palette indices not yet visited.
    pub closed spec fn remaining(&self) -> Seq<u16> {
        self.indices@
    }

    /// The palette the indices refer to.
    pub closed spec fn palette_view(&self) -> Seq<PaletteEntry> {
        self.palette@
    }

    /// Creates an iterator over the blocks of a layer.
    pub fn from_layer(value: &'a SubLayer) -> (it: LayerIter<'a>)
        ensures
            it.remaining() == value.index_seq(),
            it.palette_view() == value.palette_seq(),
    {
        LayerIter { indices: value.indices.as_slice(), palette: value.palette.as_slice() }
    }

    /// Yields the palette entry of the next block, or `None` when all blocks
    /// have been visited or the next index is not in the palette.
    pub fn next(&mut self) -> (entry: Option<&'a PaletteEntry>)
        ensures
            final(self).palette_view() == old(self).palette_view(),
            old(self).remaining().len() == 0 ==> entry is None && final(self).remaining() == old(self).remaining(),
            old(self).remaining().len() > 0 ==> {
                &&& final(self).remaining() == old(self).remaining().drop_first()
                &&& (old(self).remaining()[0] < old(self).palette_view().len() ==> entry == Some(
                    &old(self).palette_view()[old(self).remaining()[0] as int],
                ))
                &&& (old(self).remaining()[0] >= old(self).palette_view().len() ==> entry is None)
            },
    {
        if self.len() == 0 {
            return None;
        }
        let (a, b) = self.indices.split_at(1);
        self.indices = b;
        let i = a[0] as usize;
        if i < self.palette.len() {
            Some(&self.palette[i])
        } else {
            None
        }
    }

    /// Number of blocks left to visit.
    pub fn len(&self) -> (n: usize)
        ensures
            n == self.remaining().len(),
    {
        self.indices.len()
    }
}

} // verus!

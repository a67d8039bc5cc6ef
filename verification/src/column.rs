//! Chunk columns: the subchunks stacked at one horizontal position, with the
//! column heightmap and the per-subchunk heightmaps derived from it.
use vstd::prelude::*;
use std::ops::Range;
use crate::coords::{LocalPos, Vector2};
use crate::heightmap::{Heightmap, HeightmapType};
use crate::subchunk::{SubChunk, SubLayer, PaletteEntry, spec_to_offset};

verus! {

/// Rust's division on integers: rounds towards zero.
pub open spec fn div_trunc(a: int, b: int) -> int {
    if a >= 0 {
        a / b
    } else {
        -((-a) / b)
    }
}

/// The name of the air block.
pub open spec fn air_name() -> Seq<char> {
    "minecraft:air"@
}

/// Whether a palette entry is air.
pub open spec fn is_air(e: PaletteEntry) -> bool {
    e.name@ == air_name()
}

/// The entry a layer holds at `(x, y, z)`.
pub open spec fn block_at(layer: SubLayer, x: int, y: int, z: int) -> PaletteEntry {
    layer.palette_seq()[layer.index_seq()[256 * x + 16 * z + y] as int]
}

/// Whether every block of a layer (inside the 16x16x16 volume) can be looked up.
pub open spec fn layer_readable(layer: SubLayer) -> bool {
    forall|x: u8, y: u8, z: u8| x < 16 && y < 16 && z < 16 ==> #[trigger] layer.can_get(LocalPos { x, y, z })
}

/// The highest `y` at or below `y` whose block in column `(x, z)` is not air.
pub open spec fn first_solid(layer: SubLayer, x: int, z: int, y: int) -> Option<int>
    decreases y + 1,
{
    if y < 0 {
        None
    } else if !is_air(block_at(layer, x, y, z)) {
        Some(y)
    } else {
        first_solid(layer, x, z, y - 1)
    }
}

/// The world height of the bottom of a subchunk, as `index_to_y` computes it
/// (before narrowing).
pub open spec fn index_base(index: i8, range_start: i16) -> int {
    index * 16 + range_start
}

/// Whether `index_to_y(index)` gives a height that fits in an `i16`.
pub open spec fn index_to_y_ok(index: i8, range_start: i16) -> bool {
    i16::MIN <= index_base(index, range_start) <= i16::MAX
}

/// Whether a present subchunk can be scanned for column `(x, z)`: it has a
/// first layer whose blocks can be looked up, and the height found can be
/// computed without overflow.
pub open spec fn scan_step_ok(sub: SubChunk, x: int, z: int, range_start: i16) -> bool {
    &&& sub.layer_seq().len() > 0
    &&& layer_readable(sub.layer_seq()[0])
    &&& (first_solid(sub.layer_seq()[0], x, z, 15) matches Some(y) ==> {
        &&& index_to_y_ok(sub.spec_index(), range_start)
        &&& i16::MIN <= y + index_base(sub.spec_index(), range_start) <= i16::MAX
    })
}

/// The height found in a subchunk for column `(x, z)`: the topmost non-air
/// block plus the base of the subchunk, or 0 when the column is all air.
pub open spec fn sub_top(sub: SubChunk, x: int, z: int, range_start: i16) -> int {
    match first_solid(sub.layer_seq()[0], x, z, 15) {
        Some(y) => y + index_base(sub.spec_index(), range_start),
        None => 0,
    }
}

/// Scanning column `(x, z)` downwards through the present subchunks at
/// positions `j, j - 1, ..., 0`: every present subchunk visited raises the
/// highest index seen; the scan stops at the first visited subchunk once a
/// block that is not air has been found. Gives the height and the highest
/// index.
pub open spec fn scan(subs: Seq<(u16, Option<SubChunk>)>, j: int, x: int, z: int, range_start: i16, top: int, found: bool, high: u16) -> (int, u16)
    decreases j + 1,
{
    if j < 0 {
        (top, high)
    } else {
        match subs[j].1 {
            None => scan(subs, j - 1, x, z, range_start, top, found, high),
            Some(sub) => {
                let high2 = if high < subs[j].0 { subs[j].0 } else { high };
                if found {
                    (top, high2)
                } else {
                    scan(
                        subs,
                        j - 1,
                        x,
                        z,
                        range_start,
                        sub_top(sub, x, z, range_start),
                        first_solid(sub.layer_seq()[0], x, z, 15) is Some,
                        high2,
                    )
                }
            },
        }
    }
}

/// The world height of the topmost block that is not air in column
/// `(x, z)`, looking through the present subchunks at positions
/// `j, j - 1, ..., 0` (subchunks listed bottom to top), or 0 when the column
/// holds only air.
pub open spec fn topmost_height(subs: Seq<(u16, Option<SubChunk>)>, j: int, x: int, z: int, range_start: i16) -> int
    decreases j + 1,
{
    if j < 0 {
        0
    } else {
        match subs[j].1 {
            Some(sub) => {
                if first_solid(sub.layer_seq()[0], x, z, 15) is Some {
                    sub_top(sub, x, z, range_start)
                } else {
                    topmost_height(subs, j - 1, x, z, range_start)
                }
            },
            None => topmost_height(subs, j - 1, x, z, range_start),
        }
    }
}

/// A scan that has found a block keeps its height.
proof fn lemma_scan_keeps_found(subs: Seq<(u16, Option<SubChunk>)>, j: int, x: int, z: int, range_start: i16, top: int, high: u16)
    ensures
        scan(subs, j, x, z, range_start, top, true, high).0 == top,
    decreases j + 1,
{
    if j >= 0 {
        if subs[j].1 is None {
            lemma_scan_keeps_found(subs, j - 1, x, z, range_start, top, high);
        }
    }
}

/// Law: the scan of a column gives the world height of its topmost block
/// that is not air, or 0 when the column holds only air.
pub proof fn lemma_scan_finds_topmost(subs: Seq<(u16, Option<SubChunk>)>, j: int, x: int, z: int, range_start: i16, high: u16)
    ensures
        scan(subs, j, x, z, range_start, 0, false, high).0 == topmost_height(subs, j, x, z, range_start),
    decreases j + 1,
{
    if j >= 0 {
        let high2 = if high < subs[j].0 { subs[j].0 } else { high };
        match subs[j].1 {
            None => lemma_scan_finds_topmost(subs, j - 1, x, z, range_start, high),
            Some(sub) => {
                if first_solid(sub.layer_seq()[0], x, z, 15) is Some {
                    lemma_scan_keeps_found(subs, j - 1, x, z, range_start, sub_top(sub, x, z, range_start), high2);
                } else {
                    lemma_scan_finds_topmost(subs, j - 1, x, z, range_start, high2);
                }
            },
        }
    }
}

/// Whether the scan of column `(x, z)` runs without a panic: every
/// subchunk whose blocks it reads can be scanned.
pub open spec fn scan_ok(subs: Seq<(u16, Option<SubChunk>)>, j: int, x: int, z: int, range_start: i16, found: bool) -> bool
    decreases j + 1,
{
    if j < 0 {
        true
    } else {
        match subs[j].1 {
            None => scan_ok(subs, j - 1, x, z, range_start, found),
            Some(sub) => {
                if found {
                    true
                } else {
                    scan_step_ok(sub, x, z, range_start) && scan_ok(
                        subs,
                        j - 1,
                        x,
                        z,
                        range_start,
                        first_solid(sub.layer_seq()[0], x, z, 15) is Some,
                    )
                }
            },
        }
    }
}

/// The highest subchunk index after the scans of the first `c` columns
/// (column `c` is `x = c / 16`, `z = c % 16`), starting from `high`.
pub open spec fn scan_columns_high(subs: Seq<(u16, Option<SubChunk>)>, c: nat, range_start: i16, high: u16) -> u16
    decreases c,
{
    if c == 0 {
        high
    } else {
        let prev = scan_columns_high(subs, (c - 1) as nat, range_start, high);
        scan(subs, subs.len() - 1, (c - 1) / 16, (c - 1) % 16, range_start, 0, false, prev).1
    }
}

proof fn lemma_scan_top_any_high(subs: Seq<(u16, Option<SubChunk>)>, j: int, x: int, z: int, range_start: i16, top: int, found: bool, h1: u16, h2: u16)
    ensures
        scan(subs, j, x, z, range_start, top, found, h1).0 == scan(subs, j, x, z, range_start, top, found, h2).0,
    decreases j + 1,
{
    if j >= 0 {
        match subs[j].1 {
            None => lemma_scan_top_any_high(subs, j - 1, x, z, range_start, top, found, h1, h2),
            Some(sub) => {
                let a = if h1 < subs[j].0 { subs[j].0 } else { h1 };
                let b = if h2 < subs[j].0 { subs[j].0 } else { h2 };
                if !found {
                    lemma_scan_top_any_high(
                        subs,
                        j - 1,
                        x,
                        z,
                        range_start,
                        sub_top(sub, x, z, range_start),
                        first_solid(sub.layer_seq()[0], x, z, 15) is Some,
                        a,
                        b,
                    );
                }
            },
        }
    }
}

proof fn lemma_first_solid_range(layer: SubLayer, x: int, z: int, y: int)
    ensures
        first_solid(layer, x, z, y) matches Some(r) ==> 0 <= r <= y,
    decreases y + 1,
{
    if y >= 0 {
        lemma_first_solid_range(layer, x, z, y - 1);
    }
}

/// Finds the topmost non-air block of column `(x, z)` in a layer, scanning
/// down from `y = 15`.
fn first_solid_exec(layer: &SubLayer, x: u8, z: u8, air: &String) -> (res: Option<u8>)
    requires
        x < 16,
        z < 16,
        layer_readable(*layer),
        air@ == air_name(),
    ensures
        match first_solid(*layer, x as int, z as int, 15) {
            Some(y) => res == Some(y as u8),
            None => res is None,
        },
{
    let mut y: u8 = 16;
    while y > 0
        invariant
            y <= 16,
            x < 16,
            z < 16,
            layer_readable(*layer),
            air@ == air_name(),
            first_solid(*layer, x as int, z as int, 15) == first_solid(*layer, x as int, z as int, y - 1),
        decreases y,
    {
        y = y - 1;
        let pos = LocalPos { x, y, z };
        assert(layer.can_get(pos));
        let block = layer.get(pos).unwrap();
        assert(*block == block_at(*layer, x as int, y as int, z as int));
        if !(block.name == *air) {
            return Some(y);
        }
    }
    None
}

/// The height found in a present subchunk for column `(x, z)`, and whether
/// a block that is not air was found.
fn sub_top_exec(sub: &SubChunk, x: u8, z: u8, start: i16, air: &String) -> (res: (i16, bool))
    requires
        x < 16,
        z < 16,
        scan_step_ok(*sub, x as int, z as int, start),
        air@ == air_name(),
    ensures
        res.0 == sub_top(*sub, x as int, z as int, start),
        res.1 == first_solid(sub.layer_seq()[0], x as int, z as int, 15) is Some,
{
    let layer = sub.layer(0).unwrap();
    match first_solid_exec(layer, x, z, air) {
        Some(y) => {
            proof {
                lemma_first_solid_range(*layer, x as int, z as int, 15);
            }
            let index = sub.index();
            let base: i16 = (index as i16) * 16 + start;
            (y as i16 + base, true)
        },
        None => (0, false),
    }
}

/// Scans column `(x, z)` down through the present subchunks, starting from
/// the highest index `high`.
fn scan_column(subs: &Vec<(u16, Option<SubChunk>)>, x: u8, z: u8, start: i16, high: u16, air: &String) -> (res: (i16, u16))
    requires
        x < 16,
        z < 16,
        air@ == air_name(),
        scan_ok(subs@, subs@.len() - 1, x as int, z as int, start, false),
    ensures
        (res.0 as int, res.1) == scan(subs@, subs@.len() - 1, x as int, z as int, start, 0, false, high),
{
    let ghost full = scan(subs@, subs@.len() - 1, x as int, z as int, start, 0, false, high);
    let mut j: usize = subs.len();
    let mut top: i16 = 0;
    let mut found = false;
    let mut hi: u16 = high;
    let mut done = false;
    while j > 0 && !done
        invariant
            j <= subs@.len(),
            x < 16,
            z < 16,
            air@ == air_name(),
            done ==> full == (top as int, hi),
            !done ==> full == scan(subs@, j - 1, x as int, z as int, start, top as int, found, hi),
            !done ==> scan_ok(subs@, j - 1, x as int, z as int, start, found),
        decreases j,
    {
        j = j - 1;
        let entry = &subs[j];
        match &entry.1 {
            None => {},
            Some(sub) => {
                if hi < entry.0 {
                    hi = entry.0;
                }
                if found {
                    done = true;
                } else {
                    let (t, f) = sub_top_exec(sub, x, z, start, air);
                    top = t;
                    found = f;
                }
            },
        }
    }
    (top, hi)
}

/// Whether scanning column number `c` (`x = c / 16`, `z = c % 16`) of the
/// subchunks runs without a panic.
pub open spec fn column_scan_ok(subs: Seq<(u16, Option<SubChunk>)>, range_start: i16, c: int) -> bool {
    scan_ok(subs, subs.len() - 1, c / 16, c % 16, range_start, false)
}

/// The height found by scanning column number `c` (`x = c / 16`, `z = c % 16`).
pub open spec fn column_height(subs: Seq<(u16, Option<SubChunk>)>, range_start: i16, c: int) -> int {
    scan(subs, subs.len() - 1, c / 16, c % 16, range_start, 0, false, 0).0
}

/// The world height of the topmost block that is not air in column number
/// `c` (`x = c / 16`, `z = c % 16`), or 0 when it holds only air.
pub open spec fn column_topmost(subs: Seq<(u16, Option<SubChunk>)>, range_start: i16, c: int) -> int {
    topmost_height(subs, subs.len() - 1, c / 16, c % 16, range_start)
}

/// A column of subchunks at one chunk position.
pub struct ChunkColumn {
    /// Pair of absolute subchunk indices and (optional) subchunk data.
    /// If there is no data, then the subchunk is full air.
    pub subchunks: Vec<(u16, Option<SubChunk>)>,
    /// Vertical range of this column in terms of absolute subchunk coordinates.
    pub range: Range<i16>,
    coordinates: Vector2,
    /// Column chunk heightmap (entry `16 * x + z`).
    /// This is pregenerated and used to compute subchunk heightmaps.
    heightmap: Vec<i16>,
    /// Highest chunk that is nonair relative to the bottom limit of this column.
    highest_nonair: u16,
}

impl ChunkColumn {
    /// The column heightmap, entry `16 * x + z` for column `(x, z)`.
    pub closed spec fn heights(&self) -> Seq<i16> {
        self.heightmap@
    }

    /// The highest subchunk index seen to hold blocks.
    pub closed spec fn spec_highest_nonair(&self) -> u16 {
        self.highest_nonair
    }

    /// The subchunks of the column with their indices.
    pub closed spec fn subs(&self) -> Seq<(u16, Option<SubChunk>)> {
        self.subchunks@
    }

    /// The vertical range of the column.
    pub closed spec fn spec_range(&self) -> Range<i16> {
        self.range
    }

    /// The chunk position of the column.
    pub closed spec fn spec_coordinates(&self) -> Vector2 {
        self.coordinates
    }

    /// Whether the heightmap has one entry per column.
    pub open spec fn wf(&self) -> bool {
        self.heights().len() == 256
    }

    /// Creates a column with no subchunks, an empty range and a flat heightmap.
    pub fn empty(coordinates: Vector2) -> (c: ChunkColumn)
        ensures
            c.wf(),
            c.subs() == Seq::<(u16, Option<SubChunk>)>::empty(),
            c.spec_range().start == 0 && c.spec_range().end == 0,
            c.spec_coordinates() == coordinates,
            c.heights() == Seq::new(256, |_i: int| 0i16),
            c.spec_highest_nonair() == 0,
    {
        let mut heightmap: Vec<i16> = Vec::new();
        let mut i: usize = 0;
        while i < 256
            invariant
                i <= 256,
                heightmap@ == Seq::new(i as nat, |_i: int| 0i16),
            decreases 256 - i,
        {
            heightmap.push(0);
            i = i + 1;
            assert(heightmap@ =~= Seq::new(i as nat, |_i: int| 0i16));
        }
        ChunkColumn {
            coordinates,
            subchunks: Vec::new(),
            range: 0..0,
            heightmap,
            highest_nonair: 0,
        }
    }

    /// The column heightmap, entry `16 * x + z` for column `(x, z)`.
    pub fn heightmap(&self) -> (h: &Vec<i16>)
        ensures
            h@ == self.heights(),
    {
        &self.heightmap
    }

    /// Returns the index of the highest subchunk that is nonempty.
    pub fn highest_nonair(&self) -> (h: u16)
        ensures
            h == self.spec_highest_nonair(),
    {
        self.highest_nonair
    }

    /// Scans every column of the subchunks for its topmost non-air block and
    /// records its height in the column heightmap, raising the highest
    /// non-air subchunk index to every subchunk visited on the way.
    ///
    /// Columns are visited x-major; in each, the present subchunks are
    /// visited from the last to the first until one is reached after a block
    /// that is not air was found. Each entry is the world height of the
    /// column's topmost block that is not air; an all-air column gets 0.
    pub fn generate_heightmap(&mut self)
        requires
            old(self).wf(),
            forall|c: int| 0 <= c < 256 ==> #[trigger] column_scan_ok(old(self).subs(), old(self).spec_range().start, c),
        ensures
            final(self).wf(),
            final(self).subs() == old(self).subs(),
            final(self).spec_range() == old(self).spec_range(),
            final(self).spec_coordinates() == old(self).spec_coordinates(),
            forall|c: int|
                0 <= c < 256 ==> #[trigger] final(self).heights()[c] == column_height(
                    old(self).subs(),
                    old(self).spec_range().start,
                    c,
                ),
            forall|c: int|
                0 <= c < 256 ==> #[trigger] final(self).heights()[c] == column_topmost(
                    old(self).subs(),
                    old(self).spec_range().start,
                    c,
                ),
            final(self).spec_highest_nonair() == scan_columns_high(
                old(self).subs(),
                256,
                old(self).spec_range().start,
                old(self).spec_highest_nonair(),
            ),
    {
        let air = String::from_str("minecraft:air");
        let start = self.range.start;
        let ghost subs = self.subchunks@;
        let ghost high0 = self.highest_nonair;
        assert(subs == old(self).subs());
        assert(start == old(self).spec_range().start);
        assert forall|c: int| 0 <= c < 256 implies #[trigger] column_scan_ok(subs, start, c) by {
            assert(column_scan_ok(old(self).subs(), old(self).spec_range().start, c));
        }
        let mut x: u8 = 0;
        while x < 16
            invariant
                x <= 16,
                self.subchunks@ == subs,
                self.range.start == start,
                self.range == old(self).range,
                self.coordinates == old(self).coordinates,
                self.heightmap@.len() == 256,
                air@ == air_name(),
                forall|c: int| 0 <= c < 256 ==> #[trigger] column_scan_ok(subs, start, c),
                forall|c: int|
                    0 <= c < 16 * x ==> #[trigger] self.heightmap@[c] == column_height(subs, start, c),
                self.highest_nonair == scan_columns_high(subs, (16 * x) as nat, start, high0),
            decreases 16 - x,
        {
            let mut z: u8 = 0;
            while z < 16
                invariant
                    x < 16,
                    z <= 16,
                    self.subchunks@ == subs,
                    self.range.start == start,
                    self.range == old(self).range,
                    self.coordinates == old(self).coordinates,
                    self.heightmap@.len() == 256,
                    air@ == air_name(),
                    forall|c: int| 0 <= c < 256 ==> #[trigger] column_scan_ok(subs, start, c),
                    forall|c: int|
                        0 <= c < 16 * x + z ==> #[trigger] self.heightmap@[c] == column_height(subs, start, c),
                    self.highest_nonair == scan_columns_high(subs, (16 * x + z) as nat, start, high0),
                decreases 16 - z,
            {
                let c = 16 * (x as usize) + (z as usize);
                assert(c / 16 == x && c % 16 == z);
                assert(column_scan_ok(subs, start, c as int));
                let (top, high) = scan_column(&self.subchunks, x, z, start, self.highest_nonair, &air);
                proof {
                    lemma_scan_top_any_high(subs, subs.len() - 1, x as int, z as int, start, 0, false, self.highest_nonair, 0);
                    assert(scan_columns_high(subs, (c + 1) as nat, start, high0) == high);
                }
                self.heightmap.set(c, top);
                self.highest_nonair = high;
                z = z + 1;
            }
            x = x + 1;
        }
        proof {
            assert forall|c: int| 0 <= c < 256 implies #[trigger] self.heightmap@[c]
                == column_topmost(subs, start, c) by {
                lemma_scan_finds_topmost(subs, subs.len() - 1, c / 16, c % 16, start, 0);
            }
        }
    }

    /// Converts a vertical coordinate to a subchunk index in this column.
    pub fn y_to_index(&self, y: i16) -> (i: i8)
        requires
            i16::MIN <= y - self.spec_range().start <= i16::MAX,
        ensures
            i == div_trunc(y - self.spec_range().start, 16) as i8,
    {
        ((y - self.range.start) / 16) as i8
    }

    /// Converts a subchunk index in this column to the vertical coordinate of
    /// its bottom.
    pub fn index_to_y(&self, index: i8) -> (y: i16)
        requires
            index_to_y_ok(index, self.spec_range().start),
        ensures
            y == index_base(index, self.spec_range().start),
    {
        (index as i16) * 16 + self.range.start
    }
}

/// Law: the subchunk index of the bottom of subchunk `index` is `index`:
/// `y_to_index` undoes `index_to_y`.
pub proof fn lemma_index_y_roundtrip(index: i8, range_start: i16)
    requires
        index_to_y_ok(index, range_start),
    ensures
        i16::MIN <= index_base(index, range_start) - range_start <= i16::MAX,
        div_trunc(index_base(index, range_start) - range_start, 16) as i8 == index,
{
    let d = index_base(index, range_start) - range_start;
    assert(d == 16 * index);
    if index >= 0 {
        assert((16 * index) / 16 == index) by (nonlinear_arith);
    } else {
        assert((-(16 * index)) / 16 == -index) by (nonlinear_arith);
    }
}

} // verus!

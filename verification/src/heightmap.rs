//! Per-subchunk heightmaps sent along with subchunk data.
use vstd::prelude::*;
use crate::column::{ChunkColumn, div_trunc, index_base, index_to_y_ok};

verus! {

/// How a subchunk's heightmap is sent.
#[derive(Debug, Copy, Clone, PartialEq, Eq, Structural)]
pub enum HeightmapType {
    /// No heightmap is sent.
    NoData,
    /// The heightmap data follows.
    WithData,
    /// Every column's topmost block lies below the subchunk.
    TooHigh,
    /// Every column's topmost block lies above the subchunk.
    TooLow,
}

/// The heightmap of one subchunk: for each of the 256 columns (indexed by
/// `z << 4 | x`), the height of the topmost block relative to the subchunk.
#[derive(Debug)]
pub struct Heightmap {
    /// Heights, present only when `map_type` is `WithData`.
    pub data: Option<Vec<i8>>,
    /// How the heightmap is sent.
    pub map_type: HeightmapType,
}

/// The subchunk index holding the topmost block of column `(x, z)`.
pub open spec fn top_index(column: ChunkColumn, x: int, z: int) -> i8 {
    div_trunc(column.heights()[16 * x + z] - column.spec_range().start, 16) as i8
}

/// The heightmap entry of column `(x, z)` for the subchunk `sub_idx`: `-1`
/// when the topmost block lies in a lower subchunk, `16` when it lies in a
/// higher one, otherwise its height within the subchunk.
pub open spec fn entry_value(sub_idx: i8, column: ChunkColumn, x: int, z: int) -> i8 {
    let o = top_index(column, x, z);
    if sub_idx > o {
        -1i8
    } else if sub_idx < o {
        16i8
    } else {
        (column.heights()[16 * x + z] - index_base(o, column.spec_range().start)) as i8
    }
}

/// Whether the entry of column `(x, z)` can be computed without overflow.
pub open spec fn entry_ok(sub_idx: i8, column: ChunkColumn, x: int, z: int) -> bool {
    let h = column.heights()[16 * x + z];
    let o = top_index(column, x, z);
    &&& i16::MIN <= h - column.spec_range().start <= i16::MAX
    &&& sub_idx == o ==> index_to_y_ok(o, column.spec_range().start) && i16::MIN <= h - index_base(
        o,
        column.spec_range().start,
    ) <= i16::MAX
}

/// Whether some column has its topmost block at or below the subchunk.
pub open spec fn some_top_at_or_below(sub_idx: i8, column: ChunkColumn) -> bool {
    exists|x: int, z: int| 0 <= x < 16 && 0 <= z < 16 && sub_idx >= #[trigger] top_index(column, x, z)
}

/// Whether some column has its topmost block at or above the subchunk.
pub open spec fn some_top_at_or_above(sub_idx: i8, column: ChunkColumn) -> bool {
    exists|x: int, z: int| 0 <= x < 16 && 0 <= z < 16 && sub_idx <= #[trigger] top_index(column, x, z)
}

/// The heightmap type for a subchunk: too low when no column's top is at or
/// below it, too high when no column's top is at or above it, otherwise
/// sent with data.
pub open spec fn spec_map_type(sub_idx: i8, column: ChunkColumn) -> HeightmapType {
    if !some_top_at_or_below(sub_idx, column) {
        HeightmapType::TooLow
    } else if !some_top_at_or_above(sub_idx, column) {
        HeightmapType::TooHigh
    } else {
        HeightmapType::WithData
    }
}

/// The heightmap data for a subchunk, entry `z << 4 | x` for column `(x, z)`.
pub open spec fn spec_entries(sub_idx: i8, column: ChunkColumn) -> Seq<i8> {
    Seq::new(256, |b: int| entry_value(sub_idx, column, b % 16, b / 16))
}

/// Law: a heightmap entry says where the column's topmost block lies
/// relative to the subchunk: `-1` when it lies in a lower subchunk, `16` when
/// it lies in a higher one. Where the block's height above the column's range
/// start is known to be below 2048 and not negative, the subchunk holding it is
/// that height divided by 16, the entry is `-1` or `16` only in those cases,
/// and in this subchunk it is the height within the subchunk.
pub proof fn lemma_entry_direction(sub_idx: i8, column: ChunkColumn, x: int, z: int)
    requires
        column.wf(),
        0 <= x < 16,
        0 <= z < 16,
    ensures
        top_index(column, x, z) < sub_idx ==> entry_value(sub_idx, column, x, z) == -1,
        top_index(column, x, z) > sub_idx ==> entry_value(sub_idx, column, x, z) == 16,
        ({
            let rel = column.heights()[16 * x + z] - column.spec_range().start;
            0 <= rel < 2048 ==> {
                &&& top_index(column, x, z) == rel / 16
                &&& (entry_value(sub_idx, column, x, z) == -1 <==> rel / 16 < sub_idx)
                &&& (entry_value(sub_idx, column, x, z) == 16 <==> rel / 16 > sub_idx)
                &&& (rel / 16 == sub_idx ==> entry_value(sub_idx, column, x, z) == rel % 16)
            }
        }),
{
    let rel = column.heights()[16 * x + z] - column.spec_range().start;
    if 0 <= rel < 2048 {
        assert(0 <= rel / 16 < 128);
        assert(div_trunc(rel, 16) == rel / 16);
        assert(top_index(column, x, z) == rel / 16);
        if rel / 16 == sub_idx {
            assert(index_base(sub_idx, column.spec_range().start) == sub_idx * 16 + column.spec_range().start);
            assert(rel - 16 * (rel / 16) == rel % 16);
            assert(0 <= rel % 16 < 16);
        }
    }
}

/// Law: a subchunk's heightmap is too low exactly when every column's
/// topmost block lies in a higher subchunk, and too high exactly when every
/// column's topmost block lies in a lower subchunk.
pub proof fn lemma_map_type_tops(sub_idx: i8, column: ChunkColumn)
    ensures
        spec_map_type(sub_idx, column) == HeightmapType::TooLow <==> forall|x: int, z: int|
            0 <= x < 16 && 0 <= z < 16 ==> #[trigger] top_index(column, x, z) > sub_idx,
        spec_map_type(sub_idx, column) == HeightmapType::TooHigh <==> forall|x: int, z: int|
            0 <= x < 16 && 0 <= z < 16 ==> #[trigger] top_index(column, x, z) < sub_idx,
{
    if forall|x: int, z: int| 0 <= x < 16 && 0 <= z < 16 ==> #[trigger] top_index(column, x, z) < sub_idx {
        assert(sub_idx >= top_index(column, 0, 0));
        assert(some_top_at_or_below(sub_idx, column));
    }
    if spec_map_type(sub_idx, column) == HeightmapType::TooHigh {
        assert forall|x: int, z: int| 0 <= x < 16 && 0 <= z < 16 implies #[trigger] top_index(column, x, z) < sub_idx by {
            if top_index(column, x, z) >= sub_idx {
                assert(some_top_at_or_above(sub_idx, column));
            }
        }
    }
    if spec_map_type(sub_idx, column) == HeightmapType::TooLow {
        assert forall|x: int, z: int| 0 <= x < 16 && 0 <= z < 16 implies #[trigger] top_index(column, x, z) > sub_idx by {
            if top_index(column, x, z) <= sub_idx {
                assert(some_top_at_or_below(sub_idx, column));
            }
        }
    }
}

impl Heightmap {
    /// Creates a new heightmap for the given subchunk.
    pub fn new(subchunk_idx: i8, full_chunk: &ChunkColumn) -> (h: Heightmap)
        requires
            full_chunk.wf(),
            forall|x: int, z: int| 0 <= x < 16 && 0 <= z < 16 ==> #[trigger] entry_ok(subchunk_idx, *full_chunk, x, z),
        ensures
            h.map_type == spec_map_type(subchunk_idx, *full_chunk),
            h.map_type == HeightmapType::WithData ==> (h.data matches Some(d) && d@ == spec_entries(subchunk_idx, *full_chunk)),
            h.map_type != HeightmapType::WithData ==> h.data is None,
            h.map_type == HeightmapType::WithData ==> (h.data matches Some(d) && forall|x: int, z: int|
                0 <= x < 16 && 0 <= z < 16 ==> {
                    &&& #[trigger] top_index(*full_chunk, x, z) < subchunk_idx ==> d@[16 * z + x] == -1
                    &&& top_index(*full_chunk, x, z) > subchunk_idx ==> d@[16 * z + x] == 16
                }),
            h.map_type == HeightmapType::TooLow <==> forall|x: int, z: int|
                0 <= x < 16 && 0 <= z < 16 ==> #[trigger] top_index(*full_chunk, x, z) > subchunk_idx,
            h.map_type == HeightmapType::TooHigh <==> forall|x: int, z: int|
                0 <= x < 16 && 0 <= z < 16 ==> #[trigger] top_index(*full_chunk, x, z) < subchunk_idx,
    {
        let ghost col = *full_chunk;
        let mut heightmap: Vec<i8> = Vec::new();
        let mut i: usize = 0;
        while i < 256
            invariant
                i <= 256,
                heightmap@.len() == i,
            decreases 256 - i,
        {
            heightmap.push(0);
            i = i + 1;
        }
        // Whether at least one of the columns has a topmost block that lies below this subchunk.
        let mut above_top = false;
        // Whether at least one of the columns has a topmost block that lies above this subchunk.
        let mut below_top = false;
        let mut x: u8 = 0;
        while x < 16
            invariant
                x <= 16,
                heightmap@.len() == 256,
                col == *full_chunk,
                full_chunk.wf(),
                forall|xx: int, zz: int| 0 <= xx < 16 && 0 <= zz < 16 ==> #[trigger] entry_ok(subchunk_idx, col, xx, zz),
                forall|xx: int, zz: int|
                    0 <= xx < x && 0 <= zz < 16 ==> heightmap@[16 * zz + xx] == #[trigger] entry_value(subchunk_idx, col, xx, zz),
                above_top <==> exists|xx: int, zz: int| 0 <= xx < x && 0 <= zz < 16 && subchunk_idx >= #[trigger] top_index(col, xx, zz),
                below_top <==> exists|xx: int, zz: int| 0 <= xx < x && 0 <= zz < 16 && subchunk_idx <= #[trigger] top_index(col, xx, zz),
            decreases 16 - x,
        {
            let mut z: u8 = 0;
            while z < 16
                invariant
                    x < 16,
                    z <= 16,
                    heightmap@.len() == 256,
                    col == *full_chunk,
                    full_chunk.wf(),
                    forall|xx: int, zz: int| 0 <= xx < 16 && 0 <= zz < 16 ==> #[trigger] entry_ok(subchunk_idx, col, xx, zz),
                    forall|xx: int, zz: int|
                        (0 <= xx < x && 0 <= zz < 16) || (xx == x && 0 <= zz < z) ==> heightmap@[16 * zz + xx] == #[trigger] entry_value(subchunk_idx, col, xx, zz),
                    above_top <==> exists|xx: int, zz: int|
                        ((0 <= xx < x && 0 <= zz < 16) || (xx == x && 0 <= zz < z)) && subchunk_idx >= #[trigger] top_index(col, xx, zz),
                    below_top <==> exists|xx: int, zz: int|
                        ((0 <= xx < x && 0 <= zz < 16) || (xx == x && 0 <= zz < z)) && subchunk_idx <= #[trigger] top_index(col, xx, zz),
                decreases 16 - z,
            {
                // Index of coordinate in current subchunk.
                let block_idx: usize = ((z as usize) << 4usize) | (x as usize);
                assert(block_idx == 16 * z + x) by (bit_vector)
                    requires
                        block_idx == ((z as usize) << 4usize) | (x as usize),
                        x < 16,
                        z < 16,
                ;
                assert(entry_ok(subchunk_idx, col, x as int, z as int));
                // Y-coordinate of highest block in column.
                let y = full_chunk.heightmap()[16 * (x as usize) + (z as usize)];
                // Index of subchunk that the highest block is located in.
                let other_idx = full_chunk.y_to_index(y);
                assert(other_idx == top_index(col, x as int, z as int));
                if subchunk_idx > other_idx {
                    // Topmost block is located below current subchunk.
                    heightmap.set(block_idx, -1);
                    above_top = true;
                } else if subchunk_idx < other_idx {
                    // Topmost block is located above current subchunk.
                    heightmap.set(block_idx, 16);
                    below_top = true;
                } else {
                    // Topmost block is located in current subchunk.
                    let base = full_chunk.index_to_y(other_idx);
                    heightmap.set(block_idx, (y - base) as i8);
                    above_top = true;
                    below_top = true;
                }
                assert(heightmap@[16 * z + x] == entry_value(subchunk_idx, col, x as int, z as int));
                z = z + 1;
            }
            x = x + 1;
        }
        assert(above_top == some_top_at_or_below(subchunk_idx, col));
        assert(below_top == some_top_at_or_above(subchunk_idx, col));
        proof {
            lemma_map_type_tops(subchunk_idx, col);
        }
        let mut map_type = HeightmapType::WithData;
        if !above_top {
            // All topmost blocks in this chunk column are located above this subchunk,
            // there is no point in sending heightmap data.
            map_type = HeightmapType::TooLow;
        } else if !below_top {
            // All topmost blocks in this chunk column are located below this subchunk,
            // there is no point in sending heightmap data.
            map_type = HeightmapType::TooHigh;
        }
        let data = match map_type {
            HeightmapType::WithData => {
                assert(heightmap@ =~= spec_entries(subchunk_idx, col)) by {
                    assert forall|b: int| 0 <= b < 256 implies heightmap@[b] == spec_entries(subchunk_idx, col)[b] by {
                        let xx = b % 16;
                        let zz = b / 16;
                        assert(b == 16 * zz + xx);
                        assert(heightmap@[16 * zz + xx] == entry_value(subchunk_idx, col, xx, zz));
                    }
                }
                assert forall|xx: int, zz: int| 0 <= xx < 16 && 0 <= zz < 16 implies {
                    &&& #[trigger] top_index(col, xx, zz) < subchunk_idx ==> heightmap@[16 * zz + xx] == -1
                    &&& top_index(col, xx, zz) > subchunk_idx ==> heightmap@[16 * zz + xx] == 16
                } by {
                    lemma_entry_direction(subchunk_idx, col, xx, zz);
                    assert(heightmap@[16 * zz + xx] == entry_value(subchunk_idx, col, xx, zz));
                }
                Some(heightmap)
            },
            _ => None,
        };
        Heightmap { map_type, data }
    }
}

} // verus!

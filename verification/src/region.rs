//! Box-shaped regions of subchunks and iteration over them.
use vstd::prelude::*;
use std::sync::Arc;
use crate::coords::Vector3;

verus! {

/// The smaller of two integers.
pub open spec fn min_i(a: int, b: int) -> int {
    if a <= b {
        a
    } else {
        b
    }
}

/// The larger of two integers.
pub open spec fn max_i(a: int, b: int) -> int {
    if a >= b {
        a
    } else {
        b
    }
}

/// A half-open range of coordinates `start..end` along one axis.
#[derive(Debug, Clone, Copy, PartialEq, Eq, Structural)]
pub struct Span {
    pub start: i32,
    pub end: i32,
}

impl Span {
    /// Number of coordinates in the range (zero when it is empty).
    pub open spec fn spec_len(&self) -> nat {
        if self.end > self.start {
            (self.end - self.start) as nat
        } else {
            0
        }
    }

    /// Whether `v` lies in the range.
    pub open spec fn spec_contains(&self, v: int) -> bool {
        self.start <= v < self.end
    }

    /// The range `lo..hi + 1` spanned by two bounds, whichever order they come in.
    pub open spec fn between(a: i32, b: i32) -> Span {
        Span { start: min_i(a as int, b as int) as i32, end: (max_i(a as int, b as int) + 1) as i32 }
    }

    /// Number of coordinates in the range.
    pub fn len(&self) -> (n: usize)
        ensures
            n == self.spec_len(),
    {
        if self.end > self.start {
            let d: i64 = self.end as i64 - self.start as i64;
            d as usize
        } else {
            0
        }
    }

    /// Whether `v` lies in the range.
    pub fn contains(&self, v: i32) -> (b: bool)
        ensures
            b == self.spec_contains(v as int),
    {
        self.start <= v && v < self.end
    }

    fn between_exec(a: i32, b: i32) -> (s: Span)
        requires
            a < i32::MAX,
            b < i32::MAX,
        ensures
            s == Span::between(a, b),
            s.spec_len() == max_i(a as int, b as int) - min_i(a as int, b as int) + 1,
    {
        let lo = if a <= b { a } else { b };
        let hi = if a >= b { a } else { b };
        Span { start: lo, end: hi + 1 }
    }
}

/// The region covered by two corner bounds: along each axis, from the
/// smaller to the larger coordinate, both included.
pub open spec fn spans_between(b1: Vector3, b2: Vector3) -> (Span, Span, Span) {
    (Span::between(b1.x, b2.x), Span::between(b1.y, b2.y), Span::between(b1.z, b2.z))
}

/// Whether both bounds have every component below `i32::MAX` (the upper
/// end of each range is one past the larger bound).
pub open spec fn bounds_fit(b1: Vector3, b2: Vector3) -> bool {
    b1.x < i32::MAX && b2.x < i32::MAX && b1.y < i32::MAX && b2.y < i32::MAX && b1.z < i32::MAX
        && b2.z < i32::MAX
}

/// Whether a span built from bounds is well formed: non-empty.
pub open spec fn span_wf(s: Span) -> bool {
    s.start < s.end
}

/// The coordinate at position `index` of the box spanned by `x`, `y` and
/// `z`: x varies fastest, then y, then z, each counted from the start of its
/// range. The components are narrowed to `i32`, which only changes those of
/// indexes past the end of the box.
pub open spec fn coord_of(index: usize, x: Span, y: Span, z: Span) -> Vector3 {
    let xl = x.spec_len() as int;
    let yl = y.spec_len() as int;
    let i = index as int;
    Vector3 {
        x: (x.start + i % xl) as i32,
        y: (y.start + (i / xl) % yl) as i32,
        z: (z.start + i / xl / yl) as i32,
    }
}

/// The position of a coordinate in the box spanned by `x`, `y` and `z`, the
/// inverse of `coord_of` on the box's coordinates.
pub open spec fn index_value(c: Vector3, x: Span, y: Span, z: Span) -> int {
    (c.x - x.start) + x.spec_len() * ((c.y - y.start) + y.spec_len() * (c.z - z.start))
}

/// The index that the unchecked conversion gives for a coordinate: its
/// position narrowed to `usize`, which only changes the index of a
/// coordinate outside the box.
pub open spec fn index_of(c: Vector3, x: Span, y: Span, z: Span) -> usize {
    index_value(c, x, y, z) as usize
}

/// Whether a coordinate lies in the box spanned by `x`, `y` and `z`.
pub open spec fn in_box(c: Vector3, x: Span, y: Span, z: Span) -> bool {
    x.spec_contains(c.x as int) && y.spec_contains(c.y as int) && z.spec_contains(c.z as int)
}

proof fn lemma_span_len_bound(s: Span)
    requires
        span_wf(s),
    ensures
        1 <= s.spec_len() < 0x1_0000_0000,
        s.spec_len() <= usize::MAX,
{
}

/// Law: every position below the size of a box gives a coordinate in the
/// box, and the position of that coordinate is the position it came from.
pub proof fn lemma_box_coord_then_index(index: usize, x: Span, y: Span, z: Span)
    requires
        span_wf(x),
        span_wf(y),
        span_wf(z),
        index < x.spec_len() * y.spec_len() * z.spec_len(),
    ensures
        in_box(coord_of(index, x, y, z), x, y, z),
        index_value(coord_of(index, x, y, z), x, y, z) == index,
{
    let xl = x.spec_len() as int;
    let yl = y.spec_len() as int;
    let zl = z.spec_len() as int;
    let i = index as int;
    let rx = i % xl;
    let q = i / xl;
    let ry = q % yl;
    let rz = q / yl;
    vstd::arithmetic::div_mod::lemma_fundamental_div_mod(i, xl);
    vstd::arithmetic::div_mod::lemma_fundamental_div_mod(q, yl);
    assert(0 <= rx < xl);
    assert(0 <= ry < yl);
    assert(0 <= q) by {
        vstd::arithmetic::div_mod::lemma_div_pos_is_pos(i, xl);
    }
    assert(0 <= rz) by {
        vstd::arithmetic::div_mod::lemma_div_pos_is_pos(q, yl);
    }
    assert(rz < zl) by (nonlinear_arith)
        requires
            i == xl * q + rx,
            q == yl * rz + ry,
            0 <= rx,
            0 <= ry,
            xl >= 1,
            yl >= 1,
            i < xl * yl * zl,
    {
        if rz >= zl {
            assert(q >= yl * zl);
            assert(i >= xl * (yl * zl));
        }
    }
    let c = coord_of(index, x, y, z);
    assert(c.x == x.start + rx);
    assert(c.y == y.start + ry);
    assert(c.z == z.start + rz);
    assert(index_value(c, x, y, z) == rx + xl * (ry + yl * rz));
}

/// Law: every coordinate in a box has a position below the size of the box,
/// and the coordinate at that position is the coordinate itself.
pub proof fn lemma_box_index_then_coord(c: Vector3, x: Span, y: Span, z: Span)
    requires
        span_wf(x),
        span_wf(y),
        span_wf(z),
        in_box(c, x, y, z),
        x.spec_len() * y.spec_len() * z.spec_len() <= usize::MAX,
    ensures
        0 <= index_value(c, x, y, z) < x.spec_len() * y.spec_len() * z.spec_len(),
        coord_of(index_of(c, x, y, z), x, y, z) == c,
{
    let xl = x.spec_len() as int;
    let yl = y.spec_len() as int;
    let zl = z.spec_len() as int;
    let dx = c.x - x.start;
    let dy = c.y - y.start;
    let dz = c.z - z.start;
    let inner = dy + yl * dz;
    let v = dx + xl * inner;
    assert(0 <= inner <= yl * zl - 1) by (nonlinear_arith)
        requires
            0 <= dy < yl,
            0 <= dz < zl,
            inner == dy + yl * dz,
    ;
    assert(0 <= v <= xl * yl * zl - 1) by (nonlinear_arith)
        requires
            0 <= dx < xl,
            0 <= inner <= yl * zl - 1,
            v == dx + xl * inner,
    ;
    assert(v == index_value(c, x, y, z));
    let index = v as usize;
    assert(index as int == v);
    vstd::arithmetic::div_mod::lemma_fundamental_div_mod_converse(v, xl, inner, dx);
    vstd::arithmetic::div_mod::lemma_fundamental_div_mod_converse(inner, yl, dz, dy);
}

/// Converts `index` to a coordinate of the box spanned by `x`, `y` and `z`.
fn coord_unchecked(index: usize, x: Span, y: Span, z: Span) -> (v: Vector3)
    requires
        span_wf(x),
        span_wf(y),
        span_wf(z),
    ensures
        v == coord_of(index, x, y, z),
{
    proof {
        lemma_span_len_bound(x);
        lemma_span_len_bound(y);
    }
    let xl = x.len();
    let yl = y.len();
    let rx = index % xl;
    let q = index / xl;
    let ry = q % yl;
    let rz = q / yl;
    let cx = (x.start as i64 + rx as i64) as i32;
    let cy = (y.start as i64 + ry as i64) as i32;
    let cz = (z.start as i128 + rz as i128) as i32;
    Vector3 { x: cx, y: cy, z: cz }
}

/// Converts a coordinate to its position in the box spanned by `x`, `y` and
/// `z`.
fn index_unchecked(c: &Vector3, x: Span, y: Span, z: Span) -> (i: usize)
    requires
        span_wf(x),
        span_wf(y),
        span_wf(z),
    ensures
        i == index_of(*c, x, y, z),
{
    proof {
        lemma_span_len_bound(x);
        lemma_span_len_bound(y);
    }
    let xl = x.len() as i128;
    let yl = y.len() as i128;
    let dx = c.x as i128 - x.start as i128;
    let dy = c.y as i128 - y.start as i128;
    let dz = c.z as i128 - z.start as i128;
    let b: i128 = 0x1_0000_0000;
    assert(-b * b <= yl * dz <= b * b) by (nonlinear_arith)
        requires
            0 <= yl < b,
            -b <= dz <= b,
            b == 0x1_0000_0000,
    ;
    let inner = dy + yl * dz;
    assert(-4 * b * b * b <= xl * inner <= 4 * b * b * b) by (nonlinear_arith)
        requires
            0 <= xl < b,
            -4 * b * b <= inner <= 4 * b * b,
            b == 0x1_0000_0000,
    ;
    let v = dx + xl * inner;
    proof {
        assert(v == index_value(*c, x, y, z));
    }
    v as usize
}
/// A region representing the box between two coordinates.
#[derive(Clone, Copy, Debug, PartialEq, Eq, Structural)]
pub struct BoxRegion {
    xrange: Span,
    yrange: Span,
    zrange: Span,
}

impl BoxRegion {
    /// The range along each axis.
    pub closed spec fn spans(&self) -> (Span, Span, Span) {
        (self.xrange, self.yrange, self.zrange)
    }

    /// The number of subchunks in the region.
    pub open spec fn spec_len(&self) -> nat {
        self.spans().0.spec_len() * self.spans().1.spec_len() * self.spans().2.spec_len()
    }

    /// Whether a coordinate lies in the region.
    pub open spec fn spec_contains(&self, c: Vector3) -> bool {
        in_box(c, self.spans().0, self.spans().1, self.spans().2)
    }

    /// The coordinate at position `index` of the region.
    pub open spec fn spec_coord(&self, index: usize) -> Vector3 {
        coord_of(index, self.spans().0, self.spans().1, self.spans().2)
    }

    /// The position of a coordinate in the region.
    pub open spec fn spec_index(&self, c: Vector3) -> usize {
        index_of(c, self.spans().0, self.spans().1, self.spans().2)
    }

    /// Whether the region's axes are well formed (each range non-empty).
    pub open spec fn wf(&self) -> bool {
        span_wf(self.spans().0) && span_wf(self.spans().1) && span_wf(self.spans().2)
    }

    /// Creates a region query using two corner coordinates.
    ///
    /// The region will represent the box between these two corners.
    /// The given bounds should be in subchunk coordinates.
    pub fn from_bounds(bound1: Vector3, bound2: Vector3) -> (r: BoxRegion)
        requires
            bounds_fit(bound1, bound2),
        ensures
            r.spans() == spans_between(bound1, bound2),
            r.wf(),
    {
        Self::from_bounds_inner(bound1, bound2)
    }

    fn from_bounds_inner(bound1: Vector3, bound2: Vector3) -> (r: BoxRegion)
        requires
            bounds_fit(bound1, bound2),
        ensures
            r.spans() == spans_between(bound1, bound2),
            r.wf(),
    {
        let xrange = Span::between_exec(bound1.x, bound2.x);
        let yrange = Span::between_exec(bound1.y, bound2.y);
        let zrange = Span::between_exec(bound1.z, bound2.z);
        BoxRegion { xrange, yrange, zrange }
    }

    /// Converts an index to a coordinate within this region, without checking
    /// for bounds.
    ///
    /// Using an index out of bounds will simply return a coordinate outside of the region.
    pub fn as_coord_unchecked(&self, index: usize) -> (v: Vector3)
        requires
            self.wf(),
        ensures
            v == self.spec_coord(index),
    {
        coord_unchecked(index, self.xrange, self.yrange, self.zrange)
    }

    /// Converts a coordinate to an index within this region, without checking
    /// for bounds.
    ///
    /// Using a coordinate out of bounds will simply return a index outside of the region.
    pub fn as_index_unchecked(&self, coord: &Vector3) -> (i: usize)
        requires
            self.wf(),
        ensures
            i == self.spec_index(*coord),
    {
        index_unchecked(coord, self.xrange, self.yrange, self.zrange)
    }

    /// Converts a coordinate within this region to an index, ensuring
    /// that the coordinate is not out of bounds.
    pub fn as_index(&self, coord: &Vector3) -> (i: Option<usize>)
        requires
            self.wf(),
        ensures
            !self.spec_contains(*coord) ==> i is None,
            self.spec_contains(*coord) ==> i == Some(self.spec_index(*coord)),
    {
        if !self.xrange.contains(coord.x) || !self.yrange.contains(coord.y) || !self.zrange.contains(
            coord.z,
        ) {
            return None;
        }
        Some(self.as_index_unchecked(coord))
    }

    /// Converts an index to a coordinate within this region, ensuring
    /// that the index is not out of bounds.
    pub fn as_coord(&self, index: usize) -> (v: Option<Vector3>)
        requires
            self.wf(),
            self.spec_len() <= usize::MAX,
        ensures
            index >= self.spec_len() ==> v is None,
            index < self.spec_len() ==> v == Some(self.spec_coord(index)),
    {
        if index < self.len() {
            Some(self.as_coord_unchecked(index))
        } else {
            None
        }
    }

    /// The amount of subchunks contained in this region.
    pub fn len(&self) -> (n: usize)
        requires
            self.spec_len() <= usize::MAX,
        ensures
            n == self.spec_len(),
    {
        product_len(self.xrange, self.yrange, self.zrange)
    }
}

/// The product of the lengths of three spans.
fn product_len(x: Span, y: Span, z: Span) -> (n: usize)
    requires
        x.spec_len() * y.spec_len() * z.spec_len() <= usize::MAX,
    ensures
        n == x.spec_len() * y.spec_len() * z.spec_len(),
{
    let a = x.len();
    let b = y.len();
    let c = z.len();
    if a == 0 || b == 0 || c == 0 {
        assert(a as int * b as int * c as int == 0) by (nonlinear_arith)
            requires
                a == 0 || b == 0 || c == 0,
        ;
        return 0;
    }
    assert(a as int * b as int <= a as int * b as int * c as int) by (nonlinear_arith)
        requires
            a >= 1,
            b >= 1,
            c >= 1,
    ;
    a * b * c
}

/// Law: the positions of a box region and its coordinates correspond one
/// to one: each position below the region's length gives a coordinate in
/// the region whose position it is, and each coordinate in the region has a
/// position below the length that gives it back. So the length counts
/// exactly the coordinates that `as_index` accepts.
pub proof fn lemma_box_positions(r: BoxRegion, index: usize, c: Vector3)
    requires
        r.wf(),
        r.spec_len() <= usize::MAX,
    ensures
        index < r.spec_len() ==> r.spec_contains(r.spec_coord(index)) && r.spec_index(
            r.spec_coord(index),
        ) == index,
        r.spec_contains(c) ==> r.spec_index(c) < r.spec_len() && r.spec_coord(r.spec_index(c)) == c,
{
    let (x, y, z) = r.spans();
    if index < r.spec_len() {
        lemma_box_coord_then_index(index, x, y, z);
    }
    if r.spec_contains(c) {
        lemma_box_index_then_coord(c, x, y, z);
    }
}

/// Law: the region between two bounds does not depend on their order.
pub proof fn lemma_bounds_symmetric(b1: Vector3, b2: Vector3)
    ensures
        spans_between(b1, b2) == spans_between(b2, b1),
{
}

/// Law: the region between two bounds holds `(|dx| + 1) * (|dy| + 1) * (|dz| + 1)`
/// subchunks and contains both bounds.
pub proof fn lemma_bounds_len_contains(b1: Vector3, b2: Vector3)
    requires
        bounds_fit(b1, b2),
    ensures
        ({
            let (x, y, z) = spans_between(b1, b2);
            &&& x.spec_len() * y.spec_len() * z.spec_len() == (max_i(b1.x as int, b2.x as int)
                - min_i(b1.x as int, b2.x as int) + 1) * (max_i(b1.y as int, b2.y as int) - min_i(
                b1.y as int,
                b2.y as int,
            ) + 1) * (max_i(b1.z as int, b2.z as int) - min_i(b1.z as int, b2.z as int) + 1)
            &&& x.spec_contains(b1.x as int) && y.spec_contains(b1.y as int) && z.spec_contains(b1.z as int)
            &&& x.spec_contains(b2.x as int) && y.spec_contains(b2.y as int) && z.spec_contains(b2.z as int)
        }),
{
}

/// A query that requests a certain region of subchunks from the level provider.
#[derive(Clone, Copy, Debug, PartialEq, Eq, Structural)]
pub struct RegionQuery {
    xrange: Span,
    yrange: Span,
    zrange: Span,
}

impl RegionQuery {
    /// The range along each axis.
    pub closed spec fn spans(&self) -> (Span, Span, Span) {
        (self.xrange, self.yrange, self.zrange)
    }

    /// The number of subchunks in the region.
    pub open spec fn spec_len(&self) -> nat {
        self.spans().0.spec_len() * self.spans().1.spec_len() * self.spans().2.spec_len()
    }

    /// Whether the axes are well formed (each range non-empty).
    pub open spec fn wf(&self) -> bool {
        span_wf(self.spans().0) && span_wf(self.spans().1) && span_wf(self.spans().2)
    }

    /// Whether a coordinate lies in the region.
    pub open spec fn spec_contains(&self, c: Vector3) -> bool {
        in_box(c, self.spans().0, self.spans().1, self.spans().2)
    }

    /// The coordinate at position `index` of the region.
    pub open spec fn spec_get(&self, index: usize) -> Vector3 {
        coord_of(index, self.spans().0, self.spans().1, self.spans().2)
    }

    /// Creates an iterator over this region using the given level provider.
    ///
    /// The iterator yields the coordinate at every position from zero up to
    /// (not including) the length of the region.
    pub fn iter<P>(&self, provider: Arc<P>) -> (it: RegionIter<P>)
        requires
            self.spec_len() <= usize::MAX,
        ensures
            it.query() == *self,
            it.front() == 0,
            it.back() == self.spec_len(),
            it.spec_len() == self.spec_len(),
            it.spec_provider() == provider,
    {
        RegionIter { provider, front_index: 0, back_index: self.len(), region: *self }
    }

    /// Creates a region query using two corner coordinates.
    ///
    /// The region will represent the box between these two corners.
    /// The given bounds should be in subchunk coordinates.
    pub fn from_bounds(bound1: Vector3, bound2: Vector3) -> (r: RegionQuery)
        requires
            bounds_fit(bound1, bound2),
        ensures
            r.spans() == spans_between(bound1, bound2),
            r.wf(),
    {
        let xrange = Span::between_exec(bound1.x, bound2.x);
        let yrange = Span::between_exec(bound1.y, bound2.y);
        let zrange = Span::between_exec(bound1.z, bound2.z);
        RegionQuery { xrange, yrange, zrange }
    }

    /// Converts an index to a coordinate within this region, without checking
    /// for bounds.
    ///
    /// Using an index out of bounds will simply return a coordinate outside of the region.
    pub fn get_unchecked(&self, index: usize) -> (v: Vector3)
        requires
            self.wf(),
        ensures
            v == self.spec_get(index),
    {
        coord_unchecked(index, self.xrange, self.yrange, self.zrange)
    }

    /// Converts an index to a coordinate within this region, ensuring
    /// that the index is not out of bounds.
    pub fn get(&self, index: usize) -> (v: Option<Vector3>)
        requires
            self.wf(),
            self.spec_len() <= usize::MAX,
        ensures
            index >= self.spec_len() ==> v is None,
            index < self.spec_len() ==> v == Some(self.spec_get(index)),
    {
        if index < self.len() {
            Some(self.get_unchecked(index))
        } else {
            None
        }
    }

    /// The amount of subchunks contained in this region.
    pub fn len(&self) -> (n: usize)
        requires
            self.spec_len() <= usize::MAX,
        ensures
            n == self.spec_len(),
    {
        product_len(self.xrange, self.yrange, self.zrange)
    }
}

/// Law: every position below the length of a query gives a coordinate in
/// the queried region, distinct positions give distinct coordinates, and
/// every coordinate of the region is given by some position. So iterating
/// a query from the front (or the back) yields each coordinate of the region
/// exactly once.
pub proof fn lemma_query_covers(q: RegionQuery, i: usize, j: usize, c: Vector3)
    requires
        q.wf(),
        q.spec_len() <= usize::MAX,
    ensures
        i < q.spec_len() ==> q.spec_contains(q.spec_get(i)),
        i < q.spec_len() && j < q.spec_len() && i != j ==> q.spec_get(i) != q.spec_get(j),
        q.spec_contains(c) ==> exists|k: usize| k < q.spec_len() && #[trigger] q.spec_get(k) == c,
{
    let (x, y, z) = q.spans();
    if i < q.spec_len() {
        lemma_box_coord_then_index(i, x, y, z);
    }
    if j < q.spec_len() {
        lemma_box_coord_then_index(j, x, y, z);
    }
    if q.spec_contains(c) {
        lemma_box_index_then_coord(c, x, y, z);
        let k = index_of(c, x, y, z);
        assert(q.spec_get(k) == c);
    }
}

/// An iterator that iterates over every single subchunk coordinate within a region.
pub struct RegionIter<P> {
    region: RegionQuery,
    front_index: usize,
    back_index: usize,
    provider: Arc<P>,
}

impl<P> RegionIter<P> {
    /// The region being iterated.
    pub closed spec fn query(&self) -> RegionQuery {
        self.region
    }

    /// Index of the next coordinate yielded from the front.
    pub closed spec fn front(&self) -> usize {
        self.front_index
    }

    /// End index of the coordinates still to be yielded.
    pub closed spec fn back(&self) -> usize {
        self.back_index
    }

    /// The level provider the iterator was created with.
    pub closed spec fn spec_provider(&self) -> Arc<P> {
        self.provider
    }

    /// Number of coordinates left (zero once the front passes the back).
    pub open spec fn spec_len(&self) -> nat {
        if self.back() >= self.front() {
            (self.back() - self.front()) as nat
        } else {
            0
        }
    }

    /// Number of coordinates left.
    pub fn len(&self) -> (n: usize)
        ensures
            n == self.spec_len(),
    {
        if self.back_index >= self.front_index {
            self.back_index - self.front_index
        } else {
            0
        }
    }

    /// Yields the coordinate at the front and advances it.
    pub fn next(&mut self) -> (v: Option<Vector3>)
        requires
            old(self).query().wf(),
        ensures
            final(self).query() == old(self).query(),
            final(self).spec_provider() == old(self).spec_provider(),
            final(self).back() == old(self).back(),
            old(self).spec_len() == 0 ==> v is None && final(self).front() == old(self).front(),
            old(self).spec_len() > 0 ==> {
                &&& v == Some(old(self).query().spec_get(old(self).front()))
                &&& final(self).front() == old(self).front() + 1
                &&& final(self).spec_len() == old(self).spec_len() - 1
            },
    {
        if self.len() > 0 {
            self.front_index = self.front_index + 1;
            Some(self.region.get_unchecked(self.front_index - 1))
        } else {
            None
        }
    }

    /// Skips `n` coordinates at the front, then yields the next one.
    pub fn nth(&mut self, n: usize) -> (v: Option<Vector3>)
        requires
            old(self).query().wf(),
            old(self).front() + n <= usize::MAX,
        ensures
            final(self).query() == old(self).query(),
            final(self).spec_provider() == old(self).spec_provider(),
            final(self).back() == old(self).back(),
            old(self).back() <= old(self).front() + n ==> v is None && final(self).front() == old(self).front() + n,
            old(self).back() > old(self).front() + n ==> {
                &&& v == Some(old(self).query().spec_get((old(self).front() + n) as usize))
                &&& final(self).front() == old(self).front() + n + 1
            },
    {
        self.front_index = self.front_index + n;
        self.next()
    }

    /// Yields the last coordinate left and moves the back one step down.
    pub fn next_back(&mut self) -> (v: Option<Vector3>)
        requires
            old(self).query().wf(),
        ensures
            final(self).query() == old(self).query(),
            final(self).spec_provider() == old(self).spec_provider(),
            final(self).front() == old(self).front(),
            old(self).spec_len() == 0 ==> v is None && final(self).back() == old(self).back(),
            old(self).spec_len() > 0 ==> {
                &&& v == Some(old(self).query().spec_get((old(self).back() - 1) as usize))
                &&& final(self).back() == old(self).back() - 1
                &&& final(self).spec_len() == old(self).spec_len() - 1
            },
    {
        if self.len() > 0 {
            self.back_index = self.back_index - 1;
            Some(self.region.get_unchecked(self.back_index))
        } else {
            None
        }
    }

    /// Skips `n` coordinates at the back, then yields the last one left.
    /// When no more than `n` coordinates are left, the iterator is used up
    /// and gives `None`.
    pub fn nth_back(&mut self, n: usize) -> (v: Option<Vector3>)
        requires
            old(self).query().wf(),
        ensures
            final(self).query() == old(self).query(),
            final(self).spec_provider() == old(self).spec_provider(),
            final(self).front() == old(self).front(),
            old(self).spec_len() <= n ==> v is None && final(self).spec_len() == 0,
            old(self).spec_len() > n ==> {
                &&& v == Some(old(self).query().spec_get((old(self).back() - n - 1) as usize))
                &&& final(self).back() == old(self).back() - n - 1
                &&& final(self).spec_len() == old(self).spec_len() - n - 1
            },
    {
        if self.len() <= n {
            self.back_index = self.front_index;
            return None;
        }
        self.back_index = self.back_index - n;
        self.next_back()
    }
}

/// Produces split region iterators.
pub struct RegionProducer<P>(pub RegionIter<P>);

impl<P> RegionProducer<P> {
    /// Wraps an iterator into a producer.
    pub fn from_iter(value: RegionIter<P>) -> (p: RegionProducer<P>)
        ensures
            p.0 == value,
    {
        RegionProducer(value)
    }

    /// Turns the producer back into its iterator.
    pub fn into_iter(self) -> (it: RegionIter<P>)
        ensures
            it == self.0,
    {
        self.0
    }

    /// Splits the producer at `index` positions past its front: the left
    /// part covers `front..front + index`, the right part
    /// `front + index..back`, both over the same region and provider.
    pub fn split_at(self, index: usize) -> (parts: (RegionProducer<P>, RegionProducer<P>))
        requires
            self.0.front() + index <= usize::MAX,
        ensures
            parts.0.0.query() == self.0.query(),
            parts.1.0.query() == self.0.query(),
            parts.0.0.front() == self.0.front(),
            parts.0.0.back() == self.0.front() + index,
            parts.1.0.front() == self.0.front() + index,
            parts.1.0.back() == self.0.back(),
            parts.0.0.spec_provider() == self.0.spec_provider(),
            parts.1.0.spec_provider() == self.0.spec_provider(),
            self.0.front() + index <= self.0.back() ==> parts.0.0.spec_len() + parts.1.0.spec_len()
                == self.0.spec_len(),
    {
        let left = RegionProducer(
            RegionIter {
                region: self.0.region,
                front_index: self.0.front_index,
                back_index: self.0.front_index + index,
                provider: Arc::clone(&self.0.provider),
            },
        );
        let right = RegionProducer(
            RegionIter {
                region: self.0.region,
                front_index: self.0.front_index + index,
                back_index: self.0.back_index,
                provider: self.0.provider,
            },
        );
        (left, right)
    }
}

} // verus!

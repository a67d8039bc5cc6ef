//! Regions made of a list of single chunk coordinates.
use vstd::prelude::*;
use crate::coords::{Dimension, Vector3};

verus! {

/// Whether `i` is the position of the first occurrence of `c` in `points`.
pub open spec fn first_index(points: Seq<Vector3>, c: Vector3, i: int) -> bool {
    &&& 0 <= i < points.len()
    &&& points[i] == c
    &&& forall|j: int| 0 <= j < i ==> points[j] != c
}

/// Whether no coordinate occurs twice in `points`.
pub open spec fn all_distinct(points: Seq<Vector3>) -> bool {
    forall|j: int, k: int| 0 <= j < k < points.len() ==> points[j] != points[k]
}

/// A region consisting of a set of points.
///
/// This region can be used to request only single chunks from specific coordinates.
#[derive(Clone, Debug)]
pub struct PointRegion {
    points: Vec<Vector3>,
    dimension: Dimension,
}

impl PointRegion {
    /// The points of the region, in order.
    pub closed spec fn points_view(&self) -> Seq<Vector3> {
        self.points@
    }

    /// The dimension of the region.
    pub closed spec fn spec_dimension(&self) -> Dimension {
        self.dimension
    }

    /// Creates a point region from a set of points.
    pub fn from_points(points: Vec<Vector3>, dimension: Dimension) -> (r: PointRegion)
        ensures
            r.points_view() == points@,
            r.spec_dimension() == dimension,
    {
        PointRegion { points, dimension }
    }

    /// The point at position `index` of the region, if there is one.
    pub fn as_coord(&self, index: usize) -> (c: Option<Vector3>)
        ensures
            index < self.points_view().len() ==> c == Some(self.points_view()[index as int]),
            index >= self.points_view().len() ==> c is None,
    {
        if index < self.points.len() {
            Some(self.points[index])
        } else {
            None
        }
    }

    /// The position of the first occurrence of `coord` in the region, if it
    /// occurs.
    pub fn as_index(&self, coord: &Vector3) -> (i: Option<usize>)
        ensures
            match i {
                Some(i) => first_index(self.points_view(), *coord, i as int),
                None => !self.points_view().contains(*coord),
            },
    {
        let mut i: usize = 0;
        while i < self.points.len()
            invariant
                i <= self.points@.len(),
                forall|j: int| 0 <= j < i ==> self.points@[j] != *coord,
            decreases self.points@.len() - i,
        {
            if self.points[i] == *coord {
                return Some(i);
            }
            i += 1;
        }
        None
    }

    /// The dimension of the region.
    pub fn dimension(&self) -> (d: Dimension)
        ensures
            d == self.spec_dimension(),
    {
        self.dimension
    }

    /// The amount of points in the region.
    pub fn len(&self) -> (n: usize)
        ensures
            n == self.points_view().len(),
    {
        self.points.len()
    }
}

/// Law: in a region whose points are all distinct, looking up the point at
/// a position gives that position back.
pub proof fn lemma_point_roundtrip(points: Seq<Vector3>, i: int)
    requires
        all_distinct(points),
        0 <= i < points.len(),
    ensures
        first_index(points, points[i], i),
{
}

/// Law: the point found at the position that a lookup returns is the point
/// looked up.
pub proof fn lemma_index_then_coord(points: Seq<Vector3>, c: Vector3, i: int)
    requires
        first_index(points, c, i),
    ensures
        points[i] == c,
        points.contains(c),
{
}

} // verus!

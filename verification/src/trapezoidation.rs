//! Parts of the trapezoidal map of a polygon: its regions, and the order of
//! its vertices from top to bottom.

use crate::math::Scalar;
use vstd::prelude::*;

pub mod tree;

verus! {

/// A region of the map.
#[derive(Clone, Copy, Debug, PartialEq, Eq, Structural)]
pub struct Trapezoid {}

/// A vertex of the polygon.
#[derive(Clone, Copy, Debug, PartialEq, Eq, Hash, Structural)]
pub struct Vertex {
    pub x: Scalar,
    pub y: Scalar,
}

impl Vertex {
    /// The vertex at `(x, y)`.
    pub fn new(x: Scalar, y: Scalar) -> (v: Vertex)
        ensures
            v.x == x,
            v.y == y,
    {
        Vertex { x, y }
    }

    /// Whether this vertex comes above `other`: it is higher, or as high and
    /// further left.
    pub open spec fn above(self, other: Vertex) -> bool {
        self.y > other.y || (self.y == other.y && self.x < other.x)
    }

    /// Whether this vertex comes above `other`.
    pub fn is_upper(&self, other: &Vertex) -> (r: bool)
        ensures
            r == self.above(*other),
    {
        if self.y > other.y {
            return true;
        }
        if self.y < other.y {
            return false;
        }
        self.x < other.x
    }

    /// Whether this vertex comes below `other`.
    pub fn is_lower(&self, other: &Vertex) -> (r: bool)
        ensures
            r == other.above(*self),
    {
        other.is_upper(self)
    }
}

/// An edge of the polygon, between two of its vertices.
#[derive(Clone, Copy, Debug, PartialEq, Eq, Hash, Structural)]
pub struct Edge {
    pub a: Vertex,
    pub b: Vertex,
}

/// Above is a strict order of the vertices in which any two different ones
/// are ordered: no vertex is above itself, of two vertices at most one is
/// above the other, of two different ones one is, and a vertex above a
/// second one is above all that the second is above.
pub proof fn lemma_above_is_strict_total_order(a: Vertex, b: Vertex, c: Vertex)
    ensures
        !a.above(a),
        !(a.above(b) && b.above(a)),
        a != b ==> a.above(b) || b.above(a),
        a.above(b) && b.above(c) ==> a.above(c),
{
}

} // verus!

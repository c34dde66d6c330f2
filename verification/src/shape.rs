//! The edges of a shape, behind handles. A handle stands for the value that
//! was stored under it and gives it back unchanged.

use crate::math::{Line3, Point3, Scalar, Vector2};
use vstd::prelude::*;

verus! {

/// A stored value.
pub struct Storage<T> {
    value: T,
}

/// A handle to a stored value.
pub struct Handle<T> {
    value: T,
}

impl<T> Storage<T> {
    /// The value that is stored.
    pub closed spec fn view(&self) -> T {
        self.value
    }

    /// Stores `value`.
    pub fn new(value: T) -> (s: Storage<T>)
        ensures
            s@ == value,
    {
        Storage { value }
    }

    /// The handle to what is stored.
    pub fn handle(self) -> (h: Handle<T>)
        ensures
            h@ == self@,
    {
        Handle { value: self.value }
    }
}

impl<T> Handle<T> {
    /// The value that the handle stands for.
    pub closed spec fn view(&self) -> T {
        self.value
    }

    /// The value that the handle stands for.
    pub fn get(&self) -> (v: &T)
        ensures
            *v == self@,
    {
        &self.value
    }
}

/// A corner of a shape.
#[derive(Clone, Copy, Debug, PartialEq, Eq, Hash, Structural)]
pub struct Vertex {
    pub point: Point3,
}

impl Vertex {
    /// Where the vertex lies.
    pub fn point(&self) -> (p: Point3)
        ensures
            p == self.point,
    {
        self.point
    }
}

/// A circle in the plane of x and y, round `center`; `radius` points from
/// the center to the circle.
#[derive(Clone, Copy, Debug, PartialEq, Eq, Hash, Structural)]
pub struct Circle {
    pub center: Point3,
    pub radius: Vector2,
}

/// The shape of an edge.
#[derive(Clone, Copy, Debug, PartialEq, Eq, Hash, Structural)]
pub enum Curve {
    Line(Line3),
    Circle(Circle),
}

/// An edge of a shape: a curve, and the two vertices that bound it, if it is
/// bounded.
pub struct Edge {
    pub curve: Curve,
    pub vertices: Option<[Handle<Vertex>; 2]>,
}

/// The edges of a shape.
pub struct Edges {}

impl Edges {
    /// The edges of a shape that has none yet.
    pub fn new() -> Edges {
        Edges {  }
    }

    /// Adds an edge to the shape, and gives the handle to it.
    pub fn add(&mut self, edge: Edge) -> (h: Handle<Edge>)
        ensures
            h@ == edge,
            *final(self) == *old(self),
    {
        Storage::new(edge).handle()
    }

    /// Adds the straight edge between two vertices: on its line the first
    /// vertex has coordinate 0 and the second coordinate 1. Gives `None`,
    /// and adds nothing, where the direction of the line cannot be stored.
    pub fn create_line_segment(&mut self, vertices: [Handle<Vertex>; 2]) -> (r: Option<Handle<Edge>>)
        ensures
            *final(self) == *old(self),
            match r {
                Some(h) => {
                    &&& vertices[1]@.point.difference_fits(vertices[0]@.point)
                    &&& h@.curve == Curve::Line(
                        Line3 {
                            origin: vertices[0]@.point,
                            direction: vertices[1]@.point.difference(vertices[0]@.point),
                        },
                    )
                    &&& h@.vertices == Some(vertices)
                },
                None => !vertices[1]@.point.difference_fits(vertices[0]@.point),
            },
    {
        let a = vertices[0].get().point();
        let b = vertices[1].get().point();
        match Line3::from_points(a, b) {
            Some(line) => Some(self.add(Edge { curve: Curve::Line(line), vertices: Some(vertices) })),
            None => None,
        }
    }

    /// Adds the circle of radius `radius` round the origin, which no vertex
    /// bounds.
    pub fn create_circle(&mut self, radius: Scalar) -> (h: Handle<Edge>)
        ensures
            *final(self) == *old(self),
            h@.curve == Curve::Circle(
                Circle { center: Point3 { x: 0, y: 0, z: 0 }, radius: Vector2 { u: radius, v: 0 } },
            ),
            h@.vertices is None,
    {
        self.add(
            Edge {
                curve: Curve::Circle(
                    Circle { center: Point3::new(0, 0, 0), radius: Vector2::new(radius, 0) },
                ),
                vertices: None,
            },
        )
    }
}

} // verus!

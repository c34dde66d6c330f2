//! The entities of a boundary representation. Global entities live in space;
//! local entities live on one surface or one curve and carry the global
//! entity that they stand for.

use crate::math::{Circle2, Circle3, Line2, Line3, Point1, Point2, Point3, Vector3};
use fj_interop::mesh::Color;
use vstd::prelude::*;

verus! {

/// `fj_interop::mesh::Color`, an RGBA color. Nothing is said of what is in
/// it: the kernel only hands colors on and compares them.
#[verifier::external_type_specification]
#[verifier::external_body]
pub struct ExColor(fj_interop::mesh::Color);

/// A point in space.
#[derive(Clone, Copy, Debug, PartialEq, Eq, Hash, Structural)]
pub struct GlobalVertex {
    pub position: Point3,
}

/// The shape of a curve in space.
#[derive(Clone, Copy, Debug, PartialEq, Eq, Hash, Structural)]
pub enum GlobalPath {
    Line(Line3),
    Circle(Circle3),
}

/// A curve in space.
#[derive(Clone, Copy, Debug, PartialEq, Eq, Hash, Structural)]
pub struct GlobalCurve {
    pub path: GlobalPath,
}

/// A stretch of a curve in space, from `start` to `end`.
#[derive(Clone, Copy, Debug, PartialEq, Eq, Hash, Structural)]
pub struct GlobalEdge {
    pub curve: GlobalCurve,
    pub start: GlobalVertex,
    pub end: GlobalVertex,
}

/// A surface: the curve `u` swept along `v`. The point with surface
/// coordinates `(s, t)` is the point of `u` at `s`, moved by `t * v`.
#[derive(Clone, Copy, Debug, PartialEq, Eq, Hash, Structural)]
pub struct Surface {
    pub u: GlobalPath,
    pub v: Vector3,
}

/// The shape of a curve on a surface.
#[derive(Clone, Copy, Debug, PartialEq, Eq, Hash, Structural)]
pub enum SurfacePath {
    Line(Line2),
    Circle(Circle2),
}

/// A curve on a surface, with the curve in space that it stands for.
#[derive(Clone, Copy, Debug, PartialEq, Eq, Hash, Structural)]
pub struct Curve {
    pub surface: Surface,
    pub path: SurfacePath,
    pub global_form: GlobalCurve,
}

/// A point on a surface, with the point in space that it stands for.
#[derive(Clone, Copy, Debug, PartialEq, Eq, Hash, Structural)]
pub struct SurfaceVertex {
    pub position: Point2,
    pub surface: Surface,
    pub global_form: GlobalVertex,
}

/// A point on a curve, with the points on the surface and in space that it
/// stands for.
#[derive(Clone, Copy, Debug, PartialEq, Eq, Hash, Structural)]
pub struct Vertex {
    pub position: Point1,
    pub curve: Curve,
    pub surface_form: SurfaceVertex,
    pub global_form: GlobalVertex,
}

/// A stretch of a curve on a surface, from `start` to `end`.
#[derive(Clone, Copy, Debug, PartialEq, Eq, Hash, Structural)]
pub struct HalfEdge {
    pub curve: Curve,
    pub start: Vertex,
    pub end: Vertex,
    pub global_form: GlobalEdge,
}

/// A loop of half-edges on one surface, each ending where the next begins.
#[derive(Clone, Debug, PartialEq, Eq)]
pub struct Cycle {
    pub surface: Surface,
    pub half_edges: Vec<HalfEdge>,
}

/// The part of a surface that a cycle bounds.
#[derive(Clone, Debug, PartialEq, Eq)]
pub struct Face {
    pub surface: Surface,
    pub exterior: Cycle,
    pub color: Option<Color>,
}

/// Faces that together bound a solid, or a part of one.
#[derive(Clone, Debug, PartialEq, Eq)]
pub struct Shell {
    pub faces: Vec<Face>,
}

impl Point2 {
    /// The coordinates as unbounded integers.
    pub open spec fn coords(self) -> (int, int) {
        (self.u as int, self.v as int)
    }
}

impl Point3 {
    /// The coordinates as unbounded integers.
    pub open spec fn coords(self) -> (int, int, int) {
        (self.x as int, self.y as int, self.z as int)
    }
}

impl GlobalPath {
    /// The point at coordinate `t`. A circle has none here: its points are
    /// not lattice points in general.
    pub open spec fn point_at(self, t: int) -> Option<(int, int, int)> {
        match self {
            GlobalPath::Line(line) => Some(line.point_at(t)),
            GlobalPath::Circle(_) => None,
        }
    }

    /// Whether the opposite path can be stored.
    pub open spec fn reversal_fits(self) -> bool {
        match self {
            GlobalPath::Line(line) => line.direction.negation_fits(),
            GlobalPath::Circle(circle) => circle.b.negation_fits(),
        }
    }

    /// The same path run through the other way, where `reversal_fits`.
    pub open spec fn reversed(self) -> GlobalPath {
        match self {
            GlobalPath::Line(line) => GlobalPath::Line(
                Line3 { origin: line.origin, direction: line.direction.negated() },
            ),
            GlobalPath::Circle(circle) => GlobalPath::Circle(
                Circle3 { center: circle.center, a: circle.a, b: circle.b.negated() },
            ),
        }
    }

    /// The same path run through the other way, or `None` where it cannot
    /// be stored.
    pub fn reverse(self) -> (r: Option<GlobalPath>)
        ensures
            r == (if self.reversal_fits() {
                Some(self.reversed())
            } else {
                None
            }),
    {
        match self {
            GlobalPath::Line(line) => match line.reverse() {
                Some(l) => Some(GlobalPath::Line(l)),
                None => None,
            },
            GlobalPath::Circle(circle) => match circle.reverse() {
                Some(c) => Some(GlobalPath::Circle(c)),
                None => None,
            },
        }
    }

    /// The point that fixes where the path lies: a line's origin, a circle's
    /// center.
    pub open spec fn anchor(self) -> Point3 {
        match self {
            GlobalPath::Line(line) => line.origin,
            GlobalPath::Circle(circle) => circle.center,
        }
    }

    /// The path moved by `offset`, where its anchor so moved can be stored.
    pub open spec fn translated(self, offset: Vector3) -> GlobalPath {
        match self {
            GlobalPath::Line(line) => GlobalPath::Line(
                Line3 { origin: line.origin.translated(offset), direction: line.direction },
            ),
            GlobalPath::Circle(circle) => GlobalPath::Circle(
                Circle3 { center: circle.center.translated(offset), a: circle.a, b: circle.b },
            ),
        }
    }

    /// The path moved by `offset`, or `None` where it cannot be stored.
    pub fn translate(self, offset: Vector3) -> (r: Option<GlobalPath>)
        ensures
            r == (if self.anchor().translation_fits(offset) {
                Some(self.translated(offset))
            } else {
                None
            }),
    {
        match self {
            GlobalPath::Line(line) => match line.translate(offset) {
                Some(l) => Some(GlobalPath::Line(l)),
                None => None,
            },
            GlobalPath::Circle(circle) => match circle.translate(offset) {
                Some(c) => Some(GlobalPath::Circle(c)),
                None => None,
            },
        }
    }
}

impl SurfacePath {
    /// The point at coordinate `t`. A circle has none here: its points are
    /// not lattice points in general.
    pub open spec fn point_at(self, t: int) -> Option<(int, int)> {
        match self {
            SurfacePath::Line(line) => Some(line.point_at(t)),
            SurfacePath::Circle(_) => None,
        }
    }

    /// Whether the opposite path can be stored.
    pub open spec fn reversal_fits(self) -> bool {
        match self {
            SurfacePath::Line(line) => line.direction.negation_fits(),
            SurfacePath::Circle(circle) => circle.b.negation_fits(),
        }
    }

    /// The same path run through the other way, where `reversal_fits`.
    pub open spec fn reversed(self) -> SurfacePath {
        match self {
            SurfacePath::Line(line) => SurfacePath::Line(
                Line2 { origin: line.origin, direction: line.direction.negated() },
            ),
            SurfacePath::Circle(circle) => SurfacePath::Circle(
                Circle2 { center: circle.center, a: circle.a, b: circle.b.negated() },
            ),
        }
    }

    /// The same path run through the other way, or `None` where it cannot
    /// be stored.
    pub fn reverse(self) -> (r: Option<SurfacePath>)
        ensures
            r == (if self.reversal_fits() {
                Some(self.reversed())
            } else {
                None
            }),
    {
        match self {
            SurfacePath::Line(line) => match line.reverse() {
                Some(l) => Some(SurfacePath::Line(l)),
                None => None,
            },
            SurfacePath::Circle(circle) => match circle.reverse() {
                Some(c) => Some(SurfacePath::Circle(c)),
                None => None,
            },
        }
    }
}

impl Surface {
    /// The point in space with surface coordinates `(s, t)`, where `u` is a
    /// line.
    pub open spec fn point_at(self, s: int, t: int) -> Option<(int, int, int)> {
        match self.u {
            GlobalPath::Line(line) => Some(
                (
                    line.point_at(s).0 + t * self.v.x,
                    line.point_at(s).1 + t * self.v.y,
                    line.point_at(s).2 + t * self.v.z,
                ),
            ),
            GlobalPath::Circle(_) => None,
        }
    }
}

impl Curve {
    /// Whether the opposite curve can be stored.
    pub open spec fn reversal_fits(self) -> bool {
        self.path.reversal_fits() && self.global_form.path.reversal_fits()
    }

    /// The same curve run through the other way, on the surface and in
    /// space, where `reversal_fits`.
    pub open spec fn reversed(self) -> Curve {
        Curve {
            surface: self.surface,
            path: self.path.reversed(),
            global_form: GlobalCurve { path: self.global_form.path.reversed() },
        }
    }

    /// The same curve run through the other way, or `None` where it cannot
    /// be stored.
    pub fn reverse(self) -> (r: Option<Curve>)
        ensures
            r == (if self.reversal_fits() {
                Some(self.reversed())
            } else {
                None
            }),
    {
        match (self.path.reverse(), self.global_form.path.reverse()) {
            (Some(path), Some(global)) => Some(
                Curve { surface: self.surface, path, global_form: GlobalCurve { path: global } },
            ),
            _ => None,
        }
    }
}

impl SurfaceVertex {
    /// The position, put through the surface, is the global form. Nothing
    /// is said where the surface's `u` is a circle.
    pub open spec fn consistent(self) -> bool {
        self.surface.u is Line ==> self.surface.point_at(
            self.position.u as int,
            self.position.v as int,
        ) == Some(self.global_form.position.coords())
    }
}

impl Vertex {
    /// The position, put through the curve's path on the surface, is the
    /// surface form. Nothing is said where that path is a circle.
    pub open spec fn consistent_on_surface(self) -> bool {
        &&& self.surface_form.surface == self.curve.surface
        &&& self.surface_form.global_form == self.global_form
        &&& self.curve.path is Line ==> self.curve.path.point_at(self.position.t as int) == Some(
            self.surface_form.position.coords(),
        )
    }

    /// The position, put through the curve's path in space, is the global
    /// form. Nothing is said where that path is a circle.
    pub open spec fn consistent_in_space(self) -> bool {
        self.curve.global_form.path is Line ==> self.curve.global_form.path.point_at(
            self.position.t as int,
        ) == Some(self.global_form.position.coords())
    }

    /// Local and global forms agree, as far as lines go.
    pub open spec fn consistent(self) -> bool {
        self.consistent_on_surface() && self.consistent_in_space()
    }
}

/// Whether `a` ends at the point of the surface at which `b` begins. Two
/// points of a surface may be one point in space and still differ here.
pub open spec fn joined(a: HalfEdge, b: HalfEdge) -> bool {
    a.end.surface_form == b.start.surface_form
}

/// Whether edge `i` of `edges` ends where the one after it begins; the one
/// after the last is the first.
pub open spec fn joined_to_next(edges: Seq<HalfEdge>, i: int) -> bool {
    joined(edges[i], edges[(i + 1) % (edges.len() as int)])
}

/// Whether each of `edges` ends where the next begins, and the last where
/// the first begins.
pub open spec fn closed_loop(edges: Seq<HalfEdge>) -> bool {
    forall|i: int| 0 <= i < edges.len() ==> #[trigger] joined_to_next(edges, i)
}

impl HalfEdge {
    /// Both ends lie on the half-edge's curve.
    pub open spec fn well_formed(self) -> bool {
        self.start.curve == self.curve && self.end.curve == self.curve
    }

    /// Both ends lie on the half-edge's curve, and local and global forms
    /// agree at both, as far as lines go.
    pub open spec fn consistent(self) -> bool {
        &&& self.well_formed()
        &&& self.start.consistent()
        &&& self.end.consistent()
        &&& self.start.surface_form.consistent()
        &&& self.end.surface_form.consistent()
    }

    /// The same stretch run through the other way, on the same curve.
    pub open spec fn reversed(self) -> HalfEdge {
        HalfEdge {
            curve: self.curve,
            start: self.end,
            end: self.start,
            global_form: self.global_form,
        }
    }

    /// The same stretch run through the other way, on the same curve.
    pub fn reverse(self) -> (r: HalfEdge)
        ensures
            r == self.reversed(),
    {
        HalfEdge {
            curve: self.curve,
            start: self.end,
            end: self.start,
            global_form: self.global_form,
        }
    }
}

impl Cycle {
    /// The half-edges in order.
    pub open spec fn view(self) -> Seq<HalfEdge> {
        self.half_edges@
    }

    /// Every half-edge lies on the cycle's surface, and they close.
    pub open spec fn well_formed(self) -> bool {
        &&& closed_loop(self@)
        &&& forall|i: int| 0 <= i < self@.len() ==> (#[trigger] self@[i]).curve.surface == self.surface
    }
}

/// `PartialEq::eq` of `fj_interop::mesh::Color`, which the crate derives
/// for a struct of four bytes: two colors are equal just where they are the
/// same color.
#[verifier::external_body]
pub(crate) fn same_color(a: &Color, b: &Color) -> (r: bool)
    ensures
        r == (*a == *b),
{
    a == b
}

/// What a `Face` holds.
pub ghost struct FaceView {
    pub surface: Surface,
    pub exterior_surface: Surface,
    pub exterior: Seq<HalfEdge>,
    pub color: Option<Color>,
}

impl Face {
    /// What the face holds.
    pub open spec fn view(self) -> FaceView {
        FaceView {
            surface: self.surface,
            exterior_surface: self.exterior.surface,
            exterior: self.exterior@,
            color: self.color,
        }
    }

    /// Whether two faces hold the same: the same surface, the same boundary
    /// and the same color.
    pub fn same_as(&self, other: &Face) -> (r: bool)
        ensures
            r == (self@ == other@),
    {
        let same_colors = match (&self.color, &other.color) {
            (Some(x), Some(y)) => same_color(x, y),
            (None, None) => true,
            _ => false,
        };
        if !same_colors || !(self.surface == other.surface) || !(self.exterior.surface
            == other.exterior.surface) || self.exterior.half_edges.len()
            != other.exterior.half_edges.len() {
            return false;
        }
        let mut k: usize = 0;
        while k < self.exterior.half_edges.len()
            invariant
                k <= self.exterior.half_edges.len(),
                self.exterior.half_edges.len() == other.exterior.half_edges.len(),
                forall|i: int| 0 <= i < k ==> self.exterior@[i] == other.exterior@[i],
            decreases self.exterior.half_edges.len() - k,
        {
            if !(self.exterior.half_edges[k] == other.exterior.half_edges[k]) {
                return false;
            }
            k += 1;
        }
        assert(self.exterior@ =~= other.exterior@);
        true
    }
}

impl Shell {
    /// What the faces of the shell hold, in order.
    pub open spec fn view(self) -> Seq<FaceView> {
        self.faces@.map_values(|f: Face| f@)
    }

    /// No two faces of the shell hold the same.
    pub open spec fn wf(self) -> bool {
        self@.no_duplicates()
    }

    /// Whether a face that holds what `face` holds is among the faces of
    /// the shell.
    pub fn contains(&self, face: &Face) -> (r: bool)
        ensures
            r == self@.contains(face@),
    {
        let mut k: usize = 0;
        while k < self.faces.len()
            invariant
                k <= self.faces.len(),
                forall|i: int| 0 <= i < k ==> self@[i] != face@,
            decreases self.faces.len() - k,
        {
            if self.faces[k].same_as(face) {
                assert(self@[k as int] == face@);
                return true;
            }
            k += 1;
        }
        false
    }
}

} // verus!

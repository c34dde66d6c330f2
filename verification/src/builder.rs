//! Making entities: plain constructors, and builders that derive the global
//! form of an entity from its local form, so that the two agree.

use crate::distinct::{distinct, lemma_distinct};
use crate::math::{checked_mul_add2, fits, Line2, Line3, Point1, Point2, Point3, Vector3};
use crate::objects::{
    Curve, Cycle, Face, GlobalCurve, GlobalEdge, GlobalPath, GlobalVertex, HalfEdge, Shell, Surface,
    SurfacePath, SurfaceVertex, Vertex,
};
use fj_interop::mesh::Color;
use vstd::prelude::*;

verus! {

impl GlobalVertex {
    /// The point at `position`.
    pub fn from_position(position: Point3) -> (v: GlobalVertex)
        ensures
            v.position == position,
    {
        GlobalVertex { position }
    }
}

impl GlobalPath {
    /// The x axis: the line through the origin on which coordinate `t` is
    /// the point `(t, 0, 0)`.
    pub fn x_axis() -> (p: GlobalPath)
        ensures
            p == GlobalPath::Line(
                Line3 { origin: Point3 { x: 0, y: 0, z: 0 }, direction: Vector3 { x: 1, y: 0, z: 0 } },
            ),
    {
        GlobalPath::Line(Line3 { origin: Point3::new(0, 0, 0), direction: Vector3::new(1, 0, 0) })
    }

    /// The y axis: the line through the origin on which coordinate `t` is
    /// the point `(0, t, 0)`.
    pub fn y_axis() -> (p: GlobalPath)
        ensures
            p == GlobalPath::Line(
                Line3 { origin: Point3 { x: 0, y: 0, z: 0 }, direction: Vector3 { x: 0, y: 1, z: 0 } },
            ),
    {
        GlobalPath::Line(Line3 { origin: Point3::new(0, 0, 0), direction: Vector3::new(0, 1, 0) })
    }

    /// The z axis: the line through the origin on which coordinate `t` is
    /// the point `(0, 0, t)`.
    pub fn z_axis() -> (p: GlobalPath)
        ensures
            p == GlobalPath::Line(
                Line3 { origin: Point3 { x: 0, y: 0, z: 0 }, direction: Vector3 { x: 0, y: 0, z: 1 } },
            ),
    {
        GlobalPath::Line(Line3 { origin: Point3::new(0, 0, 0), direction: Vector3::new(0, 0, 1) })
    }
}

/// Makes curves in space.
#[derive(Clone, Copy, Debug, PartialEq, Eq, Hash, Structural)]
pub struct GlobalCurveBuilder {}

impl GlobalCurve {
    /// The curve of shape `path`.
    pub fn from_path(path: GlobalPath) -> (c: GlobalCurve)
        ensures
            c.path == path,
    {
        GlobalCurve { path }
    }

    /// A builder of curves in space.
    pub fn build() -> GlobalCurveBuilder {
        GlobalCurveBuilder {  }
    }
}

impl GlobalCurveBuilder {
    /// The x axis as a curve.
    pub fn x_axis(&self) -> (c: GlobalCurve)
        ensures
            c.path == GlobalPath::Line(
                Line3 { origin: Point3 { x: 0, y: 0, z: 0 }, direction: Vector3 { x: 1, y: 0, z: 0 } },
            ),
    {
        GlobalCurve { path: GlobalPath::x_axis() }
    }

    /// The y axis as a curve.
    pub fn y_axis(&self) -> (c: GlobalCurve)
        ensures
            c.path == GlobalPath::Line(
                Line3 { origin: Point3 { x: 0, y: 0, z: 0 }, direction: Vector3 { x: 0, y: 1, z: 0 } },
            ),
    {
        GlobalCurve { path: GlobalPath::y_axis() }
    }

    /// The z axis as a curve.
    pub fn z_axis(&self) -> (c: GlobalCurve)
        ensures
            c.path == GlobalPath::Line(
                Line3 { origin: Point3 { x: 0, y: 0, z: 0 }, direction: Vector3 { x: 0, y: 0, z: 1 } },
            ),
    {
        GlobalCurve { path: GlobalPath::z_axis() }
    }
}

impl GlobalEdge {
    /// The stretch of `curve` from `start` to `end`.
    pub fn new(curve: GlobalCurve, start: GlobalVertex, end: GlobalVertex) -> (e: GlobalEdge)
        ensures
            e == (GlobalEdge { curve, start, end }),
    {
        GlobalEdge { curve, start, end }
    }
}

impl Surface {
    /// The surface that `u` makes when swept along `v`.
    pub fn new(u: GlobalPath, v: Vector3) -> (s: Surface)
        ensures
            s == (Surface { u, v }),
    {
        Surface { u, v }
    }

    /// The plane of the x and y axes.
    pub fn xy_plane() -> (s: Surface)
        ensures
            s.u == GlobalPath::Line(
                Line3 { origin: Point3 { x: 0, y: 0, z: 0 }, direction: Vector3 { x: 1, y: 0, z: 0 } },
            ),
            s.v == (Vector3 { x: 0, y: 1, z: 0 }),
    {
        Surface { u: GlobalPath::x_axis(), v: Vector3::new(0, 1, 0) }
    }

    /// The plane of the x and z axes.
    pub fn xz_plane() -> (s: Surface)
        ensures
            s.u == GlobalPath::Line(
                Line3 { origin: Point3 { x: 0, y: 0, z: 0 }, direction: Vector3 { x: 1, y: 0, z: 0 } },
            ),
            s.v == (Vector3 { x: 0, y: 0, z: 1 }),
    {
        Surface { u: GlobalPath::x_axis(), v: Vector3::new(0, 0, 1) }
    }

    /// The plane of the y and z axes.
    pub fn yz_plane() -> (s: Surface)
        ensures
            s.u == GlobalPath::Line(
                Line3 { origin: Point3 { x: 0, y: 0, z: 0 }, direction: Vector3 { x: 0, y: 1, z: 0 } },
            ),
            s.v == (Vector3 { x: 0, y: 0, z: 1 }),
    {
        Surface { u: GlobalPath::y_axis(), v: Vector3::new(0, 0, 1) }
    }

    /// Whether the surface has a point at `p` that can be stored: `u` is a
    /// line, and the coordinates fit.
    pub open spec fn point_fits(self, p: Point2) -> bool {
        match self.point_at(p.u as int, p.v as int) {
            Some(c) => fits(c.0) && fits(c.1) && fits(c.2),
            None => false,
        }
    }

    /// The point in space at `p`, where `point_fits`.
    pub open spec fn point(self, p: Point2) -> Point3 {
        let c = self.point_at(p.u as int, p.v as int)->0;
        Point3 { x: c.0 as i64, y: c.1 as i64, z: c.2 as i64 }
    }

    /// The point in space at `p`, or `None` where `u` is a circle or the
    /// point cannot be stored.
    pub fn point_from_surface_coords(&self, p: Point2) -> (r: Option<Point3>)
        ensures
            r == (if self.point_fits(p) {
                Some(self.point(p))
            } else {
                None
            }),
    {
        match self.u {
            GlobalPath::Line(line) => {
                match (
                    checked_mul_add2(line.origin.x, p.u, line.direction.x, p.v, self.v.x),
                    checked_mul_add2(line.origin.y, p.u, line.direction.y, p.v, self.v.y),
                    checked_mul_add2(line.origin.z, p.u, line.direction.z, p.v, self.v.z),
                ) {
                    (Some(x), Some(y), Some(z)) => Some(Point3 { x, y, z }),
                    _ => None,
                }
            },
            GlobalPath::Circle(_) => None,
        }
    }
}

impl SurfacePath {
    /// Whether the path has a point at `t` that can be stored: it is a line,
    /// and the coordinates fit.
    pub open spec fn point_fits(self, t: Point1) -> bool {
        match self.point_at(t.t as int) {
            Some(c) => fits(c.0) && fits(c.1),
            None => false,
        }
    }

    /// The point of the surface at `t`, where `point_fits`.
    pub open spec fn point(self, t: Point1) -> Point2 {
        let c = self.point_at(t.t as int)->0;
        Point2 { u: c.0 as i64, v: c.1 as i64 }
    }

    /// The point of the surface at `t`, or `None` where the path is a circle
    /// or the point cannot be stored.
    pub fn point_from_path_coords(&self, t: Point1) -> (r: Option<Point2>)
        ensures
            r == (if self.point_fits(t) {
                Some(self.point(t))
            } else {
                None
            }),
    {
        match self {
            SurfacePath::Line(line) => line.point_from_line_coords(t),
            SurfacePath::Circle(_) => None,
        }
    }
}

/// Makes curves on a surface.
#[derive(Clone, Copy, Debug, PartialEq, Eq, Hash, Structural)]
pub struct CurveBuilder {
    pub surface: Surface,
}

impl Curve {
    /// The curve of shape `path` on `surface`, standing for `global_form`.
    pub fn new(surface: Surface, path: SurfacePath, global_form: GlobalCurve) -> (c: Curve)
        ensures
            c == (Curve { surface, path, global_form }),
    {
        Curve { surface, path, global_form }
    }

    /// A builder of curves on `surface`.
    pub fn build(surface: Surface) -> (b: CurveBuilder)
        ensures
            b.surface == surface,
    {
        CurveBuilder { surface }
    }
}

impl CurveBuilder {
    /// Whether the line through `a` and `b` can be stored, on the surface
    /// and in space.
    pub open spec fn line_fits(self, a: Point2, b: Point2) -> bool {
        &&& b.difference_fits(a)
        &&& self.surface.point_fits(a)
        &&& self.surface.point_fits(b)
        &&& self.surface.point(b).difference_fits(self.surface.point(a))
    }

    /// The line through `a`, at coordinate 0, and `b`, at coordinate 1, with
    /// the line in space through the points at which the surface puts the two,
    /// where `line_fits`.
    pub open spec fn line(self, a: Point2, b: Point2) -> Curve {
        Curve {
            surface: self.surface,
            path: SurfacePath::Line(Line2 { origin: a, direction: b.difference(a) }),
            global_form: GlobalCurve {
                path: GlobalPath::Line(
                    Line3 {
                        origin: self.surface.point(a),
                        direction: self.surface.point(b).difference(self.surface.point(a)),
                    },
                ),
            },
        }
    }

    /// The line through `a` and `b` on the surface, or `None` where it
    /// cannot be stored or the surface was made from a circle.
    pub fn line_from_points(&self, a: Point2, b: Point2) -> (r: Option<Curve>)
        ensures
            r == (if self.line_fits(a, b) {
                Some(self.line(a, b))
            } else {
                None
            }),
    {
        let local = match Line2::from_points(a, b) {
            Some(line) => line,
            None => {
                return None;
            },
        };
        let a_global = match self.surface.point_from_surface_coords(a) {
            Some(p) => p,
            None => {
                return None;
            },
        };
        let b_global = match self.surface.point_from_surface_coords(b) {
            Some(p) => p,
            None => {
                return None;
            },
        };
        match Line3::from_points(a_global, b_global) {
            Some(global) => Some(
                Curve {
                    surface: self.surface,
                    path: SurfacePath::Line(local),
                    global_form: GlobalCurve { path: GlobalPath::Line(global) },
                },
            ),
            None => None,
        }
    }

    /// The u axis of the surface: the line through `(0, 0)` and `(1, 0)`.
    pub fn u_axis(&self) -> (r: Option<Curve>)
        ensures
            r == (if self.line_fits(Point2 { u: 0, v: 0 }, Point2 { u: 1, v: 0 }) {
                Some(self.line(Point2 { u: 0, v: 0 }, Point2 { u: 1, v: 0 }))
            } else {
                None
            }),
    {
        self.line_from_points(Point2::new(0, 0), Point2::new(1, 0))
    }

    /// The v axis of the surface: the line through `(0, 0)` and `(0, 1)`.
    pub fn v_axis(&self) -> (r: Option<Curve>)
        ensures
            r == (if self.line_fits(Point2 { u: 0, v: 0 }, Point2 { u: 0, v: 1 }) {
                Some(self.line(Point2 { u: 0, v: 0 }, Point2 { u: 0, v: 1 }))
            } else {
                None
            }),
    {
        self.line_from_points(Point2::new(0, 0), Point2::new(0, 1))
    }
}

impl SurfaceVertex {
    /// The point of `surface` at `position`, standing for `global_form`.
    pub fn new(position: Point2, surface: Surface, global_form: GlobalVertex) -> (v: SurfaceVertex)
        ensures
            v == (SurfaceVertex { position, surface, global_form }),
    {
        SurfaceVertex { position, surface, global_form }
    }
}

/// Makes vertices on a curve.
#[derive(Clone, Copy, Debug, PartialEq, Eq, Hash, Structural)]
pub struct VertexBuilder {
    pub curve: Curve,
}

impl Vertex {
    /// The point of `curve` at `position`, standing for `surface_form` and
    /// `global_form`.
    pub fn new(
        position: Point1,
        curve: Curve,
        surface_form: SurfaceVertex,
        global_form: GlobalVertex,
    ) -> (v: Vertex)
        ensures
            v == (Vertex { position, curve, surface_form, global_form }),
    {
        Vertex { position, curve, surface_form, global_form }
    }

    /// A builder of vertices on `curve`.
    pub fn build(curve: Curve) -> (b: VertexBuilder)
        ensures
            b.curve == curve,
    {
        VertexBuilder { curve }
    }
}

impl VertexBuilder {
    /// Whether the vertex at `t` can be stored: the curve's path puts `t` on
    /// the surface, and the surface puts that point in space.
    pub open spec fn point_fits(self, t: Point1) -> bool {
        self.curve.path.point_fits(t) && self.curve.surface.point_fits(self.curve.path.point(t))
    }

    /// The vertex at `t` on the curve, where `point_fits`: its surface form
    /// is where the curve's path puts `t`, its global form where the surface
    /// puts that.
    pub open spec fn vertex(self, t: Point1) -> Vertex {
        let on_surface = self.curve.path.point(t);
        let global = GlobalVertex { position: self.curve.surface.point(on_surface) };
        Vertex {
            position: t,
            curve: self.curve,
            surface_form: SurfaceVertex {
                position: on_surface,
                surface: self.curve.surface,
                global_form: global,
            },
            global_form: global,
        }
    }

    /// The vertex at `t` on the curve, or `None` where it cannot be stored
    /// or lies on a circle.
    pub fn from_point(&self, t: Point1) -> (r: Option<Vertex>)
        ensures
            r == (if self.point_fits(t) {
                Some(self.vertex(t))
            } else {
                None
            }),
            r matches Some(v) ==> v.consistent_on_surface() && v.surface_form.consistent(),
    {
        let on_surface = match self.curve.path.point_from_path_coords(t) {
            Some(p) => p,
            None => {
                return None;
            },
        };
        let global = match self.curve.surface.point_from_surface_coords(on_surface) {
            Some(p) => GlobalVertex { position: p },
            None => {
                return None;
            },
        };
        let surface_form = SurfaceVertex {
            position: on_surface,
            surface: self.curve.surface,
            global_form: global,
        };
        Some(Vertex { position: t, curve: self.curve, surface_form, global_form: global })
    }
}

/// Makes half-edges on a surface.
#[derive(Clone, Copy, Debug, PartialEq, Eq, Hash, Structural)]
pub struct HalfEdgeBuilder {
    pub surface: Surface,
}

impl HalfEdge {
    /// The stretch of `curve` from `start` to `end`, standing for
    /// `global_form`.
    pub fn new(curve: Curve, start: Vertex, end: Vertex, global_form: GlobalEdge) -> (e: HalfEdge)
        ensures
            e == (HalfEdge { curve, start, end, global_form }),
    {
        HalfEdge { curve, start, end, global_form }
    }

    /// A builder of half-edges on `surface`.
    pub fn build(surface: Surface) -> (b: HalfEdgeBuilder)
        ensures
            b.surface == surface,
    {
        HalfEdgeBuilder { surface }
    }
}

impl HalfEdgeBuilder {
    /// The straight half-edge from `a`, at coordinate 0 on its curve, to
    /// `b`, at coordinate 1, where the line through the two fits.
    pub open spec fn line_segment(self, a: Point2, b: Point2) -> HalfEdge {
        let curve = (CurveBuilder { surface: self.surface }).line(a, b);
        let a_global = GlobalVertex { position: self.surface.point(a) };
        let b_global = GlobalVertex { position: self.surface.point(b) };
        HalfEdge {
            curve,
            start: Vertex {
                position: Point1 { t: 0 },
                curve,
                surface_form: SurfaceVertex {
                    position: a,
                    surface: self.surface,
                    global_form: a_global,
                },
                global_form: a_global,
            },
            end: Vertex {
                position: Point1 { t: 1 },
                curve,
                surface_form: SurfaceVertex {
                    position: b,
                    surface: self.surface,
                    global_form: b_global,
                },
                global_form: b_global,
            },
            global_form: GlobalEdge { curve: curve.global_form, start: a_global, end: b_global },
        }
    }

    /// The straight half-edge from `a` to `b` on the surface, or `None`
    /// where it cannot be stored or the surface was made from a circle.
    pub fn line_segment_from_points(&self, a: Point2, b: Point2) -> (r: Option<HalfEdge>)
        ensures
            r == (if (CurveBuilder { surface: self.surface }).line_fits(a, b) {
                Some(self.line_segment(a, b))
            } else {
                None
            }),
            r matches Some(e) ==> e.consistent(),
    {
        let curve = match Curve::build(self.surface).line_from_points(a, b) {
            Some(curve) => curve,
            None => {
                return None;
            },
        };
        let a_global = GlobalVertex { position: self.surface.point_from_surface_coords(a).unwrap() };
        let b_global = GlobalVertex { position: self.surface.point_from_surface_coords(b).unwrap() };
        let start = Vertex {
            position: Point1::new(0),
            curve,
            surface_form: SurfaceVertex { position: a, surface: self.surface, global_form: a_global },
            global_form: a_global,
        };
        let end = Vertex {
            position: Point1::new(1),
            curve,
            surface_form: SurfaceVertex { position: b, surface: self.surface, global_form: b_global },
            global_form: b_global,
        };
        let edge = HalfEdge {
            curve,
            start,
            end,
            global_form: GlobalEdge { curve: curve.global_form, start: a_global, end: b_global },
        };
        Some(edge)
    }
}

impl Face {
    /// The part of `surface` that `exterior` bounds, without a color.
    pub fn new(surface: Surface, exterior: Cycle) -> (f: Face)
        ensures
            f.surface == surface,
            f.exterior == exterior,
            f.color is None,
    {
        Face { surface, exterior, color: None }
    }

    /// The same face in `color`.
    pub fn with_color(self, color: Color) -> (f: Face)
        ensures
            f.surface == self.surface,
            f.exterior == self.exterior,
            f.color == Some(color),
    {
        Face { surface: self.surface, exterior: self.exterior, color: Some(color) }
    }
}

impl Shell {
    /// The shell of `faces`, each once: of faces that hold the same, the
    /// first stays, in its place among the others that stay.
    pub fn new(faces: Vec<Face>) -> (s: Shell)
        ensures
            s.wf(),
            s@ == distinct(faces@.map_values(|f: Face| f@)),
    {
        let ghost all = faces@.map_values(|f: Face| f@);
        let ghost n = faces@.len();
        let mut rest = faces;
        let mut shell = Shell { faces: Vec::new() };
        assert(shell@ =~= distinct(all.subrange(0, 0)));
        while rest.len() > 0
            invariant
                rest@.len() <= n,
                all.len() == n,
                forall|i: int|
                    0 <= i < rest@.len() ==> (#[trigger] rest@[i])@ == all[n - rest@.len() + i],
                shell@ == distinct(all.subrange(0, n - rest@.len())),
            decreases rest.len(),
        {
            let ghost k = n - rest@.len();
            let ghost before = rest@;
            let face = rest.remove(0);
            proof {
                assert(face@ == before[0]@);
                assert forall|i: int| 0 <= i < rest@.len() implies (#[trigger] rest@[i])@ == all[n
                    - rest@.len() + i] by {
                    assert(rest@[i] == before[i + 1]);
                }
                assert(all.subrange(0, k + 1).drop_last() =~= all.subrange(0, k));
                assert(all.subrange(0, k + 1).last() == face@);
            }
            if !shell.contains(&face) {
                let ghost held = shell@;
                shell.faces.push(face);
                assert(shell@ =~= held.push(face@));
            }
        }
        proof {
            assert(all.subrange(0, n as int) =~= all);
            lemma_distinct(all);
        }
        shell
    }
}

} // verus!

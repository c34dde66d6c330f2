//! Sweeping: a point in space becomes an edge in space, a vertex on the
//! curve that made a surface becomes a half-edge across that surface, and a
//! half-edge becomes the face that it passes over.

use crate::math::{lemma_along_u_point_at, Line2, Line3, Point1, Point2, Vector2, Vector3};
use crate::objects::{
    closed_loop, joined, joined_to_next, Curve, Cycle, Face, GlobalCurve, GlobalEdge, GlobalPath, GlobalVertex,
    HalfEdge, Surface, SurfacePath, SurfaceVertex, Vertex,
};
use fj_interop::mesh::Color;
use vstd::prelude::*;

verus! {

/// Why a sweep gave nothing.
#[derive(Clone, Copy, Debug, PartialEq, Eq, Hash, Structural)]
pub enum SweepError {
    /// The vertex does not lie on the curve that made the surface, or the
    /// path is not the one that made it.
    InvalidSweepInput,
    /// The edges of a loop cannot be turned so that each ends where the
    /// next begins.
    InconsistentLoop,
    /// A coordinate of the result cannot be stored.
    CoordinateOverflow,
}

/// The displacement along which something is swept.
#[derive(Clone, Copy, Debug, PartialEq, Eq, Hash, Structural)]
pub struct Path {
    pub vector: Vector3,
}

impl Path {
    /// The path along `vector`.
    pub fn new(vector: Vector3) -> (p: Path)
        ensures
            p.vector == vector,
    {
        Path { vector }
    }

    /// The displacement itself.
    pub fn inner(&self) -> (v: Vector3)
        ensures
            v == self.vector,
    {
        self.vector
    }

    /// Whether the path runs downwards, against the z axis.
    pub open spec fn negative_direction(self) -> bool {
        self.vector.z < 0
    }

    /// Whether the path runs downwards, against the z axis.
    pub fn is_negative_direction(&self) -> (r: bool)
        ensures
            r == self.negative_direction(),
    {
        self.vector.z < 0
    }
}

impl GlobalVertex {
    /// Whether the far end of the sweep along `path` can be stored.
    pub open spec fn sweep_fits(self, path: Vector3) -> bool {
        self.position.translation_fits(path)
    }

    /// The edge that the point draws when moved along `path`, where
    /// `sweep_fits`: a straight line from the point, at coordinate 0, to the
    /// point moved by `path`, at coordinate 1.
    pub open spec fn swept(self, path: Vector3) -> GlobalEdge {
        GlobalEdge {
            curve: GlobalCurve {
                path: GlobalPath::Line(Line3 { origin: self.position, direction: path }),
            },
            start: self,
            end: GlobalVertex { position: self.position.translated(path) },
        }
    }

    /// Sweeps the point along `path`. A path without length is allowed and
    /// gives an edge without length.
    pub fn sweep(self, path: Vector3) -> (r: Result<GlobalEdge, SweepError>)
        ensures
            r == (if self.sweep_fits(path) {
                Ok::<GlobalEdge, SweepError>(self.swept(path))
            } else {
                Err(SweepError::CoordinateOverflow)
            }),
    {
        let a = self;
        let b = match self.position.checked_translate(path) {
            Some(position) => GlobalVertex { position },
            None => {
                return Err(SweepError::CoordinateOverflow);
            },
        };
        assert(b.position.difference_fits(a.position));
        assert(b.position.difference(a.position) == path);
        match Line3::from_points(a.position, b.position) {
            Some(line) => Ok(
                GlobalEdge { curve: GlobalCurve { path: GlobalPath::Line(line) }, start: a, end: b },
            ),
            None => Err(SweepError::CoordinateOverflow),
        }
    }
}

impl Vertex {
    /// Whether the vertex may be swept across `surface` along `path`: it
    /// lies on the curve that made the surface, and `path` is the path that
    /// made it.
    pub open spec fn sweep_input_valid(self, surface: Surface, path: Vector3) -> bool {
        self.curve.global_form.path == surface.u && path == surface.v
    }

    /// The half-edge that the vertex draws on `surface` when moved along
    /// `path`, where the input is valid and the global form's sweep fits. It
    /// runs from `(t, 0)` to `(t, 1)`, `t` being the vertex's position on its
    /// curve; its ends are new vertices, at 0 and 1 on the new curve.
    pub open spec fn swept(self, surface: Surface, path: Vector3) -> HalfEdge {
        let edge_global = self.global_form.swept(path);
        let a = Point2 { u: self.position.t, v: 0 };
        let b = Point2 { u: self.position.t, v: 1 };
        let curve = Curve {
            surface,
            path: SurfacePath::Line(Line2 { origin: a, direction: Vector2 { u: 0, v: 1 } }),
            global_form: edge_global.curve,
        };
        HalfEdge {
            curve,
            start: Vertex {
                position: Point1 { t: 0 },
                curve,
                surface_form: SurfaceVertex {
                    position: a,
                    surface,
                    global_form: edge_global.start,
                },
                global_form: edge_global.start,
            },
            end: Vertex {
                position: Point1 { t: 1 },
                curve,
                surface_form: SurfaceVertex { position: b, surface, global_form: edge_global.end },
                global_form: edge_global.end,
            },
            global_form: edge_global,
        }
    }

    /// Sweeps the vertex across `surface` along `path`.
    pub fn sweep(self, surface: Surface, path: Vector3) -> (r: Result<HalfEdge, SweepError>)
        ensures
            r == (if !self.sweep_input_valid(surface, path) {
                Err::<HalfEdge, SweepError>(SweepError::InvalidSweepInput)
            } else if !self.global_form.sweep_fits(path) {
                Err(SweepError::CoordinateOverflow)
            } else {
                Ok(self.swept(surface, path))
            }),
    {
        if !(self.curve.global_form.path == surface.u) || !(path == surface.v) {
            return Err(SweepError::InvalidSweepInput);
        }
        let edge_global = match self.global_form.sweep(path) {
            Ok(edge) => edge,
            Err(e) => {
                return Err(e);
            },
        };
        let a = Point2::new(self.position.t, 0);
        let b = Point2::new(self.position.t, 1);
        let line = match Line2::from_points(a, b) {
            Some(line) => line,
            None => {
                assert(b.difference_fits(a));
                return Err(SweepError::CoordinateOverflow);
            },
        };
        let curve = Curve { surface, path: SurfacePath::Line(line), global_form: edge_global.curve };
        let a_surface = SurfaceVertex { position: a, surface, global_form: edge_global.start };
        let b_surface = SurfaceVertex { position: b, surface, global_form: edge_global.end };
        let start = Vertex {
            position: Point1::new(a.v),
            curve,
            surface_form: a_surface,
            global_form: edge_global.start,
        };
        let end = Vertex {
            position: Point1::new(b.v),
            curve,
            surface_form: b_surface,
            global_form: edge_global.end,
        };
        Ok(HalfEdge { curve, start, end, global_form: edge_global })
    }
}

/// The ends of a swept edge in space are where its line puts 0 and 1.
pub proof fn lemma_swept_global_edge_consistent(vertex: GlobalVertex, path: Vector3)
    requires
        vertex.sweep_fits(path),
    ensures
        vertex.swept(path).curve.path.point_at(0) == Some(vertex.swept(path).start.position.coords()),
        vertex.swept(path).curve.path.point_at(1) == Some(vertex.swept(path).end.position.coords()),
{
}

/// Both ends of a swept half-edge agree with its curve: the curve's path on
/// the surface puts each end's position at its surface form, and the curve's
/// path in space puts it at its global form. Where the swept vertex itself
/// lay, in space, where its curve put it, and the surface was made from a
/// line, the surface also puts each end's surface form at its global form.
pub proof fn lemma_swept_half_edge_consistent(vertex: Vertex, surface: Surface, path: Vector3)
    requires
        vertex.sweep_input_valid(surface, path),
        vertex.global_form.sweep_fits(path),
    ensures
        vertex.swept(surface, path).well_formed(),
        vertex.swept(surface, path).start.consistent(),
        vertex.swept(surface, path).end.consistent(),
        vertex.consistent_in_space() ==> vertex.swept(surface, path).start.surface_form.consistent()
            && vertex.swept(surface, path).end.surface_form.consistent(),
{
}

/// One step of the orientation pass: where `edges[i]` does not end at the
/// start of the edge after it, that edge is turned round. The edge after the
/// last one is the first.
pub open spec fn orient_step(edges: Seq<HalfEdge>, i: int) -> Seq<HalfEdge> {
    let j = (i + 1) % (edges.len() as int);
    if joined(edges[i], edges[j]) {
        edges
    } else {
        edges.update(j, edges[j].reversed())
    }
}

/// `edges` after the first `steps` steps of the orientation pass, each step
/// working on what the one before left.
pub open spec fn oriented(edges: Seq<HalfEdge>, steps: nat) -> Seq<HalfEdge>
    decreases steps,
{
    if steps == 0 {
        edges
    } else {
        orient_step(oriented(edges, (steps - 1) as nat), steps - 1)
    }
}

/// The orientation pass keeps the number of edges, and each place holds the
/// edge that it held before, as it was or turned round.
pub proof fn lemma_oriented_turns_only(edges: Seq<HalfEdge>, steps: nat)
    requires
        edges.len() > 0,
    ensures
        oriented(edges, steps).len() == edges.len(),
        forall|k: int|
            0 <= k < edges.len() ==> #[trigger] oriented(edges, steps)[k] == edges[k] || oriented(
                edges,
                steps,
            )[k] == edges[k].reversed(),
    decreases steps,
{
    if steps > 0 {
        lemma_oriented_turns_only(edges, (steps - 1) as nat);
        let before = oriented(edges, (steps - 1) as nat);
        let j = (steps - 1 + 1) % (edges.len() as int);
        assert(before[j].reversed().reversed() == before[j]);
    }
}

/// Runs the orientation pass once round `edges`, then checks the loop.
/// Gives the edges as the pass left them where each then ends, on the
/// surface, where the next begins, and the last where the first begins;
/// `InconsistentLoop` where they do not.
pub fn orient_loop(edges: Vec<HalfEdge>) -> (r: Result<Vec<HalfEdge>, SweepError>)
    ensures
        match r {
            Ok(v) => v@ == oriented(edges@, edges@.len()) && closed_loop(v@),
            Err(e) => e == SweepError::InconsistentLoop && !closed_loop(
                oriented(edges@, edges@.len()),
            ),
        },
{
    let mut work = edges;
    let n = work.len();
    let mut i: usize = 0;
    while i < n
        invariant
            i <= n,
            work@.len() == n,
            edges@.len() == n,
            work@ == oriented(edges@, i as nat),
        decreases n - i,
    {
        let j = (i + 1) % n;
        let prev_last = work[i].end.surface_form;
        let next_first = work[j].start.surface_form;
        if !(prev_last == next_first) {
            let turned = work[j].reverse();
            work.set(j, turned);
        }
        i += 1;
    }
    let mut k: usize = 0;
    while k < n
        invariant
            k <= n,
            work@.len() == n,
            edges@.len() == n,
            work@ == oriented(edges@, n as nat),
            forall|m: int| 0 <= m < k ==> #[trigger] joined_to_next(work@, m),
        decreases n - k,
    {
        let j = (k + 1) % n;
        if !(work[k].end.surface_form == work[j].start.surface_form) {
            assert(!joined_to_next(work@, k as int));
            return Err(SweepError::InconsistentLoop);
        }
        k += 1;
    }
    Ok(work)
}

impl HalfEdge {
    /// Whether the half-edge on its curve run the other way can be stored.
    pub open spec fn reversal_including_curve_fits(self) -> bool {
        &&& self.curve.reversal_fits()
        &&& self.start.position.negation_fits()
        &&& self.end.position.negation_fits()
    }

    /// The same stretch run through the other way on the curve run the other
    /// way, where `reversal_including_curve_fits`: the ends change places and
    /// each position changes sign, so that each end stays where it was.
    pub open spec fn reversed_including_curve(self) -> HalfEdge {
        let curve = self.curve.reversed();
        HalfEdge {
            curve,
            start: Vertex {
                position: self.end.position.negated(),
                curve,
                surface_form: self.end.surface_form,
                global_form: self.end.global_form,
            },
            end: Vertex {
                position: self.start.position.negated(),
                curve,
                surface_form: self.start.surface_form,
                global_form: self.start.global_form,
            },
            global_form: GlobalEdge {
                curve: curve.global_form,
                start: self.end.global_form,
                end: self.start.global_form,
            },
        }
    }

    /// The same stretch run through the other way on the curve run the other
    /// way, or `None` where that cannot be stored.
    pub fn reverse_including_curve(self) -> (r: Option<HalfEdge>)
        ensures
            r == (if self.reversal_including_curve_fits() {
                Some(self.reversed_including_curve())
            } else {
                None
            }),
    {
        match (self.curve.reverse(), self.end.position.checked_neg(), self.start.position.checked_neg()) {
            (Some(curve), Some(first), Some(second)) => Some(
                HalfEdge {
                    curve,
                    start: Vertex {
                        position: first,
                        curve,
                        surface_form: self.end.surface_form,
                        global_form: self.end.global_form,
                    },
                    end: Vertex {
                        position: second,
                        curve,
                        surface_form: self.start.surface_form,
                        global_form: self.start.global_form,
                    },
                    global_form: GlobalEdge {
                        curve: curve.global_form,
                        start: self.end.global_form,
                        end: self.start.global_form,
                    },
                },
            ),
            _ => None,
        }
    }

    /// The half-edge as it is swept along `path`: run the other way, curve
    /// included, where the path runs downwards, so that the sides of the face
    /// come out the same whatever the sign of the path.
    pub open spec fn directed_for(self, path: Path) -> HalfEdge {
        if path.negative_direction() {
            self.reversed_including_curve()
        } else {
            self
        }
    }

    /// The surface that the half-edge passes over: its curve in space, swept
    /// along `path`.
    pub open spec fn side_surface(self, path: Path) -> Surface {
        Surface { u: self.curve.global_form.path, v: path.vector }
    }

    /// `vertex` as a vertex of `curve` on the side surface, at height `v`
    /// and standing for `global`.
    pub open spec fn lifted_vertex(
        self,
        path: Path,
        vertex: Vertex,
        curve: Curve,
        v: i64,
        global: GlobalVertex,
    ) -> Vertex {
        Vertex {
            position: vertex.position,
            curve,
            surface_form: SurfaceVertex {
                position: Point2 { u: vertex.position.t, v },
                surface: self.side_surface(path),
                global_form: global,
            },
            global_form: global,
        }
    }

    /// The half-edge itself as the lower boundary of the face: on the side
    /// surface it is the straight line `v = 0`, whatever its shape in space.
    pub open spec fn bottom_edge(self, path: Path) -> HalfEdge {
        let curve = Curve {
            surface: self.side_surface(path),
            path: SurfacePath::Line(
                Line2 { origin: Point2 { u: 0, v: 0 }, direction: Vector2 { u: 1, v: 0 } },
            ),
            global_form: self.curve.global_form,
        };
        HalfEdge {
            curve,
            start: self.lifted_vertex(path, self.start, curve, 0, self.start.global_form),
            end: self.lifted_vertex(path, self.end, curve, 0, self.end.global_form),
            global_form: self.global_form,
        }
    }

    /// The side that the start of the half-edge draws.
    pub open spec fn start_side(self, path: Path) -> HalfEdge {
        self.bottom_edge(path).start.swept(self.side_surface(path), path.vector)
    }

    /// The side that the end of the half-edge draws.
    pub open spec fn end_side(self, path: Path) -> HalfEdge {
        self.bottom_edge(path).end.swept(self.side_surface(path), path.vector)
    }

    /// The upper boundary of the face: the straight line `v = 1` on the side
    /// surface, the curve in space moved by `path`, between the far ends of
    /// the two sides.
    pub open spec fn top_edge(self, path: Path) -> HalfEdge {
        let curve = Curve {
            surface: self.side_surface(path),
            path: SurfacePath::Line(
                Line2 { origin: Point2 { u: 0, v: 1 }, direction: Vector2 { u: 1, v: 0 } },
            ),
            global_form: GlobalCurve { path: self.curve.global_form.path.translated(path.vector) },
        };
        let far_start = self.start_side(path).end.global_form;
        let far_end = self.end_side(path).end.global_form;
        HalfEdge {
            curve,
            start: self.lifted_vertex(path, self.start, curve, 1, far_start),
            end: self.lifted_vertex(path, self.end, curve, 1, far_end),
            global_form: GlobalEdge { curve: curve.global_form, start: far_start, end: far_end },
        }
    }

    /// Whether everything that the sweep of this half-edge makes, taken as
    /// it stands, can be stored.
    pub open spec fn lift_fits(self, path: Path) -> bool {
        &&& self.start.global_form.sweep_fits(path.vector)
        &&& self.end.global_form.sweep_fits(path.vector)
        &&& self.curve.global_form.path.anchor().translation_fits(path.vector)
    }

    /// The four edges round the face before the orientation pass: the bottom,
    /// the side at its end, the top, the side at its start.
    pub open spec fn raw_boundary(self, path: Path) -> Seq<HalfEdge> {
        seq![self.bottom_edge(path), self.end_side(path), self.top_edge(path), self.start_side(path)]
    }

    /// Whether the face that the half-edge passes over can be stored.
    pub open spec fn sweep_fits(self, path: Path) -> bool {
        &&& path.negative_direction() ==> self.reversal_including_curve_fits()
        &&& self.directed_for(path).lift_fits(path)
    }

    /// The boundary of the face that the half-edge passes over, where
    /// `sweep_fits`: the four edges after the orientation pass.
    pub open spec fn swept_boundary(self, path: Path) -> Seq<HalfEdge> {
        oriented(self.directed_for(path).raw_boundary(path), 4)
    }

    /// Sweeps the half-edge along `path` into the face that it passes over,
    /// and gives the face `color`. A path without length is allowed; the
    /// face is then without area in space, while on its surface the bottom
    /// still lies at `v = 0` and the top at `v = 1`.
    pub fn sweep(self, color: Color, path: Path) -> (r: Result<Face, SweepError>)
        ensures
            match r {
                Ok(face) => {
                    &&& self.sweep_fits(path)
                    &&& face.surface == self.directed_for(path).side_surface(path)
                    &&& face.color == Some(color)
                    &&& face.exterior.surface == face.surface
                    &&& face.exterior@ == self.swept_boundary(path)
                    &&& face.exterior.well_formed()
                },
                Err(e) => e == SweepError::CoordinateOverflow && !self.sweep_fits(path),
            },
    {
        let edge = if path.is_negative_direction() {
            match self.reverse_including_curve() {
                Some(edge) => edge,
                None => {
                    return Err(SweepError::CoordinateOverflow);
                },
            }
        } else {
            self
        };
        let surface = Surface { u: edge.curve.global_form.path, v: path.inner() };
        let edges = match lift(edge, path) {
            Ok(edges) => edges,
            Err(e) => {
                return Err(e);
            },
        };
        proof {
            lemma_swept_boundary_closes(edge, path);
            assert(edges@.len() == 4);
        }
        match orient_loop(edges) {
            Ok(half_edges) => {
                let exterior = Cycle { surface, half_edges };
                assert forall|i: int| 0 <= i < exterior@.len() implies (
                #[trigger] exterior@[i]).curve.surface == surface by {
                    assert(exterior@[i] == oriented(edge.raw_boundary(path), 4)[i]);
                }
                Ok(Face { surface, exterior, color: Some(color) })
            },
            Err(e) => Err(e),
        }
    }
}

/// The four edges that sweeping `edge` along `path` makes, before the
/// orientation pass: the bottom, the side at its end, the top, the side at
/// its start.
fn lift(edge: HalfEdge, path: Path) -> (r: Result<Vec<HalfEdge>, SweepError>)
    ensures
        match r {
            Ok(edges) => edge.lift_fits(path) && edges@ == edge.raw_boundary(path),
            Err(e) => e == SweepError::CoordinateOverflow && !edge.lift_fits(path),
        },
{
    let surface = Surface { u: edge.curve.global_form.path, v: path.inner() };

    let bottom_edge = {
        let curve = Curve {
            surface,
            path: SurfacePath::Line(Line2::along_u(0)),
            global_form: edge.curve.global_form,
        };
        HalfEdge {
            curve,
            start: lift_vertex(edge.start, curve, 0, edge.start.global_form),
            end: lift_vertex(edge.end, curve, 0, edge.end.global_form),
            global_form: edge.global_form,
        }
    };
    assert(bottom_edge == edge.bottom_edge(path));

    let start_side = match bottom_edge.start.sweep(surface, path.inner()) {
        Ok(side) => side,
        Err(e) => {
            return Err(e);
        },
    };
    let end_side = match bottom_edge.end.sweep(surface, path.inner()) {
        Ok(side) => side,
        Err(e) => {
            return Err(e);
        },
    };

    let top_edge = {
        let global = match bottom_edge.curve.global_form.path.translate(path.inner()) {
            Some(global) => GlobalCurve { path: global },
            None => {
                return Err(SweepError::CoordinateOverflow);
            },
        };
        let curve = Curve {
            surface,
            path: SurfacePath::Line(Line2::along_u(1)),
            global_form: global,
        };
        let far_start = start_side.end.global_form;
        let far_end = end_side.end.global_form;
        HalfEdge {
            curve,
            start: lift_vertex(bottom_edge.start, curve, 1, far_start),
            end: lift_vertex(bottom_edge.end, curve, 1, far_end),
            global_form: GlobalEdge { curve: global, start: far_start, end: far_end },
        }
    };
    assert(top_edge == edge.top_edge(path));

    let mut edges: Vec<HalfEdge> = Vec::new();
    edges.push(bottom_edge);
    edges.push(end_side);
    edges.push(top_edge);
    edges.push(start_side);
    assert(edges@ =~= edge.raw_boundary(path));
    Ok(edges)
}

/// `vertex` as a vertex of `curve`, which lies on a side surface: at height
/// `v` on that surface, and standing for `global`.
fn lift_vertex(vertex: Vertex, curve: Curve, v: i64, global: GlobalVertex) -> (r: Vertex)
    ensures
        r == (Vertex {
            position: vertex.position,
            curve,
            surface_form: SurfaceVertex {
                position: Point2 { u: vertex.position.t, v },
                surface: curve.surface,
                global_form: global,
            },
            global_form: global,
        }),
{
    let surface_form = SurfaceVertex {
        position: Point2::new(vertex.position.t, v),
        surface: curve.surface,
        global_form: global,
    };
    Vertex { position: vertex.position, curve, surface_form, global_form: global }
}

/// One step of the orientation pass on a loop of four.
proof fn lemma_orient_step_of_four(edges: Seq<HalfEdge>, i: int)
    requires
        edges.len() == 4,
        0 <= i < 4,
    ensures
        orient_step(edges, i).len() == 4,
        orient_step(edges, i) == ({
            let next = if i == 3 {
                0
            } else {
                i + 1
            };
            if joined(edges[i], edges[next]) {
                edges
            } else {
                edges.update(next, edges[next].reversed())
            }
        }),
{
    assert((i + 1) % 4 == if i == 3 {
        0
    } else {
        i + 1
    });
}

/// The four edges round a swept face close after the orientation pass,
/// whatever the half-edge and the path: each ends, on the side surface,
/// where the next begins, and the last where the first begins. All four lie
/// on the side surface.
pub proof fn lemma_swept_boundary_closes(edge: HalfEdge, path: Path)
    ensures
        oriented(edge.raw_boundary(path), 4).len() == 4,
        closed_loop(oriented(edge.raw_boundary(path), 4)),
        forall|i: int|
            0 <= i < 4 ==> (#[trigger] oriented(edge.raw_boundary(path), 4)[i]).curve.surface
                == edge.side_surface(path),
{
    lemma_swept_boundary(edge, path);
    let after = oriented(edge.raw_boundary(path), 4);
    assert(after[0].curve.surface == edge.side_surface(path));
    assert(after[1].curve.surface == edge.side_surface(path));
    assert(after[2].curve.surface == edge.side_surface(path));
    assert(after[3].curve.surface == edge.side_surface(path));
}

/// What the orientation pass makes of the four edges round a swept face: it
/// leaves the bottom and the side at its end as they are, turns the side at
/// its start round, and turns the top round unless it begins where the side
/// at the end of the bottom ends. The four then close.
pub proof fn lemma_swept_boundary(edge: HalfEdge, path: Path)
    ensures
        closed_loop(oriented(edge.raw_boundary(path), 4)),
        oriented(edge.raw_boundary(path), 4) == seq![
            edge.bottom_edge(path),
            edge.end_side(path),
            if joined(edge.end_side(path), edge.top_edge(path)) {
                edge.top_edge(path)
            } else {
                edge.top_edge(path).reversed()
            },
            edge.start_side(path).reversed(),
        ],
{
    let raw = edge.raw_boundary(path);
    let bottom = edge.bottom_edge(path);
    let end_side = edge.end_side(path);
    let top = edge.top_edge(path);
    let start_side = edge.start_side(path);
    assert(raw[0] == bottom && raw[1] == end_side && raw[2] == top && raw[3] == start_side);
    reveal_with_fuel(oriented, 5);

    // The side at the end of the bottom begins where the bottom ends.
    let s1 = orient_step(raw, 0);
    lemma_orient_step_of_four(raw, 0);
    assert(joined(bottom, end_side));
    assert(s1 == raw);

    // The top, turned round if need be, begins where that side ends.
    let s2 = orient_step(s1, 1);
    lemma_orient_step_of_four(s1, 1);
    assert(joined(end_side, top.reversed()));
    assert(joined(s2[1], s2[2]));

    // The side at the start begins at height 0, where the top cannot end:
    // it is turned round, and then begins where the top ends.
    let s3 = orient_step(s2, 2);
    lemma_orient_step_of_four(s2, 2);
    assert(!joined(s2[2], start_side));
    assert(s3 == s2.update(3, start_side.reversed()));
    assert(joined(s3[2], s3[3]));

    // Turned round, that side ends where the bottom begins.
    let s4 = orient_step(s3, 3);
    lemma_orient_step_of_four(s3, 3);
    assert(joined(start_side.reversed(), bottom));
    assert(s4 == s3);
    assert(oriented(raw, 4) == s4);
    assert forall|i: int| 0 <= i < 4 implies #[trigger] joined_to_next(s4, i) by {
        assert((i + 1) % 4 == if i == 3 {
            0
        } else {
            i + 1
        });
    }
}

/// A half-edge run the other way, curve included, has its ends where they
/// were: if both ends lay on the curve and, in space, where the curve put
/// them, so they do afterwards.
pub proof fn lemma_reversal_including_curve_keeps_ends(edge: HalfEdge)
    requires
        edge.reversal_including_curve_fits(),
        edge.well_formed(),
        edge.start.consistent_in_space(),
        edge.end.consistent_in_space(),
    ensures
        edge.reversed_including_curve().well_formed(),
        edge.reversed_including_curve().start.consistent_in_space(),
        edge.reversed_including_curve().end.consistent_in_space(),
{
    match edge.curve.global_form.path {
        GlobalPath::Line(line) => {
            let d = line.direction;
            let a = edge.start.position.t as int;
            let b = edge.end.position.t as int;
            assert((-a) * (-(d.x as int)) == a * d.x && (-a) * (-(d.y as int)) == a * d.y && (-a) * (
            -(d.z as int)) == a * d.z) by (nonlinear_arith);
            assert((-b) * (-(d.x as int)) == b * d.x && (-b) * (-(d.y as int)) == b * d.y && (-b) * (
            -(d.z as int)) == b * d.z) by (nonlinear_arith);
        },
        GlobalPath::Circle(_) => {},
    }
}

/// The four edges made by lifting a half-edge are consistent before the
/// orientation pass, where the half-edge's own ends lay on its curve and, in
/// space, where the curve put them.
proof fn lemma_raw_boundary_consistent(edge: HalfEdge, path: Path)
    requires
        edge.lift_fits(path),
        edge.well_formed(),
        edge.start.consistent_in_space(),
        edge.end.consistent_in_space(),
    ensures
        edge.raw_boundary(path).len() == 4,
        forall|i: int| 0 <= i < 4 ==> (#[trigger] edge.raw_boundary(path)[i]).consistent(),
{
    let raw = edge.raw_boundary(path);
    let surface = edge.side_surface(path);
    let bottom = edge.bottom_edge(path);
    lemma_swept_half_edge_consistent(bottom.start, surface, path.vector);
    lemma_swept_half_edge_consistent(bottom.end, surface, path.vector);
    assert(raw[0] == bottom);
    assert(raw[1] == edge.end_side(path));
    assert(raw[2] == edge.top_edge(path));
    assert(raw[3] == edge.start_side(path));
    lemma_along_u_point_at(0, edge.start.position.t as int);
    lemma_along_u_point_at(0, edge.end.position.t as int);
    lemma_along_u_point_at(1, edge.start.position.t as int);
    lemma_along_u_point_at(1, edge.end.position.t as int);
    assert(bottom.consistent());
    assert(edge.top_edge(path).consistent());
}

/// Every vertex of a swept face agrees with its curve and its surface: the
/// curve's path on the surface puts its position at its surface form, the
/// curve's path in space puts it at its global form, and the surface puts
/// its surface form at its global form, as far as lines go. This holds
/// where the ends of the swept half-edge lay on its curve and, in space,
/// where the curve put them.
pub proof fn lemma_swept_face_consistent(edge: HalfEdge, path: Path)
    requires
        edge.sweep_fits(path),
        edge.well_formed(),
        edge.start.consistent_in_space(),
        edge.end.consistent_in_space(),
    ensures
        edge.swept_boundary(path).len() == 4,
        forall|i: int| 0 <= i < 4 ==> (#[trigger] edge.swept_boundary(path)[i]).consistent(),
{
    let directed = edge.directed_for(path);
    if path.negative_direction() {
        lemma_reversal_including_curve_keeps_ends(edge);
    }
    lemma_raw_boundary_consistent(directed, path);
    let raw = directed.raw_boundary(path);
    lemma_oriented_turns_only(raw, 4);
    assert forall|i: int| 0 <= i < 4 implies (#[trigger] edge.swept_boundary(path)[i]).consistent() by {
        assert(raw[i].consistent());
        assert(raw[i].reversed().consistent());
    }
}

/// A half-edge can always be swept along a path without length, and the
/// face has no area in space: each of its two sides begins and ends at one
/// point, and the top runs between the same two points, along the same
/// curve, as the bottom. On its surface the face still has its four
/// corners.
pub proof fn lemma_sweep_along_nothing(edge: HalfEdge, path: Path)
    requires
        path.vector == (Vector3 { x: 0, y: 0, z: 0 }),
    ensures
        edge.sweep_fits(path),
        edge.directed_for(path) == edge,
        edge.start_side(path).global_form.start == edge.start_side(path).global_form.end,
        edge.end_side(path).global_form.start == edge.end_side(path).global_form.end,
        edge.top_edge(path).curve.global_form == edge.bottom_edge(path).curve.global_form,
        edge.top_edge(path).start.global_form == edge.bottom_edge(path).start.global_form,
        edge.top_edge(path).end.global_form == edge.bottom_edge(path).end.global_form,
        edge.top_edge(path).start.surface_form.position != edge.bottom_edge(
            path,
        ).start.surface_form.position,
{
}

} // verus!

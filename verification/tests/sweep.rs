use brep_kernel::builder::CurveBuilder;
use brep_kernel::math::{Circle3, Point1, Point2, Point3, Vector3};
use brep_kernel::objects::{
    Curve, Face, GlobalCurve, GlobalEdge, GlobalPath, GlobalVertex, HalfEdge, Surface, SurfacePath,
    SurfaceVertex, Vertex,
};
use brep_kernel::sweep::{orient_loop, Path, SweepError};
use fj_interop::mesh::Color;

fn blue() -> Color {
    Color([0, 0, 255, 255])
}

fn assert_closed(face: &Face) {
    let edges = &face.exterior.half_edges;
    assert_eq!(edges.len(), 4);
    for i in 0..edges.len() {
        let next = &edges[(i + 1) % edges.len()];
        assert_eq!(edges[i].end.surface_form, next.start.surface_form);
    }
}

fn corners(face: &Face) -> Vec<(Point2, Point3)> {
    face.exterior
        .half_edges
        .iter()
        .map(|e| (e.start.surface_form.position, e.start.global_form.position))
        .collect()
}

#[test]
fn vertex_surface() {
    let surface = Surface::xz_plane();
    let curve = Curve::build(surface).u_axis().unwrap();
    let vertex = Vertex::build(curve).from_point(Point1::new(0)).unwrap();

    let half_edge = vertex.sweep(surface, Vector3::new(0, 0, 1)).unwrap();

    let expected_half_edge = HalfEdge::build(surface)
        .line_segment_from_points(Point2::new(0, 0), Point2::new(0, 1))
        .unwrap();
    assert_eq!(half_edge, expected_half_edge);
}

#[test]
fn global_vertex() {
    let edge = GlobalVertex::from_position(Point3::new(0, 0, 0))
        .sweep(Vector3::new(0, 0, 1))
        .unwrap();

    let expected_edge = GlobalEdge::new(
        GlobalCurve::build().z_axis(),
        GlobalVertex::from_position(Point3::new(0, 0, 0)),
        GlobalVertex::from_position(Point3::new(0, 0, 1)),
    );
    assert_eq!(edge, expected_edge);
}

#[test]
fn swept_vertex_is_not_an_end_of_its_edge() {
    let surface = Surface::xz_plane();
    let curve = Curve::build(surface).u_axis().unwrap();
    let vertex = Vertex::build(curve).from_point(Point1::new(3)).unwrap();

    let half_edge = vertex.sweep(surface, Vector3::new(0, 0, 1)).unwrap();

    assert_ne!(half_edge.start, vertex);
    assert_ne!(half_edge.end, vertex);
    assert_eq!(half_edge.start.position, Point1::new(0));
    assert_eq!(half_edge.end.position, Point1::new(1));
    assert_eq!(half_edge.start.surface_form.position, Point2::new(3, 0));
    assert_eq!(half_edge.end.surface_form.position, Point2::new(3, 1));
    assert_eq!(half_edge.start.global_form.position, Point3::new(3, 0, 0));
    assert_eq!(half_edge.end.global_form.position, Point3::new(3, 0, 1));
    assert_eq!(
        half_edge.curve.global_form,
        GlobalCurve::from_path(GlobalPath::Line(brep_kernel::math::Line3 {
            origin: Point3::new(3, 0, 0),
            direction: Vector3::new(0, 0, 1),
        }))
    );
}

#[test]
fn vertex_sweep_refuses_a_path_that_did_not_make_the_surface() {
    let surface = Surface::xz_plane();
    let curve = Curve::build(surface).u_axis().unwrap();
    let vertex = Vertex::build(curve).from_point(Point1::new(0)).unwrap();

    assert_eq!(
        vertex.sweep(surface, Vector3::new(0, 0, 2)),
        Err(SweepError::InvalidSweepInput)
    );
}

#[test]
fn vertex_sweep_refuses_a_vertex_of_another_curve() {
    let surface = Surface::xz_plane();
    let curve = Curve::build(surface).v_axis().unwrap();
    let vertex = Vertex::build(curve).from_point(Point1::new(0)).unwrap();

    assert_eq!(
        vertex.sweep(surface, Vector3::new(0, 0, 1)),
        Err(SweepError::InvalidSweepInput)
    );
}

#[test]
fn global_vertex_sweep_reports_overflow() {
    let vertex = GlobalVertex::from_position(Point3::new(0, 0, i64::MAX));
    assert_eq!(
        vertex.sweep(Vector3::new(0, 0, 1)),
        Err(SweepError::CoordinateOverflow)
    );
    assert!(vertex.sweep(Vector3::new(0, 0, -1)).is_ok());
}

#[test]
fn global_vertex_sweep_along_nothing_gives_an_edge_without_length() {
    let vertex = GlobalVertex::from_position(Point3::new(4, 5, 6));
    let edge = vertex.sweep(Vector3::new(0, 0, 0)).unwrap();
    assert_eq!(edge.start, edge.end);
    assert_eq!(edge.start.position, Point3::new(4, 5, 6));
}

#[test]
fn line_edge_swept_upwards_gives_a_rectangle() {
    let edge = HalfEdge::build(Surface::xy_plane())
        .line_segment_from_points(Point2::new(0, 0), Point2::new(1, 0))
        .unwrap();

    let face = edge.sweep(blue(), Path::new(Vector3::new(0, 0, 1))).unwrap();

    assert_closed(&face);
    assert_eq!(face.color, Some(blue()));
    assert_eq!(face.surface, Surface::new(GlobalPath::x_axis(), Vector3::new(0, 0, 1)));
    assert_eq!(face.exterior.surface, face.surface);
    assert_eq!(
        corners(&face),
        vec![
            (Point2::new(0, 0), Point3::new(0, 0, 0)),
            (Point2::new(1, 0), Point3::new(1, 0, 0)),
            (Point2::new(1, 1), Point3::new(1, 0, 1)),
            (Point2::new(0, 1), Point3::new(0, 0, 1)),
        ]
    );
}

#[test]
fn line_edge_swept_downwards_gives_a_rectangle() {
    let edge = HalfEdge::build(Surface::xy_plane())
        .line_segment_from_points(Point2::new(0, 0), Point2::new(1, 0))
        .unwrap();

    let face = edge.sweep(blue(), Path::new(Vector3::new(0, 0, -1))).unwrap();

    assert_closed(&face);
    assert_eq!(
        corners(&face),
        vec![
            (Point2::new(-1, 0), Point3::new(1, 0, 0)),
            (Point2::new(0, 0), Point3::new(0, 0, 0)),
            (Point2::new(0, 1), Point3::new(0, 0, -1)),
            (Point2::new(-1, 1), Point3::new(1, 0, -1)),
        ]
    );
    let reversed_line = brep_kernel::math::Line3 {
        origin: Point3::new(0, 0, 0),
        direction: Vector3::new(-1, 0, 0),
    };
    assert_eq!(face.surface.u, GlobalPath::Line(reversed_line));
}

#[test]
fn edge_swept_along_nothing_gives_a_face_without_area() {
    let edge = HalfEdge::build(Surface::xy_plane())
        .line_segment_from_points(Point2::new(0, 0), Point2::new(2, 0))
        .unwrap();

    let face = edge.sweep(blue(), Path::new(Vector3::new(0, 0, 0))).unwrap();

    assert_closed(&face);
    assert_eq!(
        corners(&face),
        vec![
            (Point2::new(0, 0), Point3::new(0, 0, 0)),
            (Point2::new(1, 0), Point3::new(2, 0, 0)),
            (Point2::new(1, 1), Point3::new(2, 0, 0)),
            (Point2::new(0, 1), Point3::new(0, 0, 0)),
        ]
    );
    let side = &face.exterior.half_edges[1];
    assert_eq!(side.global_form.start, side.global_form.end);
}

fn full_circle_edge() -> HalfEdge {
    let surface = Surface::xy_plane();
    let circle = Circle3 {
        center: Point3::new(0, 0, 0),
        a: Vector3::new(5, 0, 0),
        b: Vector3::new(0, 5, 0),
    };
    let global_curve = GlobalCurve::from_path(GlobalPath::Circle(circle));
    let local = SurfacePath::Circle(brep_kernel::math::Circle2 {
        center: Point2::new(0, 0),
        a: brep_kernel::math::Vector2::new(5, 0),
        b: brep_kernel::math::Vector2::new(0, 5),
    });
    let curve = Curve::new(surface, local, global_curve);
    let seam = GlobalVertex::from_position(Point3::new(5, 0, 0));
    let on_surface = SurfaceVertex::new(Point2::new(5, 0), surface, seam);
    let start = Vertex::new(Point1::new(0), curve, on_surface, seam);
    let end = Vertex::new(Point1::new(360), curve, on_surface, seam);
    HalfEdge::new(curve, start, end, GlobalEdge::new(global_curve, seam, seam))
}

#[test]
fn circle_swept_upwards_closes_on_the_surface() {
    let edge = full_circle_edge();

    let face = edge.sweep(blue(), Path::new(Vector3::new(0, 0, 3))).unwrap();

    assert_closed(&face);
    assert_eq!(
        corners(&face),
        vec![
            (Point2::new(0, 0), Point3::new(5, 0, 0)),
            (Point2::new(360, 0), Point3::new(5, 0, 0)),
            (Point2::new(360, 1), Point3::new(5, 0, 3)),
            (Point2::new(0, 1), Point3::new(5, 0, 3)),
        ]
    );
    let top = &face.exterior.half_edges[2];
    assert_eq!(
        top.curve.global_form.path,
        GlobalPath::Circle(Circle3 {
            center: Point3::new(0, 0, 3),
            a: Vector3::new(5, 0, 0),
            b: Vector3::new(0, 5, 0),
        })
    );
    // In space the two sides are one and the same edge.
    assert_eq!(
        face.exterior.half_edges[1].global_form,
        face.exterior.half_edges[3].global_form
    );
}

#[test]
fn edge_sweep_reports_overflow() {
    let edge = HalfEdge::build(Surface::xy_plane())
        .line_segment_from_points(Point2::new(0, 0), Point2::new(1, 0))
        .unwrap();
    assert_eq!(
        edge.sweep(blue(), Path::new(Vector3::new(i64::MAX, 0, 1))),
        Err(SweepError::CoordinateOverflow)
    );
}

#[test]
fn edge_sweep_reports_a_reversal_that_cannot_be_stored() {
    let surface = Surface::xy_plane();
    let builder: CurveBuilder = Curve::build(surface);
    let curve = builder.u_axis().unwrap();
    let start = Vertex::build(curve).from_point(Point1::new(i64::MIN)).unwrap();
    let end = Vertex::build(curve).from_point(Point1::new(0)).unwrap();
    let global = GlobalEdge::new(curve.global_form, start.global_form, end.global_form);
    let edge = HalfEdge::new(curve, start, end, global);

    assert!(edge.sweep(blue(), Path::new(Vector3::new(0, 0, 1))).is_ok());
    assert_eq!(
        edge.sweep(blue(), Path::new(Vector3::new(0, 0, -1))),
        Err(SweepError::CoordinateOverflow)
    );
}

#[test]
fn path_direction() {
    assert!(Path::new(Vector3::new(0, 0, -1)).is_negative_direction());
    assert!(!Path::new(Vector3::new(0, 0, 0)).is_negative_direction());
    assert!(!Path::new(Vector3::new(-1, -1, 1)).is_negative_direction());
    assert_eq!(Path::new(Vector3::new(1, 2, 3)).inner(), Vector3::new(1, 2, 3));
}

#[test]
fn orientation_pass_turns_edges_round() {
    let surface = Surface::xy_plane();
    let build = HalfEdge::build(surface);
    let a = build.line_segment_from_points(Point2::new(0, 0), Point2::new(1, 0)).unwrap();
    let b = build.line_segment_from_points(Point2::new(1, 1), Point2::new(1, 0)).unwrap();
    let c = build.line_segment_from_points(Point2::new(1, 1), Point2::new(0, 0)).unwrap();

    let oriented = orient_loop(vec![a, b, c]).unwrap();

    assert_eq!(oriented, vec![a, b.reverse(), c]);
}

#[test]
fn orientation_pass_reports_a_loop_that_does_not_close() {
    let surface = Surface::xy_plane();
    let build = HalfEdge::build(surface);
    let a = build.line_segment_from_points(Point2::new(0, 0), Point2::new(1, 0)).unwrap();
    let b = build.line_segment_from_points(Point2::new(5, 5), Point2::new(6, 6)).unwrap();

    assert_eq!(orient_loop(vec![a, b]), Err(SweepError::InconsistentLoop));
}

#[test]
fn orientation_pass_on_nothing() {
    assert_eq!(orient_loop(vec![]), Ok(vec![]));
}

#[test]
fn reversal_including_curve_keeps_the_ends_in_place() {
    let edge = HalfEdge::build(Surface::xy_plane())
        .line_segment_from_points(Point2::new(2, 0), Point2::new(7, 0))
        .unwrap();

    let reversed = edge.reverse_including_curve().unwrap();

    assert_eq!(reversed.start.global_form, edge.end.global_form);
    assert_eq!(reversed.end.global_form, edge.start.global_form);
    assert_eq!(reversed.start.position, Point1::new(-1));
    assert_eq!(reversed.end.position, Point1::new(0));
    match reversed.curve.global_form.path {
        GlobalPath::Line(line) => {
            assert_eq!(line.point_from_line_coords(reversed.start.position), Some(Point3::new(7, 0, 0)));
            assert_eq!(line.point_from_line_coords(reversed.end.position), Some(Point3::new(2, 0, 0)));
        }
        GlobalPath::Circle(_) => panic!("a line was reversed"),
    }
}

fn assert_consistent(vertex: &Vertex) {
    assert_eq!(vertex.surface_form.surface, vertex.curve.surface);
    assert_eq!(vertex.surface_form.global_form, vertex.global_form);
    if let SurfacePath::Line(line) = vertex.curve.path {
        assert_eq!(
            line.point_from_line_coords(vertex.position),
            Some(vertex.surface_form.position)
        );
    }
    if let GlobalPath::Line(line) = vertex.curve.global_form.path {
        assert_eq!(
            line.point_from_line_coords(vertex.position),
            Some(vertex.global_form.position)
        );
    }
    if let GlobalPath::Line(_) = vertex.curve.surface.u {
        assert_eq!(
            vertex.curve.surface.point_from_surface_coords(vertex.surface_form.position),
            Some(vertex.global_form.position)
        );
    }
}

#[test]
fn swept_vertices_lie_where_their_curves_put_them() {
    let surface = Surface::xz_plane();
    let curve = Curve::build(surface).u_axis().unwrap();
    let vertex = Vertex::build(curve).from_point(Point1::new(-4)).unwrap();
    let half_edge = vertex.sweep(surface, Vector3::new(0, 0, 1)).unwrap();
    assert_consistent(&half_edge.start);
    assert_consistent(&half_edge.end);

    let slanted = HalfEdge::build(Surface::xy_plane())
        .line_segment_from_points(Point2::new(1, 2), Point2::new(4, -3))
        .unwrap();
    for path in [Vector3::new(2, 1, 5), Vector3::new(2, 1, -5), Vector3::new(0, 0, 0)] {
        let face = slanted.sweep(blue(), Path::new(path)).unwrap();
        assert_closed(&face);
        for edge in &face.exterior.half_edges {
            assert_eq!(edge.start.curve, edge.curve);
            assert_eq!(edge.end.curve, edge.curve);
            assert_eq!(edge.curve.surface, face.surface);
            assert_consistent(&edge.start);
            assert_consistent(&edge.end);
        }
    }
}

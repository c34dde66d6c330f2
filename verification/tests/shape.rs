use brep_kernel::math::{Line3, Point3, Vector2, Vector3};
use brep_kernel::shape::{Circle, Curve, Edge, Edges, Storage, Vertex};

#[test]
fn added_edge_comes_back_unchanged() {
    let mut edges = Edges::new();
    let line = Line3 { origin: Point3::new(1, 2, 3), direction: Vector3::new(0, 0, 1) };

    let handle = edges.add(Edge { curve: Curve::Line(line), vertices: None });

    assert_eq!(handle.get().curve, Curve::Line(line));
    assert!(handle.get().vertices.is_none());
}

#[test]
fn circle_lies_round_the_origin() {
    let mut edges = Edges::new();

    let handle = edges.create_circle(5);

    assert_eq!(
        handle.get().curve,
        Curve::Circle(Circle { center: Point3::new(0, 0, 0), radius: Vector2::new(5, 0) })
    );
    assert!(handle.get().vertices.is_none());
}

#[test]
fn line_segment_runs_from_the_first_vertex_to_the_second() {
    let mut edges = Edges::new();
    let a = Storage::new(Vertex { point: Point3::new(1, 1, 1) }).handle();
    let b = Storage::new(Vertex { point: Point3::new(4, 1, 0) }).handle();

    let handle = edges.create_line_segment([a, b]).unwrap();

    assert_eq!(
        handle.get().curve,
        Curve::Line(Line3 { origin: Point3::new(1, 1, 1), direction: Vector3::new(3, 0, -1) })
    );
    let vertices = handle.get().vertices.as_ref().unwrap();
    assert_eq!(vertices[0].get().point(), Point3::new(1, 1, 1));
    assert_eq!(vertices[1].get().point(), Point3::new(4, 1, 0));
}

#[test]
fn line_segment_that_cannot_be_stored_is_refused() {
    let mut edges = Edges::new();
    let a = Storage::new(Vertex { point: Point3::new(i64::MIN, 0, 0) }).handle();
    let b = Storage::new(Vertex { point: Point3::new(1, 0, 0) }).handle();

    assert!(edges.create_line_segment([a, b]).is_none());
}

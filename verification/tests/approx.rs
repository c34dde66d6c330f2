use brep_kernel::approx::{
    check_ordered_within, needed_samples, same_face_approx, ApproxCache, ApproxError, ApproxPoint,
    CurveKey, CurveSample, InvalidTolerance, Tolerance,
};
use brep_kernel::math::{Circle2, Circle3, Point1, Point2, Point3, Vector2, Vector3};
use brep_kernel::objects::{
    Curve, Face, GlobalCurve, GlobalEdge, GlobalPath, GlobalVertex, HalfEdge, Shell, Surface,
    SurfacePath, SurfaceVertex, Vertex,
};
use brep_kernel::sweep::Path;
use fj_interop::mesh::Color;

fn tolerance() -> Tolerance {
    Tolerance::from_scalar(1).unwrap()
}

fn red() -> Color {
    Color([255, 0, 0, 255])
}

fn green() -> Color {
    Color([0, 255, 0, 255])
}

fn wall(from: i64, to: i64, color: Color) -> Face {
    HalfEdge::build(Surface::xy_plane())
        .line_segment_from_points(Point2::new(from, 0), Point2::new(to, 0))
        .unwrap()
        .sweep(color, Path::new(Vector3::new(0, 0, 1)))
        .unwrap()
}

fn circle() -> Circle3 {
    Circle3 { center: Point3::new(0, 0, 0), a: Vector3::new(5, 0, 0), b: Vector3::new(0, 5, 0) }
}

fn arc(from: i64, to: i64) -> HalfEdge {
    let surface = Surface::xy_plane();
    let global_curve = GlobalCurve::from_path(GlobalPath::Circle(circle()));
    let local = SurfacePath::Circle(Circle2 {
        center: Point2::new(0, 0),
        a: Vector2::new(5, 0),
        b: Vector2::new(0, 5),
    });
    let curve = Curve::new(surface, local, global_curve);
    let east = GlobalVertex::from_position(Point3::new(5, 0, 0));
    let west = GlobalVertex::from_position(Point3::new(-5, 0, 0));
    let at_east = Vertex::new(
        Point1::new(0),
        curve,
        SurfaceVertex::new(Point2::new(5, 0), surface, east),
        east,
    );
    let at_west = Vertex::new(
        Point1::new(180),
        curve,
        SurfaceVertex::new(Point2::new(-5, 0), surface, west),
        west,
    );
    let (start, end) = if from < to { (at_east, at_west) } else { (at_west, at_east) };
    HalfEdge::new(
        curve,
        start,
        end,
        GlobalEdge::new(global_curve, start.global_form, end.global_form),
    )
}

fn arc_samples() -> Vec<CurveSample> {
    vec![
        CurveSample { t: Point1::new(60), global: Point3::new(3, 4, 0) },
        CurveSample { t: Point1::new(90), global: Point3::new(0, 5, 0) },
        CurveSample { t: Point1::new(120), global: Point3::new(-3, 4, 0) },
    ]
}

fn arc_key() -> CurveKey {
    CurveKey {
        curve: GlobalCurve::from_path(GlobalPath::Circle(circle())),
        lo: Point1::new(0),
        hi: Point1::new(180),
        tolerance: tolerance(),
    }
}

#[test]
fn tolerance_must_be_above_zero() {
    assert_eq!(Tolerance::from_scalar(0), Err(InvalidTolerance { value: 0 }));
    assert_eq!(Tolerance::from_scalar(-3), Err(InvalidTolerance { value: -3 }));
    assert_eq!(Tolerance::from_scalar(7).unwrap().inner(), 7);
}

#[test]
fn samples_must_grow_between_the_ends() {
    let lo = Point1::new(0);
    let hi = Point1::new(180);
    assert!(check_ordered_within(&arc_samples(), lo, hi));
    assert!(check_ordered_within(&vec![], lo, hi));
    assert!(check_ordered_within(&vec![], lo, lo));

    let mut backwards = arc_samples();
    backwards.reverse();
    assert!(!check_ordered_within(&backwards, lo, hi));

    let at_the_end = vec![CurveSample { t: Point1::new(180), global: Point3::new(-5, 0, 0) }];
    assert!(!check_ordered_within(&at_the_end, lo, hi));
    let at_the_start = vec![CurveSample { t: Point1::new(0), global: Point3::new(5, 0, 0) }];
    assert!(!check_ordered_within(&at_the_start, lo, hi));
    let twice = vec![arc_samples()[0], arc_samples()[0]];
    assert!(!check_ordered_within(&twice, lo, hi));
}

#[test]
fn cache_keeps_what_was_put_in_first() {
    let mut cache = ApproxCache::new();
    assert!(cache.get(&arc_key()).is_none());

    assert_eq!(cache.insert(arc_key(), arc_samples()), Ok(true));
    assert_eq!(cache.get(&arc_key()), Some(&arc_samples()));

    assert_eq!(cache.insert(arc_key(), vec![]), Ok(false));
    assert_eq!(cache.get(&arc_key()), Some(&arc_samples()));

    let other = CurveKey { hi: Point1::new(90), ..arc_key() };
    assert!(cache.get(&other).is_none());
}

#[test]
fn cache_refuses_samples_out_of_order() {
    let mut cache = ApproxCache::new();
    let mut backwards = arc_samples();
    backwards.reverse();
    assert_eq!(cache.insert(arc_key(), backwards), Err(ApproxError::InvalidSamples));
    assert!(cache.get(&arc_key()).is_none());

    let upside_down = CurveKey { lo: Point1::new(180), hi: Point1::new(0), ..arc_key() };
    assert_eq!(cache.insert(upside_down, vec![]), Err(ApproxError::InvalidSamples));
}

#[test]
fn line_has_no_points_between_its_ends() {
    let mut cache = ApproxCache::new();
    let curve = GlobalCurve::build().x_axis();

    let samples = curve.approx_with_cache(Point1::new(0), Point1::new(10), tolerance(), &mut cache);

    assert_eq!(samples, Ok(vec![]));
    let key = CurveKey { curve, lo: Point1::new(0), hi: Point1::new(10), tolerance: tolerance() };
    assert_eq!(cache.get(&key), Some(&vec![]));
}

#[test]
fn circle_without_samples_is_reported() {
    let mut cache = ApproxCache::new();
    assert_eq!(
        arc(0, 180).approx_with_cache(tolerance(), &mut cache),
        Err(ApproxError::MissingSamples)
    );
    assert!(cache.get(&arc_key()).is_none());
}

#[test]
fn half_edge_runs_from_its_start_through_the_samples_to_its_end() {
    let mut cache = ApproxCache::new();
    cache.insert(arc_key(), arc_samples()).unwrap();

    let approx = arc(0, 180).approx_with_cache(tolerance(), &mut cache).unwrap();

    assert_eq!(approx.first, ApproxPoint { local: Point2::new(5, 0), global: Point3::new(5, 0, 0) });
    assert_eq!(approx.samples, arc_samples());
    assert_eq!(approx.last, ApproxPoint { local: Point2::new(-5, 0), global: Point3::new(-5, 0, 0) });
}

#[test]
fn half_edge_run_the_other_way_gets_the_same_points_the_other_way() {
    let mut cache = ApproxCache::new();
    cache.insert(arc_key(), arc_samples()).unwrap();

    let forwards = arc(0, 180).approx_with_cache(tolerance(), &mut cache).unwrap();
    let backwards = arc(180, 0).approx_with_cache(tolerance(), &mut cache).unwrap();

    let mut expected = arc_samples();
    expected.reverse();
    assert_eq!(backwards.samples, expected);
    assert_eq!(backwards.first, forwards.last);
    assert_eq!(backwards.last, forwards.first);
}

#[test]
fn samples_for_another_tolerance_are_not_used() {
    let mut cache = ApproxCache::new();
    cache.insert(arc_key(), arc_samples()).unwrap();
    let finer = Tolerance::from_scalar(2).unwrap();
    assert_eq!(
        arc(0, 180).approx_with_cache(finer, &mut cache),
        Err(ApproxError::MissingSamples)
    );
}

#[test]
fn neighbours_in_a_cycle_share_their_end_points_exactly() {
    let face = wall(0, 4, red());
    let mut cache = ApproxCache::new();

    let approx = face.exterior.approx_with_cache(tolerance(), &mut cache).unwrap();

    let n = approx.half_edges.len();
    assert_eq!(n, 4);
    for i in 0..n {
        assert_eq!(approx.half_edges[i].last, approx.half_edges[(i + 1) % n].first);
    }
    assert_eq!(
        approx.half_edges[2].first,
        ApproxPoint { local: Point2::new(1, 1), global: Point3::new(4, 0, 1) }
    );
}

#[test]
fn face_approximation_keeps_the_color() {
    let face = wall(0, 4, green());
    let mut cache = ApproxCache::new();
    let approx = face.approx_with_cache(tolerance(), &mut cache).unwrap();
    assert_eq!(approx.color, Some(green()));
    assert_eq!(approx.exterior.half_edges.len(), 4);
}

#[test]
fn approximation_does_not_depend_on_the_cache() {
    let shell = Shell::new(vec![wall(0, 4, red()), wall(4, 9, red()), wall(-3, 0, green())]);

    let mut first_cache = ApproxCache::new();
    let first = shell.approx_with_cache(tolerance(), &mut first_cache).unwrap();
    let mut second_cache = ApproxCache::new();
    let second = shell.approx_with_cache(tolerance(), &mut second_cache).unwrap();
    let again = shell.approx_with_cache(tolerance(), &mut first_cache).unwrap();

    assert_eq!(first, second);
    assert_eq!(first, again);
    assert_eq!(first, shell.approx(tolerance()).unwrap());
    assert_eq!(first.faces.len(), 3);
}

#[test]
fn equal_faces_are_approximated_once() {
    let shell = Shell { faces: vec![wall(0, 4, red()), wall(4, 9, red()), wall(0, 4, red())] };
    assert_eq!(shell.faces.len(), 3);
    let mut cache = ApproxCache::new();

    let approx = shell.approx_with_cache(tolerance(), &mut cache).unwrap();

    assert_eq!(approx.faces.len(), 2);
    let mut fresh = ApproxCache::new();
    assert_eq!(approx.faces[0], wall(0, 4, red()).approx_with_cache(tolerance(), &mut fresh).unwrap());
    assert_eq!(approx.faces[1], wall(4, 9, red()).approx_with_cache(tolerance(), &mut fresh).unwrap());
}

#[test]
fn faces_of_different_color_are_different() {
    let shell = Shell::new(vec![wall(0, 4, red()), wall(0, 4, green())]);
    let mut cache = ApproxCache::new();

    let approx = shell.approx_with_cache(tolerance(), &mut cache).unwrap();

    assert_eq!(approx.faces.len(), 2);
    assert!(!same_face_approx(&approx.faces[0], &approx.faces[1]));
    assert!(same_face_approx(&approx.faces[0], &approx.faces[0]));
    assert!(approx.contains(&approx.faces[1]));
}

#[test]
fn shell_with_a_circle_needs_its_samples() {
    let circle_edge = arc(0, 180);
    let face = circle_edge.sweep(red(), Path::new(Vector3::new(0, 0, 2))).unwrap();
    let shell = Shell::new(vec![wall(0, 4, red()), face]);

    let mut empty = ApproxCache::new();
    assert_eq!(shell.approx_with_cache(tolerance(), &mut empty), Err(ApproxError::MissingSamples));
    assert_eq!(shell.approx(tolerance()), Err(ApproxError::MissingSamples));

    let mut seeded = ApproxCache::new();
    seeded.insert(arc_key(), arc_samples()).unwrap();
    let lifted: Vec<CurveSample> = arc_samples()
        .iter()
        .map(|s| CurveSample { t: s.t, global: Point3::new(s.global.x, s.global.y, 2) })
        .collect();
    let top_circle = Circle3 { center: Point3::new(0, 0, 2), ..circle() };
    let top_key = CurveKey {
        curve: GlobalCurve::from_path(GlobalPath::Circle(top_circle)),
        ..arc_key()
    };
    seeded.insert(top_key, lifted.clone()).unwrap();

    let approx = shell.approx_with_cache(tolerance(), &mut seeded).unwrap();

    assert_eq!(approx.faces.len(), 2);
    let round = &approx.faces[1].exterior.half_edges;
    assert_eq!(round[0].samples, arc_samples());
    assert!(round[1].samples.is_empty());
    let mut lifted_backwards = lifted;
    lifted_backwards.reverse();
    assert_eq!(round[2].samples, lifted_backwards);
    for i in 0..4 {
        assert_eq!(round[i].last, round[(i + 1) % 4].first);
    }
}

#[test]
fn needed_samples_are_those_of_the_circles_not_yet_held() {
    let circle_edge = arc(0, 180);
    let face = circle_edge.sweep(red(), Path::new(Vector3::new(0, 0, 2))).unwrap();
    let again = arc(180, 0).sweep(green(), Path::new(Vector3::new(0, 0, 2))).unwrap();
    let shell = Shell::new(vec![wall(0, 4, red()), face, again]);
    let top_circle = Circle3 { center: Point3::new(0, 0, 2), ..circle() };
    let top_key = CurveKey {
        curve: GlobalCurve::from_path(GlobalPath::Circle(top_circle)),
        ..arc_key()
    };

    let mut cache = ApproxCache::new();
    assert_eq!(needed_samples(&shell, tolerance(), &cache), vec![arc_key(), top_key]);

    cache.insert(arc_key(), arc_samples()).unwrap();
    assert_eq!(needed_samples(&shell, tolerance(), &cache), vec![top_key]);

    cache.insert(top_key, vec![]).unwrap();
    assert_eq!(needed_samples(&shell, tolerance(), &cache), vec![]);
    assert!(shell.approx_with_cache(tolerance(), &mut cache).is_ok());

    let lines_only = Shell::new(vec![wall(0, 4, red())]);
    assert_eq!(needed_samples(&lines_only, tolerance(), &ApproxCache::new()), vec![]);
}

#[test]
fn shell_holds_each_face_once() {
    let shell = Shell::new(vec![
        wall(0, 4, red()),
        wall(4, 9, red()),
        wall(0, 4, red()),
        wall(0, 4, green()),
        wall(4, 9, red()),
    ]);

    assert_eq!(shell.faces, vec![wall(0, 4, red()), wall(4, 9, red()), wall(0, 4, green())]);
    assert!(shell.contains(&wall(0, 4, green())));
    assert!(!shell.contains(&wall(4, 9, green())));
    assert_eq!(Shell::new(vec![]).faces, vec![]);
}

#[test]
fn faces_are_the_same_where_surface_boundary_and_color_are() {
    let face = wall(0, 4, red());
    assert!(face.same_as(&wall(0, 4, red())));
    assert!(!face.same_as(&wall(0, 4, green())));
    assert!(!face.same_as(&wall(0, 5, red())));
    assert!(!face.same_as(&Face::new(face.surface, face.exterior.clone())));
    assert!(Face::new(face.surface, face.exterior.clone())
        .same_as(&Face::new(face.surface, face.exterior.clone())));
    assert!(face.same_as(&Face::new(face.surface, face.exterior.clone()).with_color(red())));

    let mut shorter = wall(0, 4, red());
    shorter.exterior.half_edges.pop();
    assert!(!face.same_as(&shorter));
    let mut elsewhere = wall(0, 4, red());
    elsewhere.surface = Surface::xy_plane();
    assert!(!face.same_as(&elsewhere));
}

//! Approximation: the boundary of a face as a run of points. What a curve
//! gives between two positions is kept in a cache, so that faces which share
//! a curve get the same points for it.

use crate::math::{Point1, Point2, Point3, Scalar};
use crate::distinct::distinct;
use crate::objects::{
    closed_loop, joined_to_next, same_color, Cycle, Face, GlobalCurve, GlobalPath, HalfEdge, Shell, Vertex,
};
use fj_interop::mesh::Color;
use vstd::prelude::*;

verus! {

/// Why an approximation gave nothing.
#[derive(Clone, Copy, Debug, PartialEq, Eq, Hash, Structural)]
pub enum ApproxError {
    /// A stretch of a circle is needed, and the cache holds no points for
    /// it: circles are sampled elsewhere and put into the cache beforehand.
    MissingSamples,
    /// The points offered for a stretch of a curve do not run in growing
    /// order strictly between its two ends, or the ends are out of order.
    InvalidSamples,
}

/// A tolerance that is not above zero.
#[derive(Clone, Copy, Debug, PartialEq, Eq, Hash, Structural)]
pub struct InvalidTolerance {
    pub value: Scalar,
}

/// How far an approximation may lie from what it approximates: a distance
/// above zero.
#[derive(Clone, Copy, Debug, PartialEq, Eq, Hash, Structural)]
pub struct Tolerance {
    value: Scalar,
}

impl Tolerance {
    /// The distance is above zero.
    #[verifier::type_invariant]
    spec fn positive(self) -> bool {
        self.value > 0
    }

    /// The distance.
    pub closed spec fn value(self) -> int {
        self.value as int
    }

    /// The tolerance of `scalar`, which must be above zero.
    pub fn from_scalar(scalar: Scalar) -> (r: Result<Tolerance, InvalidTolerance>)
        ensures
            match r {
                Ok(t) => scalar > 0 && t.value() == scalar,
                Err(e) => scalar <= 0 && e.value == scalar,
            },
    {
        if scalar > 0 {
            Ok(Tolerance { value: scalar })
        } else {
            Err(InvalidTolerance { value: scalar })
        }
    }

    /// The distance.
    pub fn inner(&self) -> (r: Scalar)
        ensures
            r == self.value(),
            r > 0,
    {
        proof {
            use_type_invariant(self);
        }
        self.value
    }
}

/// A point of an approximation: where it lies on a surface, and in space.
#[derive(Clone, Copy, Debug, PartialEq, Eq, Hash, Structural)]
pub struct ApproxPoint {
    pub local: Point2,
    pub global: Point3,
}

/// A point taken on a curve: its position on the curve, and in space.
#[derive(Clone, Copy, Debug, PartialEq, Eq, Hash, Structural)]
pub struct CurveSample {
    pub t: Point1,
    pub global: Point3,
}

/// What the cache is asked for: the points of `curve` between `lo` and
/// `hi`, to within `tolerance`.
#[derive(Clone, Copy, Debug, PartialEq, Eq, Hash, Structural)]
pub struct CurveKey {
    pub curve: GlobalCurve,
    pub lo: Point1,
    pub hi: Point1,
    pub tolerance: Tolerance,
}

impl CurveKey {
    /// The lower end is not above the upper.
    pub open spec fn in_order(self) -> bool {
        self.lo.t <= self.hi.t
    }
}

/// Whether the positions of `samples` grow from each to the next and all lie
/// strictly between `lo` and `hi`.
pub open spec fn ordered_within(samples: Seq<CurveSample>, lo: Point1, hi: Point1) -> bool {
    &&& forall|i: int| 0 <= i < samples.len() ==> lo.t < (#[trigger] samples[i]).t.t < hi.t
    &&& forall|i: int, j: int|
        0 <= i < j < samples.len() ==> (#[trigger] samples[i]).t.t < (#[trigger] samples[j]).t.t
}

/// Whether the positions of `samples` grow from each to the next and all lie
/// strictly between `lo` and `hi`.
pub fn check_ordered_within(samples: &Vec<CurveSample>, lo: Point1, hi: Point1) -> (r: bool)
    ensures
        r == ordered_within(samples@, lo, hi),
{
    let mut prev: Scalar = lo.t;
    let mut k: usize = 0;
    while k < samples.len()
        invariant
            k <= samples.len(),
            k == 0 ==> prev == lo.t,
            k > 0 ==> prev == samples@[k - 1].t.t,
            ordered_within(samples@.subrange(0, k as int), lo, hi),
        decreases samples.len() - k,
    {
        let t = samples[k].t.t;
        if !(prev < t && t < hi.t) {
            proof {
                if ordered_within(samples@, lo, hi) {
                    if k > 0 {
                        assert(samples@[k - 1].t.t < samples@[k as int].t.t);
                    }
                    assert(lo.t < samples@[k as int].t.t < hi.t);
                }
            }
            return false;
        }
        proof {
            let before = samples@.subrange(0, k as int);
            let after = samples@.subrange(0, k + 1);
            assert forall|i: int, j: int| 0 <= i < j < after.len() implies (#[trigger] after[i]).t.t
                < (#[trigger] after[j]).t.t by {
                if j < k {
                    assert(before[i].t.t < before[j].t.t);
                } else if k > 0 && i < k - 1 {
                    assert(before[i].t.t < before[k - 1].t.t);
                }
            }
            assert forall|i: int| 0 <= i < after.len() implies lo.t < (#[trigger] after[i]).t.t
                < hi.t by {
                if i < k {
                    assert(lo.t < before[i].t.t < hi.t);
                }
            }
        }
        prev = t;
        k += 1;
    }
    assert(samples@.subrange(0, k as int) =~= samples@);
    true
}

struct CacheEntry {
    key: CurveKey,
    samples: Vec<CurveSample>,
}

/// What `entries` hold for `key`.
spec fn find(entries: Seq<CacheEntry>, key: CurveKey) -> Option<Seq<CurveSample>>
    decreases entries.len(),
{
    if entries.len() == 0 {
        None
    } else if entries.last().key == key {
        Some(entries.last().samples@)
    } else {
        find(entries.drop_last(), key)
    }
}

/// The points that curves have given so far, by what was asked. It is made
/// for one walk over a shell and forgets nothing during it.
pub struct ApproxCache {
    entries: Vec<CacheEntry>,
}

impl ApproxCache {
    /// What the cache holds, by key.
    pub closed spec fn view(&self) -> Map<CurveKey, Seq<CurveSample>> {
        Map::new(
            |k: CurveKey| find(self.entries@, k) is Some,
            |k: CurveKey| find(self.entries@, k)->0,
        )
    }

    /// Every key is in order, and its points run in growing order strictly
    /// between its ends.
    pub open spec fn wf(&self) -> bool {
        forall|k: CurveKey| #[trigger]
            self@.dom().contains(k) ==> k.in_order() && ordered_within(self@[k], k.lo, k.hi)
    }

    /// A cache that holds nothing.
    pub fn new() -> (c: ApproxCache)
        ensures
            c@ == Map::<CurveKey, Seq<CurveSample>>::empty(),
            c.wf(),
    {
        let c = ApproxCache { entries: Vec::new() };
        assert(c@ =~= Map::<CurveKey, Seq<CurveSample>>::empty());
        c
    }

    /// The points held for `key`, if any.
    pub fn get(&self, key: &CurveKey) -> (r: Option<&Vec<CurveSample>>)
        ensures
            match r {
                Some(v) => self@.dom().contains(*key) && v@ == self@[*key],
                None => !self@.dom().contains(*key),
            },
    {
        let mut i: usize = self.entries.len();
        assert(self.entries@.subrange(0, i as int) =~= self.entries@);
        while i > 0
            invariant
                i <= self.entries.len(),
                find(self.entries@, *key) == find(self.entries@.subrange(0, i as int), *key),
            decreases i,
        {
            i -= 1;
            assert(self.entries@.subrange(0, i + 1).drop_last() =~= self.entries@.subrange(
                0,
                i as int,
            ));
            if self.entries[i].key == *key {
                return Some(&self.entries[i].samples);
            }
        }
        None
    }

    /// Puts `samples` into the cache for `key`, unless it holds points for
    /// that key already: what was put in first stays. Gives whether the
    /// samples went in. Samples that are not in growing order strictly
    /// between the ends of the key, or a key whose ends are out of order,
    /// are refused.
    pub fn insert(&mut self, key: CurveKey, samples: Vec<CurveSample>) -> (r: Result<
        bool,
        ApproxError,
    >)
        requires
            old(self).wf(),
        ensures
            final(self).wf(),
            match r {
                Ok(went_in) => {
                    &&& key.in_order() && ordered_within(samples@, key.lo, key.hi)
                    &&& went_in == !old(self)@.dom().contains(key)
                    &&& final(self)@ == (if went_in {
                        old(self)@.insert(key, samples@)
                    } else {
                        old(self)@
                    })
                },
                Err(e) => {
                    &&& e == ApproxError::InvalidSamples
                    &&& !(key.in_order() && ordered_within(samples@, key.lo, key.hi))
                    &&& final(self)@ == old(self)@
                },
            },
    {
        if !(key.lo.t <= key.hi.t) || !check_ordered_within(&samples, key.lo, key.hi) {
            return Err(ApproxError::InvalidSamples);
        }
        if self.get(&key).is_some() {
            return Ok(false);
        }
        let ghost before = self.entries@;
        let ghost held = samples@;
        self.entries.push(CacheEntry { key, samples });
        proof {
            assert(self.entries@.drop_last() =~= before);
            assert(self@ =~= old(self)@.insert(key, held));
        }
        Ok(true)
    }
}

/// What a cache that holds `held` answers for `key`: the points it holds
/// for the key; for a stretch of a line that it does not hold, no points,
/// the line itself being exact; for a stretch of a circle that it does not
/// hold, nothing.
pub open spec fn curve_samples(held: Map<CurveKey, Seq<CurveSample>>, key: CurveKey) -> Option<
    Seq<CurveSample>,
> {
    if held.dom().contains(key) {
        Some(held[key])
    } else if key.curve.path is Line {
        Some(Seq::empty())
    } else {
        None
    }
}

/// Whether a cache that holds `after` holds all that one with `before`
/// held, and answers every key as that one did.
pub open spec fn grown_from(
    after: Map<CurveKey, Seq<CurveSample>>,
    before: Map<CurveKey, Seq<CurveSample>>,
) -> bool {
    &&& forall|k: CurveKey| #[trigger]
        before.dom().contains(k) ==> after.dom().contains(k) && after[k] == before[k]
    &&& forall|k: CurveKey| #[trigger] curve_samples(after, k) == curve_samples(before, k)
}

/// The key under which the stretch of `curve` between `a` and `b` is kept,
/// whichever way it is run through.
pub open spec fn key_for(curve: GlobalCurve, a: Point1, b: Point1, tolerance: Tolerance) -> CurveKey {
    if a.t <= b.t {
        CurveKey { curve, lo: a, hi: b, tolerance }
    } else {
        CurveKey { curve, lo: b, hi: a, tolerance }
    }
}

/// The points of `curve` strictly between `a` and `b`, in the order in
/// which one meets them from `a` to `b`, as a cache that holds `held`
/// answers.
pub open spec fn stretch_samples(
    held: Map<CurveKey, Seq<CurveSample>>,
    curve: GlobalCurve,
    a: Point1,
    b: Point1,
    tolerance: Tolerance,
) -> Option<Seq<CurveSample>> {
    match curve_samples(held, key_for(curve, a, b, tolerance)) {
        Some(samples) => Some(
            if a.t <= b.t {
                samples
            } else {
                samples.reverse()
            },
        ),
        None => None,
    }
}

/// A copy of `samples`, in their order or in the opposite one.
fn copy_samples(samples: &Vec<CurveSample>, backwards: bool) -> (r: Vec<CurveSample>)
    ensures
        r@ == (if backwards {
            samples@.reverse()
        } else {
            samples@
        }),
{
    let n = samples.len();
    let mut copy: Vec<CurveSample> = Vec::new();
    let mut k: usize = 0;
    while k < n
        invariant
            k <= n,
            n == samples.len(),
            copy@.len() == k,
            forall|i: int|
                0 <= i < k ==> #[trigger] copy@[i] == (if backwards {
                    samples@[n - 1 - i]
                } else {
                    samples@[i]
                }),
        decreases n - k,
    {
        let sample = if backwards {
            samples[n - 1 - k]
        } else {
            samples[k]
        };
        copy.push(sample);
        k += 1;
    }
    proof {
        if backwards {
            assert(copy@ =~= samples@.reverse());
        } else {
            assert(copy@ =~= samples@);
        }
    }
    copy
}

impl GlobalCurve {
    /// Approximates the stretch of `curve` from `a` to `b`: the points strictly
    /// between the two, in the order in which one meets them from `a`. What the
    /// cache holds for the stretch is used, run through either way; a stretch of
    /// a line that it does not hold has no points between its ends, and that is
    /// put into the cache; for a stretch of a circle that it does not hold,
    /// `MissingSamples`.
    pub fn approx_with_cache(
        &self,
        a: Point1,
        b: Point1,
        tolerance: Tolerance,
        cache: &mut ApproxCache,
    ) -> (r: Result<Vec<CurveSample>, ApproxError>)
        requires
            old(cache).wf(),
        ensures
            final(cache).wf(),
            grown_from(final(cache)@, old(cache)@),
            match r {
                Ok(samples) => {
                    &&& stretch_samples(old(cache)@, *self, a, b, tolerance) == Some(samples@)
                    &&& a.t <= b.t ==> ordered_within(samples@, a, b)
                    &&& a.t > b.t ==> ordered_within(samples@.reverse(), b, a)
                },
                Err(e) => {
                    &&& e == ApproxError::MissingSamples
                    &&& stretch_samples(old(cache)@, *self, a, b, tolerance) is None
                    &&& final(cache)@ == old(cache)@
                },
            },
    {
        let curve = *self;
        let forwards = a.t <= b.t;
        let key = make_key(curve, a, b, tolerance);
        match cache.get(&key) {
            Some(held) => {
                assert(held@.reverse().reverse() =~= held@);
                return Ok(copy_samples(held, !forwards));
            },
            None => {},
        }
        match curve.path {
            GlobalPath::Line(_) => {
                let none: Vec<CurveSample> = Vec::new();
                let _ = cache.insert(key, none);
                assert(Seq::<CurveSample>::empty().reverse() =~= Seq::<CurveSample>::empty());
                Ok(Vec::new())
            },
            GlobalPath::Circle(_) => Err(ApproxError::MissingSamples),
        }
    }
}

/// A half-edge as points: its two ends as they stand, and between them what
/// its curve gives.
#[derive(Clone, Debug, PartialEq, Eq)]
pub struct HalfEdgeApprox {
    pub first: ApproxPoint,
    pub samples: Vec<CurveSample>,
    pub last: ApproxPoint,
}

/// What a `HalfEdgeApprox` holds.
pub ghost struct HalfEdgeApproxView {
    pub first: ApproxPoint,
    pub samples: Seq<CurveSample>,
    pub last: ApproxPoint,
}

impl View for HalfEdgeApprox {
    type V = HalfEdgeApproxView;

    open spec fn view(&self) -> HalfEdgeApproxView {
        HalfEdgeApproxView { first: self.first, samples: self.samples@, last: self.last }
    }
}

/// An end of a half-edge as a point of an approximation: where the vertex
/// lies on the surface and in space, taken as it stands.
pub open spec fn end_point(vertex: Vertex) -> ApproxPoint {
    ApproxPoint {
        local: vertex.surface_form.position,
        global: vertex.surface_form.global_form.position,
    }
}

/// The approximation of `edge`, as a cache that holds `held` answers.
pub open spec fn half_edge_approx(
    held: Map<CurveKey, Seq<CurveSample>>,
    edge: HalfEdge,
    tolerance: Tolerance,
) -> Option<HalfEdgeApproxView> {
    match stretch_samples(
        held,
        edge.curve.global_form,
        edge.start.position,
        edge.end.position,
        tolerance,
    ) {
        Some(samples) => Some(
            HalfEdgeApproxView { first: end_point(edge.start), samples, last: end_point(edge.end) },
        ),
        None => None,
    }
}

impl HalfEdge {
    /// Approximates a half-edge: its start, the points that its curve gives
    /// between its ends, its end. The two ends are taken from the vertices as
    /// they stand.
    pub fn approx_with_cache(&self, tolerance: Tolerance, cache: &mut ApproxCache) -> (r: Result<
        HalfEdgeApprox,
        ApproxError,
    >)
        requires
            old(cache).wf(),
        ensures
            final(cache).wf(),
            grown_from(final(cache)@, old(cache)@),
            match r {
                Ok(approx) => half_edge_approx(old(cache)@, *self, tolerance) == Some(approx@),
                Err(e) => e == ApproxError::MissingSamples && half_edge_approx(
                    old(cache)@,
                    *self,
                    tolerance,
                ) is None,
            },
    {
        let edge = self;
        let samples = match edge.curve.global_form.approx_with_cache(
            edge.start.position,
            edge.end.position,
            tolerance,
            cache,
        ) {
            Ok(samples) => samples,
            Err(e) => {
                return Err(e);
            },
        };
        let first = ApproxPoint {
            local: edge.start.surface_form.position,
            global: edge.start.surface_form.global_form.position,
        };
        let last = ApproxPoint {
            local: edge.end.surface_form.position,
            global: edge.end.surface_form.global_form.position,
        };
        Ok(HalfEdgeApprox { first, samples, last })
    }
}

/// A cycle as points: the approximations of its half-edges, in order.
#[derive(Clone, Debug, PartialEq, Eq)]
pub struct CycleApprox {
    pub half_edges: Vec<HalfEdgeApprox>,
}

impl View for CycleApprox {
    type V = Seq<HalfEdgeApproxView>;

    open spec fn view(&self) -> Seq<HalfEdgeApproxView> {
        self.half_edges@.map_values(|h: HalfEdgeApprox| h@)
    }
}

/// The approximation of a cycle of `edges`, as a cache that holds `held`
/// answers: that of each half-edge, in order, where each has one.
pub open spec fn cycle_approx(
    held: Map<CurveKey, Seq<CurveSample>>,
    edges: Seq<HalfEdge>,
    tolerance: Tolerance,
) -> Option<Seq<HalfEdgeApproxView>> {
    if forall|i: int| 0 <= i < edges.len() ==> half_edge_approx(held, #[trigger] edges[i], tolerance) is Some {
        Some(Seq::new(edges.len(), |i: int| half_edge_approx(held, edges[i], tolerance)->0))
    } else {
        None
    }
}

/// A cache that has grown answers for every half-edge as it did before.
pub proof fn lemma_grown_cache_same_half_edge(
    after: Map<CurveKey, Seq<CurveSample>>,
    before: Map<CurveKey, Seq<CurveSample>>,
    edge: HalfEdge,
    tolerance: Tolerance,
)
    requires
        grown_from(after, before),
    ensures
        half_edge_approx(after, edge, tolerance) == half_edge_approx(before, edge, tolerance),
{
    let key = key_for(edge.curve.global_form, edge.start.position, edge.end.position, tolerance);
    assert(curve_samples(after, key) == curve_samples(before, key));
}

impl Cycle {
    /// Approximates the half-edges of a cycle: each in turn, with the one cache.
    pub fn approx_with_cache(&self, tolerance: Tolerance, cache: &mut ApproxCache) -> (r: Result<
        CycleApprox,
        ApproxError,
    >)
        requires
            old(cache).wf(),
        ensures
            final(cache).wf(),
            grown_from(final(cache)@, old(cache)@),
            match r {
                Ok(approx) => {
                    &&& cycle_approx(old(cache)@, self@, tolerance) == Some(approx@)
                    &&& approx@.len() == self@.len()
                    &&& closed_loop(self@) ==> forall|i: int|
                        0 <= i < approx@.len() ==> #[trigger] meets_next(approx@, i)
                },
                Err(e) => e == ApproxError::MissingSamples && cycle_approx(
                    old(cache)@,
                    self@,
                    tolerance,
                ) is None,
            },
    {
        let edges = &self.half_edges;
        let ghost start = cache@;
        let mut half_edges: Vec<HalfEdgeApprox> = Vec::new();
        let mut k: usize = 0;
        while k < edges.len()
            invariant
                k <= edges.len(),
                edges@ == self@,
                cache.wf(),
                start == old(cache)@,
                grown_from(cache@, start),
                half_edges@.len() == k,
                forall|i: int|
                    0 <= i < k ==> half_edge_approx(start, #[trigger] edges@[i], tolerance) == Some(
                        half_edges@[i]@,
                    ),
            decreases edges.len() - k,
        {
            let ghost now = cache@;
            proof {
                lemma_grown_cache_same_half_edge(now, start, edges@[k as int], tolerance);
            }
            match edges[k].approx_with_cache(tolerance, cache) {
                Ok(approx) => {
                    half_edges.push(approx);
                },
                Err(e) => {
                    proof {
                        lemma_grown_transitive(cache@, now, start);
                    }
                    return Err(e);
                },
            }
            proof {
                lemma_grown_transitive(cache@, now, start);
            }
            k += 1;
        }
        let approx = CycleApprox { half_edges };
        proof {
            let spec_approx = cycle_approx(start, edges@, tolerance);
            assert(spec_approx is Some);
            assert(approx@ =~= spec_approx->0);
            if closed_loop(self@) {
                lemma_cycle_approx_joins(start, self@, tolerance);
            }
        }
        Ok(approx)
    }
}

/// Growing is transitive.
pub proof fn lemma_grown_transitive(
    last: Map<CurveKey, Seq<CurveSample>>,
    middle: Map<CurveKey, Seq<CurveSample>>,
    first: Map<CurveKey, Seq<CurveSample>>,
)
    requires
        grown_from(last, middle),
        grown_from(middle, first),
    ensures
        grown_from(last, first),
{
    assert forall|k: CurveKey| #[trigger] curve_samples(last, k) == curve_samples(first, k) by {
        assert(curve_samples(last, k) == curve_samples(middle, k));
        assert(curve_samples(middle, k) == curve_samples(first, k));
    }
    assert forall|k: CurveKey| #[trigger] first.dom().contains(k) implies last.dom().contains(k)
        && first[k] == last[k] by {
        assert(middle.dom().contains(k));
    }
}

/// Whether approximation `i` of `approx` ends at the very point at which the
/// one after it begins; the one after the last is the first.
pub open spec fn meets_next(approx: Seq<HalfEdgeApproxView>, i: int) -> bool {
    approx[i].last == approx[(i + 1) % (approx.len() as int)].first
}

/// In the approximation of a closed loop, each half-edge's last point is the
/// next one's first point, and the last one's last point is the first one's
/// first: the same position on the surface and the same position in space,
/// exactly.
pub proof fn lemma_cycle_approx_joins(
    held: Map<CurveKey, Seq<CurveSample>>,
    edges: Seq<HalfEdge>,
    tolerance: Tolerance,
)
    requires
        closed_loop(edges),
        cycle_approx(held, edges, tolerance) is Some,
    ensures
        cycle_approx(held, edges, tolerance)->0.len() == edges.len(),
        forall|i: int|
            0 <= i < edges.len() ==> #[trigger] meets_next(
                cycle_approx(held, edges, tolerance)->0,
                i,
            ),
{
    let approx = cycle_approx(held, edges, tolerance)->0;
    assert forall|i: int| 0 <= i < edges.len() implies #[trigger] meets_next(approx, i) by {
        let j = (i + 1) % (edges.len() as int);
        assert(joined_to_next(edges, i));
        assert(half_edge_approx(held, edges[i], tolerance) is Some);
        assert(half_edge_approx(held, edges[j], tolerance) is Some);
    }
}

/// A face as points: its boundary, and the color of the face.
#[derive(Clone, Debug, PartialEq, Eq)]
pub struct FaceApprox {
    pub exterior: CycleApprox,
    pub color: Option<Color>,
}

/// What a `FaceApprox` holds.
pub ghost struct FaceApproxView {
    pub exterior: Seq<HalfEdgeApproxView>,
    pub color: Option<Color>,
}

impl View for FaceApprox {
    type V = FaceApproxView;

    open spec fn view(&self) -> FaceApproxView {
        FaceApproxView { exterior: self.exterior@, color: self.color }
    }
}

/// The approximation of `face`, as a cache that holds `held` answers.
pub open spec fn face_approx(
    held: Map<CurveKey, Seq<CurveSample>>,
    face: Face,
    tolerance: Tolerance,
) -> Option<FaceApproxView> {
    match cycle_approx(held, face.exterior@, tolerance) {
        Some(exterior) => Some(FaceApproxView { exterior, color: face.color }),
        None => None,
    }
}

impl Face {
    /// Approximates a face: its boundary, with the face's color.
    pub fn approx_with_cache(&self, tolerance: Tolerance, cache: &mut ApproxCache) -> (r: Result<
        FaceApprox,
        ApproxError,
    >)
        requires
            old(cache).wf(),
        ensures
            final(cache).wf(),
            grown_from(final(cache)@, old(cache)@),
            match r {
                Ok(approx) => face_approx(old(cache)@, *self, tolerance) == Some(approx@),
                Err(e) => e == ApproxError::MissingSamples && face_approx(old(cache)@, *self, tolerance)
                    is None,
            },
    {
        match self.exterior.approx_with_cache(tolerance, cache) {
            Ok(exterior) => Ok(FaceApprox { exterior, color: self.color }),
            Err(e) => Err(e),
        }
    }
}

/// The approximation of a shell of `faces`, as a cache that holds `held`
/// answers: the approximations of its faces, each once.
pub open spec fn shell_approx(
    held: Map<CurveKey, Seq<CurveSample>>,
    faces: Seq<Face>,
    tolerance: Tolerance,
) -> Option<Seq<FaceApproxView>> {
    if forall|i: int| 0 <= i < faces.len() ==> face_approx(held, #[trigger] faces[i], tolerance) is Some {
        Some(distinct(Seq::new(faces.len(), |i: int| face_approx(held, faces[i], tolerance)->0)))
    } else {
        None
    }
}

/// Whether two runs of samples hold the same samples in the same order.
fn same_samples(a: &Vec<CurveSample>, b: &Vec<CurveSample>) -> (r: bool)
    ensures
        r == (a@ == b@),
{
    if a.len() != b.len() {
        return false;
    }
    let mut k: usize = 0;
    while k < a.len()
        invariant
            k <= a.len(),
            a.len() == b.len(),
            forall|i: int| 0 <= i < k ==> a@[i] == b@[i],
        decreases a.len() - k,
    {
        if !(a[k] == b[k]) {
            return false;
        }
        k += 1;
    }
    assert(a@ =~= b@);
    true
}

/// Whether two approximations of half-edges hold the same points.
fn same_half_edge_approx(a: &HalfEdgeApprox, b: &HalfEdgeApprox) -> (r: bool)
    ensures
        r == (a@ == b@),
{
    a.first == b.first && a.last == b.last && same_samples(&a.samples, &b.samples)
}

/// Whether two approximations of cycles hold the same points.
fn same_cycle_approx(a: &CycleApprox, b: &CycleApprox) -> (r: bool)
    ensures
        r == (a@ == b@),
{
    assert(a@.len() == a.half_edges@.len() && b@.len() == b.half_edges@.len());
    if a.half_edges.len() != b.half_edges.len() {
        return false;
    }
    let mut k: usize = 0;
    while k < a.half_edges.len()
        invariant
            k <= a.half_edges.len(),
            a.half_edges.len() == b.half_edges.len(),
            forall|i: int| 0 <= i < k ==> a@[i] == b@[i],
        decreases a.half_edges.len() - k,
    {
        if !same_half_edge_approx(&a.half_edges[k], &b.half_edges[k]) {
            assert(a@[k as int] != b@[k as int]);
            return false;
        }
        k += 1;
    }
    assert(a@ =~= b@);
    true
}

/// Whether two approximations of faces hold the same points and the same
/// color.
pub fn same_face_approx(a: &FaceApprox, b: &FaceApprox) -> (r: bool)
    ensures
        r == (a@ == b@),
{
    let same_colors = match (&a.color, &b.color) {
        (Some(x), Some(y)) => same_color(x, y),
        (None, None) => true,
        _ => false,
    };
    same_colors && same_cycle_approx(&a.exterior, &b.exterior)
}

/// A shell as points: the approximations of its faces, each once.
#[derive(Clone, Debug, PartialEq, Eq)]
pub struct ShellApprox {
    pub faces: Vec<FaceApprox>,
}

impl View for ShellApprox {
    type V = Seq<FaceApproxView>;

    open spec fn view(&self) -> Seq<FaceApproxView> {
        self.faces@.map_values(|f: FaceApprox| f@)
    }
}

impl ShellApprox {
    /// Whether the approximation of a face is among those held.
    pub fn contains(&self, face: &FaceApprox) -> (r: bool)
        ensures
            r == self@.contains(face@),
    {
        let mut k: usize = 0;
        while k < self.faces.len()
            invariant
                k <= self.faces.len(),
                forall|i: int| 0 <= i < k ==> self@[i] != face@,
            decreases self.faces.len() - k,
        {
            if same_face_approx(&self.faces[k], face) {
                assert(self@[k as int] == face@);
                return true;
            }
            k += 1;
        }
        false
    }
}

impl Shell {
    /// Approximates a shell: each face in turn, with the one cache, so that a
    /// curve which two faces share gives both the same points. Of faces with
    /// equal approximations the first is kept.
    pub fn approx_with_cache(&self, tolerance: Tolerance, cache: &mut ApproxCache) -> (r: Result<
        ShellApprox,
        ApproxError,
    >)
        requires
            old(cache).wf(),
        ensures
            final(cache).wf(),
            grown_from(final(cache)@, old(cache)@),
            match r {
                Ok(approx) => shell_approx(old(cache)@, self.faces@, tolerance) == Some(approx@),
                Err(e) => e == ApproxError::MissingSamples && shell_approx(
                    old(cache)@,
                    self.faces@,
                    tolerance,
                ) is None,
            },
    {
        let ghost start = cache@;
        let ghost all = Seq::new(
            self.faces@.len(),
            |i: int| face_approx(start, self.faces@[i], tolerance)->0,
        );
        let mut kept = ShellApprox { faces: Vec::new() };
        let mut k: usize = 0;
        assert(kept@ =~= distinct(all.subrange(0, 0)));
        while k < self.faces.len()
            invariant
                k <= self.faces.len(),
                cache.wf(),
                start == old(cache)@,
                grown_from(cache@, start),
                all == Seq::new(
                    self.faces@.len(),
                    |i: int| face_approx(start, self.faces@[i], tolerance)->0,
                ),
                forall|i: int|
                    0 <= i < k ==> face_approx(start, #[trigger] self.faces@[i], tolerance) is Some,
                kept@ == distinct(all.subrange(0, k as int)),
            decreases self.faces.len() - k,
        {
            let ghost now = cache@;
            proof {
                lemma_grown_cache_same_face(now, start, self.faces@[k as int], tolerance);
            }
            let approx = match self.faces[k].approx_with_cache(tolerance, cache) {
                Ok(approx) => approx,
                Err(e) => {
                    proof {
                        lemma_grown_transitive(cache@, now, start);
                    }
                    return Err(e);
                },
            };
            proof {
                lemma_grown_transitive(cache@, now, start);
                assert(all.subrange(0, k + 1).drop_last() =~= all.subrange(0, k as int));
                assert(all.subrange(0, k + 1).last() == approx@);
            }
            if !kept.contains(&approx) {
                let ghost before = kept@;
                kept.faces.push(approx);
                assert(kept@ =~= before.push(approx@));
            }
            k += 1;
        }
        assert(all.subrange(0, k as int) =~= all);
        Ok(kept)
    }

    /// Approximates the shell with a cache of its own, which holds nothing at
    /// first and is dropped at the end: the result depends on the shell and the
    /// tolerance alone. A shell with a circle on it has no such approximation.
    pub fn approx(&self, tolerance: Tolerance) -> (r: Result<ShellApprox, ApproxError>)
        ensures
            match r {
                Ok(approx) => shell_approx(Map::empty(), self.faces@, tolerance) == Some(approx@),
                Err(e) => e == ApproxError::MissingSamples && shell_approx(
                    Map::empty(),
                    self.faces@,
                    tolerance,
                ) is None,
            },
    {
        let mut cache = ApproxCache::new();
        self.approx_with_cache(tolerance, &mut cache)
    }
}

/// A cache that has grown answers for every face as it did before.
pub proof fn lemma_grown_cache_same_face(
    after: Map<CurveKey, Seq<CurveSample>>,
    before: Map<CurveKey, Seq<CurveSample>>,
    face: Face,
    tolerance: Tolerance,
)
    requires
        grown_from(after, before),
    ensures
        face_approx(after, face, tolerance) == face_approx(before, face, tolerance),
{
    lemma_same_answers_same_cycle(after, before, face.exterior@, tolerance);
}

/// Two caches that answer every key alike give every cycle the same
/// approximation.
pub proof fn lemma_same_answers_same_cycle(
    one: Map<CurveKey, Seq<CurveSample>>,
    other: Map<CurveKey, Seq<CurveSample>>,
    edges: Seq<HalfEdge>,
    tolerance: Tolerance,
)
    requires
        forall|k: CurveKey| #[trigger] curve_samples(one, k) == curve_samples(other, k),
    ensures
        cycle_approx(one, edges, tolerance) == cycle_approx(other, edges, tolerance),
{
    assert forall|i: int| 0 <= i < edges.len() implies half_edge_approx(
        one,
        #[trigger] edges[i],
        tolerance,
    ) == half_edge_approx(other, edges[i], tolerance) by {
        let e = edges[i];
        let key = key_for(e.curve.global_form, e.start.position, e.end.position, tolerance);
        assert(curve_samples(one, key) == curve_samples(other, key));
    }
    if cycle_approx(one, edges, tolerance) is Some {
        assert(cycle_approx(other, edges, tolerance) is Some);
        assert(cycle_approx(one, edges, tolerance)->0 =~= cycle_approx(other, edges, tolerance)->0);
    } else {
        assert(cycle_approx(other, edges, tolerance) is None);
    }
}

/// Approximation does not depend on which cache is used, only on what the
/// caches answer: two caches that answer every key alike give a shell the
/// same approximation, point for point. So do, in particular, two caches
/// that hold nothing, and a cache before and after it has grown.
pub proof fn lemma_same_answers_same_shell(
    one: Map<CurveKey, Seq<CurveSample>>,
    other: Map<CurveKey, Seq<CurveSample>>,
    faces: Seq<Face>,
    tolerance: Tolerance,
)
    requires
        forall|k: CurveKey| #[trigger] curve_samples(one, k) == curve_samples(other, k),
    ensures
        shell_approx(one, faces, tolerance) == shell_approx(other, faces, tolerance),
{
    assert forall|i: int| 0 <= i < faces.len() implies face_approx(one, #[trigger] faces[i], tolerance)
        == face_approx(other, faces[i], tolerance) by {
        lemma_same_answers_same_cycle(one, other, faces[i].exterior@, tolerance);
    }
    let all_one = Seq::new(faces.len(), |i: int| face_approx(one, faces[i], tolerance)->0);
    let all_other = Seq::new(faces.len(), |i: int| face_approx(other, faces[i], tolerance)->0);
    assert(all_one =~= all_other);
    if shell_approx(one, faces, tolerance) is Some {
        assert(shell_approx(other, faces, tolerance) is Some);
    } else {
        assert(shell_approx(other, faces, tolerance) is None);
    }
}

/// The key under which the curve of `edge` is kept between the two ends of
/// `edge`.
pub open spec fn edge_key(edge: HalfEdge, tolerance: Tolerance) -> CurveKey {
    key_for(edge.curve.global_form, edge.start.position, edge.end.position, tolerance)
}

/// Whether half-edge `j` of face `i` of `faces` is kept under `key`, and a
/// cache that holds `held` has no answer for it.
pub open spec fn lacks(
    held: Map<CurveKey, Seq<CurveSample>>,
    faces: Seq<Face>,
    tolerance: Tolerance,
    i: int,
    j: int,
    key: CurveKey,
) -> bool {
    &&& 0 <= i < faces.len()
    &&& 0 <= j < faces[i].exterior@.len()
    &&& key == edge_key(faces[i].exterior@[j], tolerance)
    &&& curve_samples(held, key) is None
}

/// Whether a half-edge that comes before half-edge `j` of face `i` is kept
/// under `key`, and the cache has no answer for it.
spec fn lacks_before(
    held: Map<CurveKey, Seq<CurveSample>>,
    faces: Seq<Face>,
    tolerance: Tolerance,
    i: int,
    j: int,
    key: CurveKey,
) -> bool {
    exists|a: int, b: int| #[trigger]
        lacks(held, faces, tolerance, a, b, key) && (a < i || (a == i && b < j))
}

/// The keys for which the cache has to be given samples before `shell` can
/// be approximated: those of the stretches of circles on the boundaries of
/// its faces that the cache does not hold, each once.
pub fn needed_samples(shell: &Shell, tolerance: Tolerance, cache: &ApproxCache) -> (r: Vec<CurveKey>)
    ensures
        r@.no_duplicates(),
        forall|key: CurveKey|
            r@.contains(key) <==> exists|i: int, j: int| #[trigger]
                lacks(cache@, shell.faces@, tolerance, i, j, key),
{
    let ghost held = cache@;
    let ghost faces = shell.faces@;
    let mut keys: Vec<CurveKey> = Vec::new();
    let mut i: usize = 0;
    while i < shell.faces.len()
        invariant
            i <= shell.faces.len(),
            held == cache@,
            faces == shell.faces@,
            keys@.no_duplicates(),
            forall|key: CurveKey|
                keys@.contains(key) <==> lacks_before(held, faces, tolerance, i as int, 0, key),
        decreases shell.faces.len() - i,
    {
        let edges = &shell.faces[i].exterior.half_edges;
        let mut j: usize = 0;
        while j < edges.len()
            invariant
                i < shell.faces.len(),
                j <= edges.len(),
                held == cache@,
                faces == shell.faces@,
                edges@ == faces[i as int].exterior@,
                keys@.no_duplicates(),
                forall|key: CurveKey|
                    keys@.contains(key) <==> lacks_before(
                        held,
                        faces,
                        tolerance,
                        i as int,
                        j as int,
                        key,
                    ),
            decreases edges.len() - j,
        {
            let edge = &edges[j];
            let key = make_key(edge.curve.global_form, edge.start.position, edge.end.position, tolerance);
            let is_circle = match key.curve.path {
                GlobalPath::Line(_) => false,
                GlobalPath::Circle(_) => true,
            };
            let lacking = is_circle && cache.get(&key).is_none();
            let ghost before = keys@;
            let mut known = false;
            if lacking {
                known = holds_key(&keys, &key);
                if !known {
                    keys.push(key);
                }
            }
            proof {
                assert(lacking == lacks(held, faces, tolerance, i as int, j as int, key));
                assert forall|k: CurveKey|
                    keys@.contains(k) <==> lacks_before(
                        held,
                        faces,
                        tolerance,
                        i as int,
                        j + 1,
                        k,
                    ) by {
                    vstd::seq_lib::lemma_seq_contains_after_push(before, key, k);
                    if lacks_before(held, faces, tolerance, i as int, j + 1, k) {
                        let (a, b) = choose|a: int, b: int| #[trigger]
                            lacks(held, faces, tolerance, a, b, k) && (a < i || (a == i && b < j
                                + 1));
                        if a == i && b == j {
                            assert(k == key);
                        } else {
                            assert(lacks(held, faces, tolerance, a, b, k) && (a < i || (a == i && b
                                < j)));
                            assert(lacks_before(held, faces, tolerance, i as int, j as int, k));
                        }
                    }
                    if lacks_before(held, faces, tolerance, i as int, j as int, k) {
                        let (a, b) = choose|a: int, b: int| #[trigger]
                            lacks(held, faces, tolerance, a, b, k) && (a < i || (a == i && b < j));
                        assert(lacks(held, faces, tolerance, a, b, k) && (a < i || (a == i && b < j
                            + 1)));
                    }
                    if lacking && k == key {
                        assert(lacks(held, faces, tolerance, i as int, j as int, k) && (i < i || (i
                            == i && j < j + 1)));
                    }
                }
                if lacking && !known {
                    assert forall|x: int, y: int|
                        0 <= x < keys@.len() && 0 <= y < keys@.len() && x != y implies keys@[x]
                        != keys@[y] by {
                        if x == before.len() {
                            assert(before[y] != key);
                        } else if y == before.len() {
                            assert(before[x] != key);
                        }
                    }
                }
            }
            j += 1;
        }
        proof {
            assert forall|k: CurveKey|
                keys@.contains(k) <==> lacks_before(held, faces, tolerance, i + 1, 0, k) by {
                if lacks_before(held, faces, tolerance, i + 1, 0, k) {
                    let (a, b) = choose|a: int, b: int| #[trigger]
                        lacks(held, faces, tolerance, a, b, k) && (a < i + 1 || (a == i + 1 && b
                            < 0));
                    assert(lacks(held, faces, tolerance, a, b, k) && (a < i || (a == i && b < j)));
                }
                if lacks_before(held, faces, tolerance, i as int, j as int, k) {
                    let (a, b) = choose|a: int, b: int| #[trigger]
                        lacks(held, faces, tolerance, a, b, k) && (a < i || (a == i && b < j));
                    assert(lacks(held, faces, tolerance, a, b, k) && (a < i + 1 || (a == i + 1 && b
                        < 0)));
                }
            }
        }
        i += 1;
    }
    proof {
        assert forall|key: CurveKey|
            keys@.contains(key) <==> exists|a: int, b: int| #[trigger]
                lacks(held, faces, tolerance, a, b, key) by {
            if lacks_before(held, faces, tolerance, i as int, 0, key) {
                let (a, b) = choose|a: int, b: int| #[trigger]
                    lacks(held, faces, tolerance, a, b, key) && (a < i || (a == i && b < 0));
                assert(lacks(held, faces, tolerance, a, b, key));
            }
            if exists|a: int, b: int| #[trigger] lacks(held, faces, tolerance, a, b, key) {
                let (a, b) = choose|a: int, b: int| #[trigger]
                    lacks(held, faces, tolerance, a, b, key);
                assert(lacks(held, faces, tolerance, a, b, key) && (a < i || (a == i && b < 0)));
            }
        }
    }
    keys
}

/// Whether `key` is among `keys`.
fn holds_key(keys: &Vec<CurveKey>, key: &CurveKey) -> (r: bool)
    ensures
        r == keys@.contains(*key),
{
    let mut k: usize = 0;
    while k < keys.len()
        invariant
            k <= keys.len(),
            forall|i: int| 0 <= i < k ==> keys@[i] != *key,
        decreases keys.len() - k,
    {
        if keys[k] == *key {
            return true;
        }
        k += 1;
    }
    false
}

/// The key under which the stretch of `curve` between `a` and `b` is kept.
fn make_key(curve: GlobalCurve, a: Point1, b: Point1, tolerance: Tolerance) -> (key: CurveKey)
    ensures
        key == key_for(curve, a, b, tolerance),
{
    if a.t <= b.t {
        CurveKey { curve, lo: a, hi: b, tolerance }
    } else {
        CurveKey { curve, lo: b, hi: a, tolerance }
    }
}

/// Once the cache has an answer for every key that `needed_samples` gives,
/// none being left, the shell has an approximation.
pub proof fn lemma_nothing_needed_means_approximable(
    held: Map<CurveKey, Seq<CurveSample>>,
    faces: Seq<Face>,
    tolerance: Tolerance,
)
    requires
        forall|i: int, j: int, key: CurveKey| !#[trigger] lacks(held, faces, tolerance, i, j, key),
    ensures
        shell_approx(held, faces, tolerance) is Some,
{
    assert forall|i: int| 0 <= i < faces.len() implies face_approx(
        held,
        #[trigger] faces[i],
        tolerance,
    ) is Some by {
        let edges = faces[i].exterior@;
        assert forall|j: int| 0 <= j < edges.len() implies half_edge_approx(
            held,
            #[trigger] edges[j],
            tolerance,
        ) is Some by {
            assert(!lacks(held, faces, tolerance, i, j, edge_key(edges[j], tolerance)));
        }
    }
}

/// A stretch of a curve run through the other way gives the same points
/// the other way round: two half-edges that share a curve and its two ends,
/// on whichever faces and in whichever sense, get the same points for it.
pub proof fn lemma_stretch_run_backwards(
    held: Map<CurveKey, Seq<CurveSample>>,
    curve: GlobalCurve,
    a: Point1,
    b: Point1,
    tolerance: Tolerance,
)
    requires
        a != b,
    ensures
        stretch_samples(held, curve, b, a, tolerance) == match stretch_samples(
            held,
            curve,
            a,
            b,
            tolerance,
        ) {
            Some(samples) => Some(samples.reverse()),
            None => None,
        },
{
    assert(key_for(curve, a, b, tolerance) == key_for(curve, b, a, tolerance));
    match curve_samples(held, key_for(curve, a, b, tolerance)) {
        Some(samples) => {
            assert(samples.reverse().reverse() =~= samples);
        },
        None => {},
    }
}

} // verus!

//! Points, vectors, lines and circles whose coordinates are exact counts of
//! lattice units.

use vstd::prelude::*;

verus! {

/// A coordinate, in lattice units.
pub type Scalar = i64;

/// A position on a curve.
#[derive(Clone, Copy, Debug, PartialEq, Eq, Hash, Structural)]
pub struct Point1 {
    pub t: Scalar,
}

/// A position on a surface.
#[derive(Clone, Copy, Debug, PartialEq, Eq, Hash, Structural)]
pub struct Point2 {
    pub u: Scalar,
    pub v: Scalar,
}

/// A position in space.
#[derive(Clone, Copy, Debug, PartialEq, Eq, Hash, Structural)]
pub struct Point3 {
    pub x: Scalar,
    pub y: Scalar,
    pub z: Scalar,
}

/// A displacement on a surface.
#[derive(Clone, Copy, Debug, PartialEq, Eq, Hash, Structural)]
pub struct Vector2 {
    pub u: Scalar,
    pub v: Scalar,
}

/// A displacement in space.
#[derive(Clone, Copy, Debug, PartialEq, Eq, Hash, Structural)]
pub struct Vector3 {
    pub x: Scalar,
    pub y: Scalar,
    pub z: Scalar,
}

/// Whether `a` is a coordinate that can be stored.
pub open spec fn fits(a: int) -> bool {
    i64::MIN <= a <= i64::MAX
}

impl Point1 {
    /// The position `t`.
    pub fn new(t: Scalar) -> (p: Point1)
        ensures
            p.t == t,
    {
        Point1 { t }
    }
}

impl Point2 {
    /// The point `(u, v)`.
    pub fn new(u: Scalar, v: Scalar) -> (p: Point2)
        ensures
            p.u == u,
            p.v == v,
    {
        Point2 { u, v }
    }
}

impl Vector2 {
    /// The vector `(u, v)`.
    pub fn new(u: Scalar, v: Scalar) -> (w: Vector2)
        ensures
            w.u == u,
            w.v == v,
    {
        Vector2 { u, v }
    }
}

impl Vector3 {
    /// The vector `(x, y, z)`.
    pub fn new(x: Scalar, y: Scalar, z: Scalar) -> (v: Vector3)
        ensures
            v.x == x,
            v.y == y,
            v.z == z,
    {
        Vector3 { x, y, z }
    }

    /// Whether the opposite vector can be stored.
    pub open spec fn negation_fits(self) -> bool {
        self.x != i64::MIN && self.y != i64::MIN && self.z != i64::MIN
    }

    /// The opposite vector, where `negation_fits`.
    pub open spec fn negated(self) -> Vector3 {
        Vector3 { x: (-self.x) as i64, y: (-self.y) as i64, z: (-self.z) as i64 }
    }

    /// The opposite vector, or `None` where a component of it cannot be stored.
    pub fn checked_neg(self) -> (r: Option<Vector3>)
        ensures
            r == (if self.negation_fits() {
                Some(self.negated())
            } else {
                None
            }),
            self.negation_fits() ==> self.negated().x == -self.x && self.negated().y == -self.y
                && self.negated().z == -self.z,
    {
        if self.x == i64::MIN || self.y == i64::MIN || self.z == i64::MIN {
            None
        } else {
            Some(Vector3 { x: -self.x, y: -self.y, z: -self.z })
        }
    }

    /// Whether the vector has no length.
    pub fn is_zero(self) -> (r: bool)
        ensures
            r == (self.x == 0 && self.y == 0 && self.z == 0),
    {
        self.x == 0 && self.y == 0 && self.z == 0
    }
}

impl Point3 {
    /// The point `(x, y, z)`.
    pub fn new(x: Scalar, y: Scalar, z: Scalar) -> (p: Point3)
        ensures
            p.x == x,
            p.y == y,
            p.z == z,
    {
        Point3 { x, y, z }
    }

    /// Whether the point moved by `v` can be stored.
    pub open spec fn translation_fits(self, v: Vector3) -> bool {
        fits(self.x + v.x) && fits(self.y + v.y) && fits(self.z + v.z)
    }

    /// The point moved by `v`, where `translation_fits`.
    pub open spec fn translated(self, v: Vector3) -> Point3 {
        Point3 { x: (self.x + v.x) as i64, y: (self.y + v.y) as i64, z: (self.z + v.z) as i64 }
    }

    /// The point moved by `v`, or `None` where a coordinate of it cannot be
    /// stored.
    pub fn checked_translate(self, v: Vector3) -> (r: Option<Point3>)
        ensures
            r == (if self.translation_fits(v) {
                Some(self.translated(v))
            } else {
                None
            }),
    {
        match (self.x.checked_add(v.x), self.y.checked_add(v.y), self.z.checked_add(v.z)) {
            (Some(x), Some(y), Some(z)) => Some(Point3 { x, y, z }),
            _ => None,
        }
    }

    /// Whether the displacement from `from` to this point can be stored.
    pub open spec fn difference_fits(self, from: Point3) -> bool {
        fits(self.x - from.x) && fits(self.y - from.y) && fits(self.z - from.z)
    }

    /// The displacement from `from` to this point, where `difference_fits`.
    pub open spec fn difference(self, from: Point3) -> Vector3 {
        Vector3 {
            x: (self.x - from.x) as i64,
            y: (self.y - from.y) as i64,
            z: (self.z - from.z) as i64,
        }
    }

    /// The displacement from `from` to this point, or `None` where a
    /// component of it cannot be stored.
    pub fn checked_sub(self, from: Point3) -> (r: Option<Vector3>)
        ensures
            r == (if self.difference_fits(from) {
                Some(self.difference(from))
            } else {
                None
            }),
    {
        match (self.x.checked_sub(from.x), self.y.checked_sub(from.y), self.z.checked_sub(from.z)) {
            (Some(x), Some(y), Some(z)) => Some(Vector3 { x, y, z }),
            _ => None,
        }
    }
}

impl Point1 {
    /// Whether the opposite position can be stored.
    pub open spec fn negation_fits(self) -> bool {
        self.t != i64::MIN
    }

    /// The opposite position, where `negation_fits`.
    pub open spec fn negated(self) -> Point1 {
        Point1 { t: (-self.t) as i64 }
    }

    /// The opposite position, or `None` where it cannot be stored.
    pub fn checked_neg(self) -> (r: Option<Point1>)
        ensures
            r == (if self.negation_fits() {
                Some(self.negated())
            } else {
                None
            }),
    {
        if self.t == i64::MIN {
            None
        } else {
            Some(Point1 { t: -self.t })
        }
    }
}

impl Vector2 {
    /// Whether the opposite vector can be stored.
    pub open spec fn negation_fits(self) -> bool {
        self.u != i64::MIN && self.v != i64::MIN
    }

    /// The opposite vector, where `negation_fits`.
    pub open spec fn negated(self) -> Vector2 {
        Vector2 { u: (-self.u) as i64, v: (-self.v) as i64 }
    }

    /// The opposite vector, or `None` where a component of it cannot be stored.
    pub fn checked_neg(self) -> (r: Option<Vector2>)
        ensures
            r == (if self.negation_fits() {
                Some(self.negated())
            } else {
                None
            }),
    {
        if self.u == i64::MIN || self.v == i64::MIN {
            None
        } else {
            Some(Vector2 { u: -self.u, v: -self.v })
        }
    }
}

impl Point2 {
    /// Whether the displacement from `from` to this point can be stored.
    pub open spec fn difference_fits(self, from: Point2) -> bool {
        fits(self.u - from.u) && fits(self.v - from.v)
    }

    /// The displacement from `from` to this point, where `difference_fits`.
    pub open spec fn difference(self, from: Point2) -> Vector2 {
        Vector2 { u: (self.u - from.u) as i64, v: (self.v - from.v) as i64 }
    }

    /// The displacement from `from` to this point, or `None` where a
    /// component of it cannot be stored.
    pub fn checked_sub(self, from: Point2) -> (r: Option<Vector2>)
        ensures
            r == (if self.difference_fits(from) {
                Some(self.difference(from))
            } else {
                None
            }),
    {
        match (self.u.checked_sub(from.u), self.v.checked_sub(from.v)) {
            (Some(u), Some(v)) => Some(Vector2 { u, v }),
            _ => None,
        }
    }
}

/// `base + factor * step`, or `None` where the sum cannot be stored.
pub fn checked_mul_add(base: Scalar, factor: Scalar, step: Scalar) -> (r: Option<Scalar>)
    ensures
        r == (if fits(base + factor * step) {
            Some((base + factor * step) as i64)
        } else {
            None
        }),
{
    assert(-0x4000_0000_0000_0000_0000_0000_0000_0000 <= factor * step
        <= 0x4000_0000_0000_0000_0000_0000_0000_0000) by (nonlinear_arith)
        requires
            -0x8000_0000_0000_0000 <= factor <= 0x8000_0000_0000_0000,
            -0x8000_0000_0000_0000 <= step <= 0x8000_0000_0000_0000,
    ;
    let product: i128 = (factor as i128) * (step as i128);
    let sum: i128 = base as i128 + product;
    if sum < i64::MIN as i128 || sum > i64::MAX as i128 {
        None
    } else {
        Some(sum as i64)
    }
}

/// `base + f1 * s1 + f2 * s2`, or `None` where the sum cannot be stored.
pub fn checked_mul_add2(base: Scalar, f1: Scalar, s1: Scalar, f2: Scalar, s2: Scalar) -> (r:
    Option<Scalar>)
    ensures
        r == (if fits(base + f1 * s1 + f2 * s2) {
            Some((base + f1 * s1 + f2 * s2) as i64)
        } else {
            None
        }),
{
    assert(-0x4000_0000_0000_0000_0000_0000_0000_0000 <= f1 * s1
        <= 0x4000_0000_0000_0000_0000_0000_0000_0000) by (nonlinear_arith)
        requires
            -0x8000_0000_0000_0000 <= f1 <= 0x8000_0000_0000_0000,
            -0x8000_0000_0000_0000 <= s1 <= 0x8000_0000_0000_0000,
    ;
    assert(-0x4000_0000_0000_0000_0000_0000_0000_0000 <= f2 * s2
        <= 0x4000_0000_0000_0000_0000_0000_0000_0000) by (nonlinear_arith)
        requires
            -0x8000_0000_0000_0000 <= f2 <= 0x8000_0000_0000_0000,
            -0x8000_0000_0000_0000 <= s2 <= 0x8000_0000_0000_0000,
    ;
    let limit: i128 = 0x1_0000_0000_0000_0000;
    let first: i128 = (f1 as i128) * (s1 as i128);
    let second: i128 = (f2 as i128) * (s2 as i128);
    if (first > limit && second > limit) || (first < -limit && second < -limit) {
        return None;
    }
    let sum: i128 = base as i128 + first + second;
    if sum < i64::MIN as i128 || sum > i64::MAX as i128 {
        None
    } else {
        Some(sum as i64)
    }
}

/// A straight line on a surface: coordinate `t` on it is the point
/// `origin + t * direction`. A line whose direction has no length is
/// degenerate, and allowed.
#[derive(Clone, Copy, Debug, PartialEq, Eq, Hash, Structural)]
pub struct Line2 {
    pub origin: Point2,
    pub direction: Vector2,
}

/// A straight line in space: coordinate `t` on it is the point
/// `origin + t * direction`. A line whose direction has no length is
/// degenerate, and allowed.
#[derive(Clone, Copy, Debug, PartialEq, Eq, Hash, Structural)]
pub struct Line3 {
    pub origin: Point3,
    pub direction: Vector3,
}

/// A circle on a surface, round `center`: `a` points from the center to
/// coordinate zero, and `b`, perpendicular to it and as long, gives the
/// sense in which the coordinate grows.
#[derive(Clone, Copy, Debug, PartialEq, Eq, Hash, Structural)]
pub struct Circle2 {
    pub center: Point2,
    pub a: Vector2,
    pub b: Vector2,
}

/// A circle in space, round `center`: `a` points from the center to
/// coordinate zero, and `b`, perpendicular to it and as long, gives the
/// sense in which the coordinate grows.
#[derive(Clone, Copy, Debug, PartialEq, Eq, Hash, Structural)]
pub struct Circle3 {
    pub center: Point3,
    pub a: Vector3,
    pub b: Vector3,
}

impl Line2 {
    /// The coordinates of the point at `t`, as unbounded integers.
    pub open spec fn point_at(self, t: int) -> (int, int) {
        (self.origin.u + t * self.direction.u, self.origin.v + t * self.direction.v)
    }

    /// Whether the point at `t` can be stored.
    pub open spec fn point_fits(self, t: int) -> bool {
        fits(self.point_at(t).0) && fits(self.point_at(t).1)
    }

    /// The line on which `a` has coordinate 0 and `b` coordinate 1, or `None`
    /// where its direction cannot be stored.
    pub fn from_points(a: Point2, b: Point2) -> (r: Option<Line2>)
        ensures
            r == (if b.difference_fits(a) {
                Some(Line2 { origin: a, direction: b.difference(a) })
            } else {
                None
            }),
    {
        match b.checked_sub(a) {
            Some(direction) => Some(Line2 { origin: a, direction }),
            None => None,
        }
    }

    /// The line of constant `v` on which coordinate `t` is the point `(t, v)`.
    pub fn along_u(v: Scalar) -> (r: Line2)
        ensures
            r == (Line2 { origin: Point2 { u: 0, v }, direction: Vector2 { u: 1, v: 0 } }),
    {
        Line2 { origin: Point2 { u: 0, v }, direction: Vector2 { u: 1, v: 0 } }
    }

    /// The same line run through the other way, or `None` where the opposite
    /// of its direction cannot be stored.
    pub fn reverse(self) -> (r: Option<Line2>)
        ensures
            r == (if self.direction.negation_fits() {
                Some(Line2 { origin: self.origin, direction: self.direction.negated() })
            } else {
                None
            }),
    {
        match self.direction.checked_neg() {
            Some(direction) => Some(Line2 { origin: self.origin, direction }),
            None => None,
        }
    }

    /// The point at coordinate `t`, or `None` where it cannot be stored.
    pub fn point_from_line_coords(self, t: Point1) -> (r: Option<Point2>)
        ensures
            r.is_some() == self.point_fits(t.t as int),
            r matches Some(p) ==> (p.u as int, p.v as int) == self.point_at(t.t as int),
    {
        match (
            checked_mul_add(self.origin.u, t.t, self.direction.u),
            checked_mul_add(self.origin.v, t.t, self.direction.v),
        ) {
            (Some(u), Some(v)) => Some(Point2 { u, v }),
            _ => None,
        }
    }
}

/// On the line of constant `v` that `Line2::along_u` gives, coordinate `t`
/// is the point `(t, v)`.
pub proof fn lemma_along_u_point_at(v: Scalar, t: int)
    ensures
        (Line2 { origin: Point2 { u: 0, v }, direction: Vector2 { u: 1, v: 0 } }).point_at(t) == (
            t,
            v as int,
        ),
{
    assert(t * 1 == t && t * 0 == 0);
}

impl Line3 {
    /// The coordinates of the point at `t`, as unbounded integers.
    pub open spec fn point_at(self, t: int) -> (int, int, int) {
        (
            self.origin.x + t * self.direction.x,
            self.origin.y + t * self.direction.y,
            self.origin.z + t * self.direction.z,
        )
    }

    /// Whether the point at `t` can be stored.
    pub open spec fn point_fits(self, t: int) -> bool {
        fits(self.point_at(t).0) && fits(self.point_at(t).1) && fits(self.point_at(t).2)
    }

    /// The line on which `a` has coordinate 0 and `b` coordinate 1, or `None`
    /// where its direction cannot be stored.
    pub fn from_points(a: Point3, b: Point3) -> (r: Option<Line3>)
        ensures
            r == (if b.difference_fits(a) {
                Some(Line3 { origin: a, direction: b.difference(a) })
            } else {
                None
            }),
    {
        match b.checked_sub(a) {
            Some(direction) => Some(Line3 { origin: a, direction }),
            None => None,
        }
    }

    /// The same line run through the other way, or `None` where the opposite
    /// of its direction cannot be stored.
    pub fn reverse(self) -> (r: Option<Line3>)
        ensures
            r == (if self.direction.negation_fits() {
                Some(Line3 { origin: self.origin, direction: self.direction.negated() })
            } else {
                None
            }),
    {
        match self.direction.checked_neg() {
            Some(direction) => Some(Line3 { origin: self.origin, direction }),
            None => None,
        }
    }

    /// The line moved by `offset`, or `None` where its origin cannot be
    /// stored.
    pub fn translate(self, offset: Vector3) -> (r: Option<Line3>)
        ensures
            r == (if self.origin.translation_fits(offset) {
                Some(Line3 { origin: self.origin.translated(offset), direction: self.direction })
            } else {
                None
            }),
    {
        match self.origin.checked_translate(offset) {
            Some(origin) => Some(Line3 { origin, direction: self.direction }),
            None => None,
        }
    }

    /// The point at coordinate `t`, or `None` where it cannot be stored.
    pub fn point_from_line_coords(self, t: Point1) -> (r: Option<Point3>)
        ensures
            r.is_some() == self.point_fits(t.t as int),
            r matches Some(p) ==> (p.x as int, p.y as int, p.z as int) == self.point_at(t.t as int),
    {
        match (
            checked_mul_add(self.origin.x, t.t, self.direction.x),
            checked_mul_add(self.origin.y, t.t, self.direction.y),
            checked_mul_add(self.origin.z, t.t, self.direction.z),
        ) {
            (Some(x), Some(y), Some(z)) => Some(Point3 { x, y, z }),
            _ => None,
        }
    }
}

impl Circle2 {
    /// The same circle run through the other way, or `None` where the
    /// opposite of `b` cannot be stored.
    pub fn reverse(self) -> (r: Option<Circle2>)
        ensures
            r == (if self.b.negation_fits() {
                Some(Circle2 { center: self.center, a: self.a, b: self.b.negated() })
            } else {
                None
            }),
    {
        match self.b.checked_neg() {
            Some(b) => Some(Circle2 { center: self.center, a: self.a, b }),
            None => None,
        }
    }
}

impl Circle3 {
    /// The same circle run through the other way, or `None` where the
    /// opposite of `b` cannot be stored.
    pub fn reverse(self) -> (r: Option<Circle3>)
        ensures
            r == (if self.b.negation_fits() {
                Some(Circle3 { center: self.center, a: self.a, b: self.b.negated() })
            } else {
                None
            }),
    {
        match self.b.checked_neg() {
            Some(b) => Some(Circle3 { center: self.center, a: self.a, b }),
            None => None,
        }
    }

    /// The circle moved by `offset`, or `None` where its center cannot be
    /// stored.
    pub fn translate(self, offset: Vector3) -> (r: Option<Circle3>)
        ensures
            r == (if self.center.translation_fits(offset) {
                Some(Circle3 { center: self.center.translated(offset), a: self.a, b: self.b })
            } else {
                None
            }),
    {
        match self.center.checked_translate(offset) {
            Some(center) => Some(Circle3 { center, a: self.a, b: self.b }),
            None => None,
        }
    }
}

} // verus!

//! Fixed-point convex geometry used by fighter hurtboxes: capsules and a
//! GJK intersection test between them.

use crate::fighter::baked_animation::{m4, transform_point_fits, transform_point_spec, FixedMat4};
use crate::math::scalar::{i128_fits, i32_fits, FGWide, FGi32};
use crate::math::vec3::{
    vec3, vec3_add, vec3_add_fits, vec3_dot, vec3_neg, vec3_neg_fits, vec3_normalized, vec3_scale,
    vec3_scale_fits, vec3_sub, vec3_sub_fits, wide_product, FGVec3,
};
use vstd::prelude::*;

verus! {

/// A capsule after an arbitrary affine transform. Non-uniform scale turns the
/// spherical caps and circular cylinder into ellipsoidal geometry.
#[derive(Clone, Copy, PartialEq, Eq, Debug, Hash)]
pub struct FixedAffineCapsule {
    pub transform: FixedMat4,
    pub half_length: FGi32,
    pub radius: FGi32,
}

/// An ordinary world-space capsule, used for swept attack volumes.
#[derive(Clone, Copy, PartialEq, Eq, Structural, Debug)]
pub struct FixedCapsule {
    pub start: FGVec3,
    pub end: FGVec3,
    pub radius: FGi32,
}

impl FixedCapsule {
    pub fn new(start: FGVec3, end: FGVec3, radius: FGi32) -> (r: FixedCapsule)
        ensures
            r == (FixedCapsule { start, end, radius }),
    {
        FixedCapsule { start, end, radius }
    }
}

/// The `+X` unit vector, used where a direction is needed but none is given.
pub open spec fn unit_x() -> FGVec3 {
    vec3(65536, 0, 0)
}

pub open spec fn is_zero3(v: FGVec3) -> bool {
    v.x.bits == 0 && v.y.bits == 0 && v.z.bits == 0
}

/// The unit vector along `v`, or `+X` for the zero vector.
pub open spec fn unit_or_x(v: FGVec3) -> FGVec3 {
    match vec3_normalized(v) {
        Some(n) => n,
        None => unit_x(),
    }
}

/// Bits of the dot product of column `c`'s spatial part with `v`, narrowed
/// toward negative infinity.
pub open spec fn dot_column_spec(m: FixedMat4, c: int, v: FGVec3) -> int {
    (m4(m, c, 0) * v.x.bits + m4(m, c, 1) * v.y.bits + m4(m, c, 2) * v.z.bits) / 65536
}

/// The cross product, each component narrowed toward negative infinity.
pub open spec fn cross_spec(a: FGVec3, b: FGVec3) -> FGVec3 {
    vec3(
        (a.y.bits * b.z.bits - a.z.bits * b.y.bits) / 65536,
        (a.z.bits * b.x.bits - a.x.bits * b.z.bits) / 65536,
        (a.x.bits * b.y.bits - a.y.bits * b.x.bits) / 65536,
    )
}

pub open spec fn cross_fits(a: FGVec3, b: FGVec3) -> bool {
    &&& i32_fits((a.y.bits * b.z.bits - a.z.bits * b.y.bits) / 65536)
    &&& i32_fits((a.z.bits * b.x.bits - a.x.bits * b.z.bits) / 65536)
    &&& i32_fits((a.x.bits * b.y.bits - a.y.bits * b.x.bits) / 65536)
}

/// `(a × m) × b`.
pub open spec fn triple_cross_spec(a: FGVec3, m: FGVec3, b: FGVec3) -> FGVec3 {
    cross_spec(cross_spec(a, m), b)
}

pub open spec fn triple_cross_fits(a: FGVec3, m: FGVec3, b: FGVec3) -> bool {
    cross_fits(a, m) && cross_fits(cross_spec(a, m), b)
}

/// The direction `d` in the capsule's local frame.
pub open spec fn local_direction(cap: FixedAffineCapsule, d: FGVec3) -> FGVec3 {
    vec3(
        dot_column_spec(cap.transform, 0, d),
        dot_column_spec(cap.transform, 1, d),
        dot_column_spec(cap.transform, 2, d),
    )
}

/// The local point of the capsule furthest along `d`, before the transform.
pub open spec fn affine_support_local(cap: FixedAffineCapsule, d: FGVec3) -> FGVec3 {
    let local = local_direction(cap, d);
    let round = vec3_scale(unit_or_x(local), cap.radius.bits as int);
    let endpoint: int = if local.y.bits >= 0 {
        cap.half_length.bits as int
    } else {
        -cap.half_length.bits
    };
    vec3_add(round, vec3(0, endpoint, 0))
}

/// The point of the transformed capsule furthest along `d`.
pub open spec fn affine_support(cap: FixedAffineCapsule, d: FGVec3) -> FGVec3 {
    transform_point_spec(cap.transform, affine_support_local(cap, d))
}

pub open spec fn affine_support_fits(cap: FixedAffineCapsule, d: FGVec3) -> bool {
    let local = local_direction(cap, d);
    let round = vec3_scale(unit_or_x(local), cap.radius.bits as int);
    let endpoint: int = if local.y.bits >= 0 {
        cap.half_length.bits as int
    } else {
        -cap.half_length.bits
    };
    &&& i32_fits(dot_column_spec(cap.transform, 0, d))
    &&& i32_fits(dot_column_spec(cap.transform, 1, d))
    &&& i32_fits(dot_column_spec(cap.transform, 2, d))
    &&& vec3_scale_fits(unit_or_x(local), cap.radius.bits as int)
    &&& local.y.bits < 0 ==> cap.half_length.bits != i32::MIN
    &&& vec3_add_fits(round, vec3(0, endpoint, 0))
    &&& transform_point_fits(cap.transform, affine_support_local(cap, d))
}

/// The endpoint of the capsule's segment furthest along `d` (the start on
/// ties).
pub open spec fn capsule_endpoint(cap: FixedCapsule, d: FGVec3) -> FGVec3 {
    if vec3_dot(cap.start, d) >= vec3_dot(cap.end, d) {
        cap.start
    } else {
        cap.end
    }
}

/// The point of the capsule furthest along `d`.
pub open spec fn capsule_support(cap: FixedCapsule, d: FGVec3) -> FGVec3 {
    vec3_add(capsule_endpoint(cap, d), vec3_scale(unit_or_x(d), cap.radius.bits as int))
}

pub open spec fn capsule_support_fits(cap: FixedCapsule, d: FGVec3) -> bool {
    &&& vec3_scale_fits(unit_or_x(d), cap.radius.bits as int)
    &&& vec3_add_fits(capsule_endpoint(cap, d), vec3_scale(unit_or_x(d), cap.radius.bits as int))
}

/// The working simplex of the intersection test: up to four points of the
/// Minkowski difference, the newest first.
#[derive(Clone, Copy, PartialEq, Eq, Structural, Debug)]
pub struct GjkSimplex {
    pub p0: FGVec3,
    pub p1: FGVec3,
    pub p2: FGVec3,
    pub p3: FGVec3,
    pub len: usize,
}

/// `s` with `point` pushed in front, the oldest point dropped when full.
pub open spec fn simplex_pushed(s: GjkSimplex, point: FGVec3) -> GjkSimplex {
    GjkSimplex {
        p0: point,
        p1: if s.len >= 1 { s.p0 } else { s.p1 },
        p2: if s.len >= 2 { s.p1 } else { s.p2 },
        p3: if s.len >= 3 { s.p2 } else { s.p3 },
        len: (s.len + 1) as usize,
    }
}

/// The normal of the face `(a, f, s)` of a tetrahedron, turned away from
/// the opposite vertex `o`.
pub open spec fn face_normal(a: FGVec3, f: FGVec3, s: FGVec3, o: FGVec3) -> FGVec3 {
    let n = cross_spec(vec3_sub(f, a), vec3_sub(s, a));
    if vec3_dot(n, vec3_sub(o, a)) > 0 {
        vec3_neg(n)
    } else {
        n
    }
}

pub open spec fn face_normal_fits(a: FGVec3, f: FGVec3, s: FGVec3, o: FGVec3) -> bool {
    let n = cross_spec(vec3_sub(f, a), vec3_sub(s, a));
    &&& vec3_sub_fits(f, a)
    &&& vec3_sub_fits(s, a)
    &&& cross_fits(vec3_sub(f, a), vec3_sub(s, a))
    &&& vec3_sub_fits(o, a)
    &&& vec3_dot(n, vec3_sub(o, a)) > 0 ==> vec3_neg_fits(n)
}

/// The origin lies beyond the face `(a, f, s)`.
pub open spec fn face_faces_origin(a: FGVec3, f: FGVec3, s: FGVec3, o: FGVec3) -> bool {
    vec3_dot(face_normal(a, f, s, o), vec3_neg(a)) > 0
}

/// One refinement of the simplex toward the origin: the simplex kept, the
/// next search direction, and whether the origin is enclosed.
pub open spec fn update_simplex_spec(s: GjkSimplex, dir: FGVec3) -> (GjkSimplex, FGVec3, bool) {
    let a = s.p0;
    let ao = vec3_neg(a);
    if s.len == 2 {
        let ab = vec3_sub(s.p1, a);
        if vec3_dot(ab, ao) > 0 {
            (s, triple_cross_spec(ab, ao, ab), false)
        } else {
            (GjkSimplex { len: 1, ..s }, ao, false)
        }
    } else if s.len == 3 {
        let b = s.p1;
        let c = s.p2;
        let ab = vec3_sub(b, a);
        let ac = vec3_sub(c, a);
        let abc = cross_spec(ab, ac);
        if vec3_dot(cross_spec(abc, ac), ao) > 0 {
            if vec3_dot(ac, ao) > 0 {
                (GjkSimplex { p1: c, len: 2, ..s }, triple_cross_spec(ac, ao, ac), false)
            } else {
                (GjkSimplex { len: 2, ..s }, triple_cross_spec(ab, ao, ab), false)
            }
        } else if vec3_dot(cross_spec(ab, abc), ao) > 0 {
            (GjkSimplex { len: 2, ..s }, triple_cross_spec(ab, ao, ab), false)
        } else if vec3_dot(abc, ao) > 0 {
            (s, abc, false)
        } else {
            (GjkSimplex { p1: c, p2: b, ..s }, vec3_neg(abc), false)
        }
    } else if s.len == 4 {
        let b = s.p1;
        let c = s.p2;
        let d = s.p3;
        if face_faces_origin(a, b, c, d) {
            (GjkSimplex { p0: a, p1: b, p2: c, len: 3, ..s }, face_normal(a, b, c, d), false)
        } else if face_faces_origin(a, c, d, b) {
            (GjkSimplex { p0: a, p1: c, p2: d, len: 3, ..s }, face_normal(a, c, d, b), false)
        } else if face_faces_origin(a, d, b, c) {
            (GjkSimplex { p0: a, p1: d, p2: b, len: 3, ..s }, face_normal(a, d, b, c), false)
        } else {
            (s, dir, true)
        }
    } else {
        (s, ao, false)
    }
}

pub open spec fn update_simplex_fits(s: GjkSimplex) -> bool {
    let a = s.p0;
    let ao = vec3_neg(a);
    &&& vec3_neg_fits(a)
    &&& s.len == 2 ==> {
        let ab = vec3_sub(s.p1, a);
        &&& vec3_sub_fits(s.p1, a)
        &&& vec3_dot(ab, ao) > 0 ==> triple_cross_fits(ab, ao, ab)
    }
    &&& s.len == 3 ==> {
        let b = s.p1;
        let c = s.p2;
        let ab = vec3_sub(b, a);
        let ac = vec3_sub(c, a);
        let abc = cross_spec(ab, ac);
        &&& vec3_sub_fits(b, a)
        &&& vec3_sub_fits(c, a)
        &&& cross_fits(ab, ac)
        &&& cross_fits(abc, ac)
        &&& if vec3_dot(cross_spec(abc, ac), ao) > 0 {
            if vec3_dot(ac, ao) > 0 {
                triple_cross_fits(ac, ao, ac)
            } else {
                triple_cross_fits(ab, ao, ab)
            }
        } else {
            &&& cross_fits(ab, abc)
            &&& if vec3_dot(cross_spec(ab, abc), ao) > 0 {
                triple_cross_fits(ab, ao, ab)
            } else {
                vec3_dot(abc, ao) <= 0 ==> vec3_neg_fits(abc)
            }
        }
    }
    &&& s.len == 4 ==> {
        &&& face_normal_fits(a, s.p1, s.p2, s.p3)
        &&& !face_faces_origin(a, s.p1, s.p2, s.p3) ==> {
            &&& face_normal_fits(a, s.p2, s.p3, s.p1)
            &&& !face_faces_origin(a, s.p2, s.p3, s.p1) ==> face_normal_fits(a, s.p3, s.p1, s.p2)
        }
    }
}

/// The next point of the Minkowski difference, furthest along `dir`.
pub open spec fn gjk_point(lhs: FixedAffineCapsule, rhs: FixedCapsule, dir: FGVec3) -> FGVec3 {
    vec3_sub(affine_support(lhs, dir), capsule_support(rhs, vec3_neg(dir)))
}

pub open spec fn gjk_point_fits(lhs: FixedAffineCapsule, rhs: FixedCapsule, dir: FGVec3) -> bool {
    &&& vec3_neg_fits(dir)
    &&& affine_support_fits(lhs, dir)
    &&& capsule_support_fits(rhs, vec3_neg(dir))
    &&& vec3_sub_fits(affine_support(lhs, dir), capsule_support(rhs, vec3_neg(dir)))
}

/// The outcome of the remaining `fuel` iterations from simplex `s` and
/// direction `dir`: separated as soon as the new point does not pass the
/// origin, intersecting once the origin is enclosed or the direction
/// vanishes, and intersecting when the iterations run out.
pub open spec fn gjk_result(lhs: FixedAffineCapsule, rhs: FixedCapsule, s: GjkSimplex, dir: FGVec3, fuel: nat) -> bool
    decreases fuel,
{
    if fuel == 0 {
        true
    } else {
        let point = gjk_point(lhs, rhs, dir);
        if vec3_dot(point, dir) < 0 {
            false
        } else {
            let (s2, dir2, hit) = update_simplex_spec(simplex_pushed(s, point), dir);
            if hit || is_zero3(dir2) {
                true
            } else {
                gjk_result(lhs, rhs, s2, dir2, (fuel - 1) as nat)
            }
        }
    }
}

/// Nothing overflows along the iterations that `gjk_result` runs.
pub open spec fn gjk_fits(lhs: FixedAffineCapsule, rhs: FixedCapsule, s: GjkSimplex, dir: FGVec3, fuel: nat) -> bool
    decreases fuel,
{
    if fuel == 0 {
        true
    } else {
        let point = gjk_point(lhs, rhs, dir);
        &&& gjk_point_fits(lhs, rhs, dir)
        &&& vec3_dot(point, dir) >= 0 ==> {
            let (s2, dir2, hit) = update_simplex_spec(simplex_pushed(s, point), dir);
            &&& update_simplex_fits(simplex_pushed(s, point))
            &&& (!hit && !is_zero3(dir2)) ==> gjk_fits(lhs, rhs, s2, dir2, (fuel - 1) as nat)
        }
    }
}

/// The first search direction: from the capsule's origin to the other
/// capsule's start, or `+X` where they coincide.
pub open spec fn initial_direction(lhs: FixedAffineCapsule, rhs: FixedCapsule) -> FGVec3 {
    let t = vec3(m4(lhs.transform, 3, 0), m4(lhs.transform, 3, 1), m4(lhs.transform, 3, 2));
    let d = vec3_sub(rhs.start, t);
    if is_zero3(d) {
        unit_x()
    } else {
        d
    }
}

pub open spec fn empty_simplex() -> GjkSimplex {
    GjkSimplex { p0: vec3(0, 0, 0), p1: vec3(0, 0, 0), p2: vec3(0, 0, 0), p3: vec3(0, 0, 0), len: 0 }
}

/// The iteration cap of the intersection test.
pub const GJK_MAX_ITERATIONS: u32 = 20;

/// Whether the affine capsule and the capsule intersect, as twenty GJK
/// iterations in fixed point decide it.
pub open spec fn intersects_spec(lhs: FixedAffineCapsule, rhs: FixedCapsule) -> bool {
    gjk_result(lhs, rhs, empty_simplex(), initial_direction(lhs, rhs), 20)
}

pub open spec fn intersects_fits(lhs: FixedAffineCapsule, rhs: FixedCapsule) -> bool {
    let t = vec3(m4(lhs.transform, 3, 0), m4(lhs.transform, 3, 1), m4(lhs.transform, 3, 2));
    &&& vec3_sub_fits(rhs.start, t)
    &&& gjk_fits(lhs, rhs, empty_simplex(), initial_direction(lhs, rhs), 20)
}

proof fn lemma_product_bound(a: int, b: int)
    requires
        i32_fits(a),
        i32_fits(b),
    ensures
        -0x4000_0000_0000_0000 <= a * b <= 0x4000_0000_0000_0000,
{
    assert(-0x4000_0000_0000_0000 <= a * b <= 0x4000_0000_0000_0000) by (nonlinear_arith)
        requires
            -0x8000_0000 <= a < 0x8000_0000,
            -0x8000_0000 <= b < 0x8000_0000,
    ;
}

fn dot_column(matrix: FixedMat4, column: usize, vector: FGVec3) -> (r: FGi32)
    requires
        column < 4,
        i32_fits(dot_column_spec(matrix, column as int, vector)),
    ensures
        r.bits == dot_column_spec(matrix, column as int, vector),
{
    let col = matrix.cols[column];
    proof {
        lemma_product_bound(col[0].bits as int, vector.x.bits as int);
        lemma_product_bound(col[1].bits as int, vector.y.bits as int);
        lemma_product_bound(col[2].bits as int, vector.z.bits as int);
    }
    wide_product(col[0], vector.x).add(wide_product(col[1], vector.y)).add(wide_product(col[2], vector.z)).to_fx()
}

fn cross_component(a: FGi32, b: FGi32, c: FGi32, d: FGi32) -> (r: FGi32)
    requires
        i32_fits((a.bits * b.bits - c.bits * d.bits) / 65536),
    ensures
        r.bits == (a.bits * b.bits - c.bits * d.bits) / 65536,
{
    proof {
        lemma_product_bound(a.bits as int, b.bits as int);
        lemma_product_bound(c.bits as int, d.bits as int);
    }
    wide_product(a, b).sub(wide_product(c, d)).to_fx()
}

fn cross(lhs: FGVec3, rhs: FGVec3) -> (r: FGVec3)
    requires
        cross_fits(lhs, rhs),
    ensures
        r == cross_spec(lhs, rhs),
{
    FGVec3::new(
        cross_component(lhs.y, rhs.z, lhs.z, rhs.y),
        cross_component(lhs.z, rhs.x, lhs.x, rhs.z),
        cross_component(lhs.x, rhs.y, lhs.y, rhs.x),
    )
}

fn triple_cross(lhs: FGVec3, middle: FGVec3, rhs: FGVec3) -> (r: FGVec3)
    requires
        triple_cross_fits(lhs, middle, rhs),
    ensures
        r == triple_cross_spec(lhs, middle, rhs),
{
    cross(cross(lhs, middle), rhs)
}

fn unit_or_x_exec(v: FGVec3) -> (r: FGVec3)
    ensures
        r == unit_or_x(v),
{
    match v.normalized() {
        Some(n) => n,
        None => FGVec3::new(FGi32::one(), FGi32::zero(), FGi32::zero()),
    }
}

impl FixedAffineCapsule {
    pub fn new(transform: FixedMat4, half_length: FGi32, radius: FGi32) -> (r: FixedAffineCapsule)
        ensures
            r == (FixedAffineCapsule { transform, half_length, radius }),
    {
        FixedAffineCapsule { transform, half_length, radius }
    }

    /// A point in the capsule's local frame, transformed.
    pub fn transform_point(self, point: FGVec3) -> (r: FGVec3)
        requires
            transform_point_fits(self.transform, point),
        ensures
            r == transform_point_spec(self.transform, point),
    {
        self.transform.transform_point(point)
    }

    /// The point of the capsule furthest along `direction`.
    pub fn support(self, direction: FGVec3) -> (r: FGVec3)
        requires
            affine_support_fits(self, direction),
        ensures
            r == affine_support(self, direction),
    {
        let local_direction = FGVec3::new(
            dot_column(self.transform, 0, direction),
            dot_column(self.transform, 1, direction),
            dot_column(self.transform, 2, direction),
        );
        let round = unit_or_x_exec(local_direction).scale(self.radius);
        let endpoint = if local_direction.y.bits >= 0 {
            self.half_length
        } else {
            self.half_length.neg()
        };
        self.transform_point(round.add(FGVec3::new(FGi32::zero(), endpoint, FGi32::zero())))
    }

    /// Whether this hurtbox touches the capsule, as a fixed-point GJK test
    /// of at most twenty iterations decides it; an undecided test counts as
    /// a hit.
    pub fn intersects(self, rhs: FixedCapsule) -> (r: bool)
        requires
            intersects_fits(self, rhs),
        ensures
            r == intersects_spec(self, rhs),
    {
        let mut direction = rhs.start.sub(self.transform.get_translation());
        if direction.x.bits == 0 && direction.y.bits == 0 && direction.z.bits == 0 {
            direction = FGVec3::new(FGi32::one(), FGi32::zero(), FGi32::zero());
        }
        let mut simplex = GjkSimplex {
            p0: FGVec3::zero(),
            p1: FGVec3::zero(),
            p2: FGVec3::zero(),
            p3: FGVec3::zero(),
            len: 0,
        };
        let mut i: u32 = 0;
        while i < GJK_MAX_ITERATIONS
            invariant
                i <= 20,
                simplex.len <= 3,
                gjk_fits(self, rhs, simplex, direction, (20 - i) as nat),
                gjk_result(self, rhs, simplex, direction, (20 - i) as nat) == intersects_spec(self, rhs),
            decreases 20 - i,
        {
            let point = self.support(direction).sub(rhs.support(direction.neg()));
            if point.dot(direction).bits < 0 {
                return false;
            }
            simplex = push_point(simplex, point);
            let hit = update_simplex(&mut simplex, &mut direction);
            if hit {
                return true;
            }
            if direction.x.bits == 0 && direction.y.bits == 0 && direction.z.bits == 0 {
                return true;
            }
            i = i + 1;
        }
        true
    }
}

impl FixedCapsule {
    /// The point of the capsule furthest along `direction`.
    pub fn support(self, direction: FGVec3) -> (r: FGVec3)
        requires
            capsule_support_fits(self, direction),
        ensures
            r == capsule_support(self, direction),
    {
        let endpoint = if self.start.dot(direction).bits >= self.end.dot(direction).bits {
            self.start
        } else {
            self.end
        };
        endpoint.add(unit_or_x_exec(direction).scale(self.radius))
    }
}

fn push_point(s: GjkSimplex, point: FGVec3) -> (r: GjkSimplex)
    requires
        s.len <= 3,
    ensures
        r == simplex_pushed(s, point),
{
    GjkSimplex {
        p0: point,
        p1: if s.len >= 1 { s.p0 } else { s.p1 },
        p2: if s.len >= 2 { s.p1 } else { s.p2 },
        p3: if s.len >= 3 { s.p2 } else { s.p3 },
        len: s.len + 1,
    }
}

fn face_normal_exec(a: FGVec3, f: FGVec3, s: FGVec3, o: FGVec3) -> (r: FGVec3)
    requires
        face_normal_fits(a, f, s, o),
    ensures
        r == face_normal(a, f, s, o),
{
    let normal = cross(f.sub(a), s.sub(a));
    if normal.dot(o.sub(a)).bits > 0 {
        normal.neg()
    } else {
        normal
    }
}

fn update_simplex(simplex: &mut GjkSimplex, direction: &mut FGVec3) -> (hit: bool)
    requires
        update_simplex_fits(*old(simplex)),
        1 <= old(simplex).len <= 4,
    ensures
        (*final(simplex), *final(direction), hit) == update_simplex_spec(*old(simplex), *old(direction)),
        !hit ==> final(simplex).len <= 3,
{
    let a = simplex.p0;
    let ao = a.neg();
    if simplex.len == 2 {
        let ab = simplex.p1.sub(a);
        if ab.dot(ao).bits > 0 {
            *direction = triple_cross(ab, ao, ab);
        } else {
            simplex.len = 1;
            *direction = ao;
        }
        false
    } else if simplex.len == 3 {
        let b = simplex.p1;
        let c = simplex.p2;
        let ab = b.sub(a);
        let ac = c.sub(a);
        let abc = cross(ab, ac);
        if cross(abc, ac).dot(ao).bits > 0 {
            if ac.dot(ao).bits > 0 {
                simplex.p1 = c;
                simplex.len = 2;
                *direction = triple_cross(ac, ao, ac);
            } else {
                simplex.len = 2;
                *direction = triple_cross(ab, ao, ab);
            }
        } else if cross(ab, abc).dot(ao).bits > 0 {
            simplex.len = 2;
            *direction = triple_cross(ab, ao, ab);
        } else if abc.dot(ao).bits > 0 {
            *direction = abc;
        } else {
            simplex.p1 = c;
            simplex.p2 = b;
            *direction = abc.neg();
        }
        false
    } else if simplex.len == 4 {
        let b = simplex.p1;
        let c = simplex.p2;
        let d = simplex.p3;
        let n1 = face_normal_exec(a, b, c, d);
        if n1.dot(ao).bits > 0 {
            simplex.p0 = a;
            simplex.p1 = b;
            simplex.p2 = c;
            simplex.len = 3;
            *direction = n1;
            return false;
        }
        let n2 = face_normal_exec(a, c, d, b);
        if n2.dot(ao).bits > 0 {
            simplex.p0 = a;
            simplex.p1 = c;
            simplex.p2 = d;
            simplex.len = 3;
            *direction = n2;
            return false;
        }
        let n3 = face_normal_exec(a, d, b, c);
        if n3.dot(ao).bits > 0 {
            simplex.p0 = a;
            simplex.p1 = d;
            simplex.p2 = b;
            simplex.len = 3;
            *direction = n3;
            return false;
        }
        true
    } else {
        *direction = ao;
        false
    }
}

} // verus!

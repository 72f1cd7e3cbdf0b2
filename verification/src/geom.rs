//! Fixed-point geometry: vectors, points and matrices carrying the
//! tolerance traits, together with axes and positions.
//!
//! A position is either direct (a plain point) or revolved: a base point
//! carried around an axis by an exact angle.  Angles are integers counting
//! micro-degrees, so a full turn is exactly `FULL_TURN` and rotational
//! placement composes without drift.  Numeric evaluation of a revolved
//! position (which needs trigonometry) happens outside the kernel; the
//! kernel itself only ever compares and composes placements.

use vstd::prelude::*;
use crate::tolerance::{
    in_range, ints_of, round_i64, round_spec, seq_in_range, seq_round, seq_within, within,
    Origin, RoundByTolerance, Tolerance, COORD_BOUND, TOLERANCE,
};

verus! {

/// A full turn, in angle units (micro-degrees).
pub const FULL_TURN: i64 = 360_000_000;

/// A quarter turn, in angle units.
pub const QUARTER_TURN: i64 = 90_000_000;

/// Tolerance for a componentwise cross product, which lives in squared
/// coordinate scale: 10^-7 is 10^23 squared units.
pub const CROSS_TOLERANCE: i128 = 100_000_000_000_000_000_000_000;

/// A plane vector.
#[derive(Clone, Copy, Debug, PartialEq, Eq, Structural)]
pub struct Vector2 {
    pub x: i64,
    pub y: i64,
}

/// A space vector.
#[derive(Clone, Copy, Debug, PartialEq, Eq, Structural)]
pub struct Vector3 {
    pub x: i64,
    pub y: i64,
    pub z: i64,
}

/// A homogeneous vector.
#[derive(Clone, Copy, Debug, PartialEq, Eq, Structural)]
pub struct Vector4 {
    pub x: i64,
    pub y: i64,
    pub z: i64,
    pub w: i64,
}

/// A point in space.
#[derive(Clone, Copy, Debug, PartialEq, Eq, Structural)]
pub struct Point3 {
    pub x: i64,
    pub y: i64,
    pub z: i64,
}

/// A square matrix of order two, row major.
#[derive(Clone, Copy, Debug, PartialEq, Eq, Structural)]
pub struct Matrix2 {
    pub m00: i64,
    pub m01: i64,
    pub m10: i64,
    pub m11: i64,
}

impl Tolerance for Vector2 {
    open spec fn wf(&self) -> bool {
        in_range(self.x as int) && in_range(self.y as int)
    }

    open spec fn entries(&self) -> Seq<int> {
        seq![self.x as int, self.y as int]
    }

    proof fn wf_facts(&self) {
        assert forall|i: int| 0 <= i < self.entries().len() implies in_range(self.entries()[i]) by {
        }
    }

    fn to_entries(&self) -> (v: Vec<i64>) {
        let v = vec![self.x, self.y];
        proof {
            assert(ints_of(v@) =~= self.entries());
        }
        v
    }
}

impl Origin for Vector2 {
}

impl RoundByTolerance for Vector2 {
    fn round_by_tolerance(&mut self) {
        self.x = round_i64(self.x);
        self.y = round_i64(self.y);
        proof {
            assert(self.entries() =~= seq_round(old(self).entries()));
        }
    }
}

impl Tolerance for Vector3 {
    open spec fn wf(&self) -> bool {
        in_range(self.x as int) && in_range(self.y as int) && in_range(self.z as int)
    }

    open spec fn entries(&self) -> Seq<int> {
        seq![self.x as int, self.y as int, self.z as int]
    }

    proof fn wf_facts(&self) {
        assert forall|i: int| 0 <= i < self.entries().len() implies in_range(self.entries()[i]) by {
        }
    }

    fn to_entries(&self) -> (v: Vec<i64>) {
        let v = vec![self.x, self.y, self.z];
        proof {
            assert(ints_of(v@) =~= self.entries());
        }
        v
    }
}

impl Origin for Vector3 {
}

impl RoundByTolerance for Vector3 {
    fn round_by_tolerance(&mut self) {
        self.x = round_i64(self.x);
        self.y = round_i64(self.y);
        self.z = round_i64(self.z);
        proof {
            assert(self.entries() =~= seq_round(old(self).entries()));
        }
    }
}

impl Tolerance for Vector4 {
    open spec fn wf(&self) -> bool {
        in_range(self.x as int) && in_range(self.y as int) && in_range(self.z as int)
            && in_range(self.w as int)
    }

    open spec fn entries(&self) -> Seq<int> {
        seq![self.x as int, self.y as int, self.z as int, self.w as int]
    }

    proof fn wf_facts(&self) {
        assert forall|i: int| 0 <= i < self.entries().len() implies in_range(self.entries()[i]) by {
        }
    }

    fn to_entries(&self) -> (v: Vec<i64>) {
        let v = vec![self.x, self.y, self.z, self.w];
        proof {
            assert(ints_of(v@) =~= self.entries());
        }
        v
    }
}

impl Origin for Vector4 {
}

impl RoundByTolerance for Vector4 {
    fn round_by_tolerance(&mut self) {
        self.x = round_i64(self.x);
        self.y = round_i64(self.y);
        self.z = round_i64(self.z);
        self.w = round_i64(self.w);
        proof {
            assert(self.entries() =~= seq_round(old(self).entries()));
        }
    }
}

impl Tolerance for Point3 {
    open spec fn wf(&self) -> bool {
        in_range(self.x as int) && in_range(self.y as int) && in_range(self.z as int)
    }

    open spec fn entries(&self) -> Seq<int> {
        seq![self.x as int, self.y as int, self.z as int]
    }

    proof fn wf_facts(&self) {
        assert forall|i: int| 0 <= i < self.entries().len() implies in_range(self.entries()[i]) by {
        }
    }

    fn to_entries(&self) -> (v: Vec<i64>) {
        let v = vec![self.x, self.y, self.z];
        proof {
            assert(ints_of(v@) =~= self.entries());
        }
        v
    }
}

impl Tolerance for Matrix2 {
    open spec fn wf(&self) -> bool {
        in_range(self.m00 as int) && in_range(self.m01 as int) && in_range(self.m10 as int)
            && in_range(self.m11 as int)
    }

    open spec fn entries(&self) -> Seq<int> {
        seq![self.m00 as int, self.m01 as int, self.m10 as int, self.m11 as int]
    }

    proof fn wf_facts(&self) {
        assert forall|i: int| 0 <= i < self.entries().len() implies in_range(self.entries()[i]) by {
        }
    }

    fn to_entries(&self) -> (v: Vec<i64>) {
        let v = vec![self.m00, self.m01, self.m10, self.m11];
        proof {
            assert(ints_of(v@) =~= self.entries());
        }
        v
    }
}

impl Origin for Matrix2 {
}

impl RoundByTolerance for Matrix2 {
    fn round_by_tolerance(&mut self) {
        self.m00 = round_i64(self.m00);
        self.m01 = round_i64(self.m01);
        self.m10 = round_i64(self.m10);
        self.m11 = round_i64(self.m11);
        proof {
            assert(self.entries() =~= seq_round(old(self).entries()));
        }
    }
}


/// A one-dimensional vector.
#[derive(Clone, Copy, Debug, PartialEq, Eq, Structural)]
pub struct Vector1 {
    pub x: i64,
}

/// A point on a line.
#[derive(Clone, Copy, Debug, PartialEq, Eq, Structural)]
pub struct Point1 {
    pub x: i64,
}

/// A point in the plane.
#[derive(Clone, Copy, Debug, PartialEq, Eq, Structural)]
pub struct Point2 {
    pub x: i64,
    pub y: i64,
}

/// A square matrix of order three, row major.
#[derive(Clone, Copy, Debug, PartialEq, Eq, Structural)]
pub struct Matrix3 {
    pub m00: i64,
    pub m01: i64,
    pub m02: i64,
    pub m10: i64,
    pub m11: i64,
    pub m12: i64,
    pub m20: i64,
    pub m21: i64,
    pub m22: i64,
}

/// A square matrix of order four, row major.
#[derive(Clone, Copy, Debug, PartialEq, Eq, Structural)]
pub struct Matrix4 {
    pub m00: i64,
    pub m01: i64,
    pub m02: i64,
    pub m03: i64,
    pub m10: i64,
    pub m11: i64,
    pub m12: i64,
    pub m13: i64,
    pub m20: i64,
    pub m21: i64,
    pub m22: i64,
    pub m23: i64,
    pub m30: i64,
    pub m31: i64,
    pub m32: i64,
    pub m33: i64,
}

impl Tolerance for Vector1 {
    open spec fn wf(&self) -> bool {
        in_range(self.x as int)
    }

    open spec fn entries(&self) -> Seq<int> {
        seq![self.x as int]
    }

    proof fn wf_facts(&self) {
        assert forall|i: int| 0 <= i < self.entries().len() implies in_range(self.entries()[i]) by {
        }
    }

    fn to_entries(&self) -> (v: Vec<i64>) {
        let v = vec![self.x];
        proof {
            assert(ints_of(v@) =~= self.entries());
        }
        v
    }
}

impl Origin for Vector1 {
}

impl RoundByTolerance for Vector1 {
    fn round_by_tolerance(&mut self) {
        self.x = round_i64(self.x);
        proof {
            assert(self.entries() =~= seq_round(old(self).entries()));
        }
    }
}

impl Tolerance for Point1 {
    open spec fn wf(&self) -> bool {
        in_range(self.x as int)
    }

    open spec fn entries(&self) -> Seq<int> {
        seq![self.x as int]
    }

    proof fn wf_facts(&self) {
        assert forall|i: int| 0 <= i < self.entries().len() implies in_range(self.entries()[i]) by {
        }
    }

    fn to_entries(&self) -> (v: Vec<i64>) {
        let v = vec![self.x];
        proof {
            assert(ints_of(v@) =~= self.entries());
        }
        v
    }
}

impl Tolerance for Point2 {
    open spec fn wf(&self) -> bool {
        in_range(self.x as int) && in_range(self.y as int)
    }

    open spec fn entries(&self) -> Seq<int> {
        seq![self.x as int, self.y as int]
    }

    proof fn wf_facts(&self) {
        assert forall|i: int| 0 <= i < self.entries().len() implies in_range(self.entries()[i]) by {
        }
    }

    fn to_entries(&self) -> (v: Vec<i64>) {
        let v = vec![self.x, self.y];
        proof {
            assert(ints_of(v@) =~= self.entries());
        }
        v
    }
}

impl Tolerance for Matrix3 {
    open spec fn wf(&self) -> bool {
        &&& in_range(self.m00 as int) && in_range(self.m01 as int) && in_range(self.m02 as int)
        &&& in_range(self.m10 as int) && in_range(self.m11 as int) && in_range(self.m12 as int)
        &&& in_range(self.m20 as int) && in_range(self.m21 as int) && in_range(self.m22 as int)
    }

    open spec fn entries(&self) -> Seq<int> {
        seq![
            self.m00 as int,
            self.m01 as int,
            self.m02 as int,
            self.m10 as int,
            self.m11 as int,
            self.m12 as int,
            self.m20 as int,
            self.m21 as int,
            self.m22 as int,
        ]
    }

    proof fn wf_facts(&self) {
        assert forall|i: int| 0 <= i < self.entries().len() implies in_range(self.entries()[i]) by {
        }
    }

    fn to_entries(&self) -> (v: Vec<i64>) {
        let v = vec![
            self.m00,
            self.m01,
            self.m02,
            self.m10,
            self.m11,
            self.m12,
            self.m20,
            self.m21,
            self.m22,
        ];
        proof {
            assert(ints_of(v@) =~= self.entries());
        }
        v
    }
}

impl Origin for Matrix3 {
}

impl RoundByTolerance for Matrix3 {
    fn round_by_tolerance(&mut self) {
        self.m00 = round_i64(self.m00);
        self.m01 = round_i64(self.m01);
        self.m02 = round_i64(self.m02);
        self.m10 = round_i64(self.m10);
        self.m11 = round_i64(self.m11);
        self.m12 = round_i64(self.m12);
        self.m20 = round_i64(self.m20);
        self.m21 = round_i64(self.m21);
        self.m22 = round_i64(self.m22);
        proof {
            assert(self.entries() =~= seq_round(old(self).entries()));
        }
    }
}

impl Tolerance for Matrix4 {
    open spec fn wf(&self) -> bool {
        &&& in_range(self.m00 as int) && in_range(self.m01 as int) && in_range(self.m02 as int)
        &&& in_range(self.m03 as int) && in_range(self.m10 as int) && in_range(self.m11 as int)
        &&& in_range(self.m12 as int) && in_range(self.m13 as int) && in_range(self.m20 as int)
        &&& in_range(self.m21 as int) && in_range(self.m22 as int) && in_range(self.m23 as int)
        &&& in_range(self.m30 as int) && in_range(self.m31 as int) && in_range(self.m32 as int)
        &&& in_range(self.m33 as int)
    }

    open spec fn entries(&self) -> Seq<int> {
        seq![
            self.m00 as int,
            self.m01 as int,
            self.m02 as int,
            self.m03 as int,
            self.m10 as int,
            self.m11 as int,
            self.m12 as int,
            self.m13 as int,
            self.m20 as int,
            self.m21 as int,
            self.m22 as int,
            self.m23 as int,
            self.m30 as int,
            self.m31 as int,
            self.m32 as int,
            self.m33 as int,
        ]
    }

    proof fn wf_facts(&self) {
        assert forall|i: int| 0 <= i < self.entries().len() implies in_range(self.entries()[i]) by {
        }
    }

    fn to_entries(&self) -> (v: Vec<i64>) {
        let v = vec![
            self.m00,
            self.m01,
            self.m02,
            self.m03,
            self.m10,
            self.m11,
            self.m12,
            self.m13,
            self.m20,
            self.m21,
            self.m22,
            self.m23,
            self.m30,
            self.m31,
            self.m32,
            self.m33,
        ];
        proof {
            assert(ints_of(v@) =~= self.entries());
        }
        v
    }
}

impl Origin for Matrix4 {
}

impl RoundByTolerance for Matrix4 {
    fn round_by_tolerance(&mut self) {
        self.m00 = round_i64(self.m00);
        self.m01 = round_i64(self.m01);
        self.m02 = round_i64(self.m02);
        self.m03 = round_i64(self.m03);
        self.m10 = round_i64(self.m10);
        self.m11 = round_i64(self.m11);
        self.m12 = round_i64(self.m12);
        self.m13 = round_i64(self.m13);
        self.m20 = round_i64(self.m20);
        self.m21 = round_i64(self.m21);
        self.m22 = round_i64(self.m22);
        self.m23 = round_i64(self.m23);
        self.m30 = round_i64(self.m30);
        self.m31 = round_i64(self.m31);
        self.m32 = round_i64(self.m32);
        self.m33 = round_i64(self.m33);
        proof {
            assert(self.entries() =~= seq_round(old(self).entries()));
        }
    }
}

/// The variable-length coordinate sequence, standing in for comparing
/// whole coordinate slices at once.
impl Tolerance for Vec<i64> {
    open spec fn wf(&self) -> bool {
        seq_in_range(ints_of(self@))
    }

    open spec fn entries(&self) -> Seq<int> {
        ints_of(self@)
    }

    proof fn wf_facts(&self) {
    }

    fn to_entries(&self) -> (v: Vec<i64>) {
        let n = self.len();
        let mut v: Vec<i64> = Vec::new();
        for i in 0..n
            invariant
                n == self@.len(),
                v@ == self@.take(i as int),
        {
            v.push(self[i]);
            proof {
                assert(v@ =~= self@.take(i as int + 1));
            }
        }
        proof {
            assert(v@ =~= self@);
        }
        v
    }
}

/// A rotation axis: a point it passes through and its direction.
#[derive(Clone, Copy, Debug, PartialEq, Eq, Structural)]
pub struct Axis {
    pub origin: Point3,
    pub dir: Vector3,
}

impl Axis {
    pub open spec fn wf(&self) -> bool {
        self.origin.wf() && self.dir.wf()
    }
}

/// The canonical axis of a direct position (no rotation pending).
pub open spec fn zero_axis() -> Axis {
    Axis { origin: Point3 { x: 0, y: 0, z: 0 }, dir: Vector3 { x: 0, y: 0, z: 0 } }
}

/// Builds the canonical axis of a direct position.
pub fn make_zero_axis() -> (a: Axis)
    ensures
        a == zero_axis(),
{
    Axis { origin: Point3 { x: 0, y: 0, z: 0 }, dir: Vector3 { x: 0, y: 0, z: 0 } }
}

/// Where a vertex sits: a base point, carried around `axis` by `angle`
/// angle units.  A direct position has angle zero and the canonical axis.
#[derive(Clone, Copy, Debug, PartialEq, Eq, Structural)]
pub struct Position {
    pub base: Point3,
    pub axis: Axis,
    pub angle: i64,
}

impl Position {
    pub open spec fn wf(&self) -> bool {
        &&& self.base.wf()
        &&& self.axis.wf()
        &&& 0 <= self.angle < FULL_TURN
        &&& (self.angle == 0 ==> self.axis == zero_axis())
    }

    /// No rotation pending: the position is its base point.
    pub open spec fn is_direct(&self) -> bool {
        self.angle == 0
    }

    /// The direct position at a point.
    pub fn at(p: Point3) -> (r: Position)
        requires
            p.wf(),
        ensures
            r == direct_at(p),
            r.wf(),
            r.is_direct(),
    {
        Position { base: p, axis: make_zero_axis(), angle: 0 }
    }
}

/// The direct position at a point.
pub open spec fn direct_at(p: Point3) -> Position {
    Position { base: p, axis: zero_axis(), angle: 0 }
}

/// Tolerance identity of two positions.  Direct positions compare by their
/// points; revolved positions compare by their generators: same exact
/// angle, near bases and near axes.  This under-approximates geometric
/// nearness (it never merges two genuinely distinct points) and is
/// reflexive and symmetric, like every tolerance comparison of the kernel.
pub open spec fn pos_near(a: Position, b: Position) -> bool {
    if a.angle == 0 && b.angle == 0 {
        seq_within(a.base.entries(), b.base.entries(), TOLERANCE as int)
    } else {
        &&& a.angle == b.angle
        &&& seq_within(a.base.entries(), b.base.entries(), TOLERANCE as int)
        &&& seq_within(a.axis.origin.entries(), b.axis.origin.entries(), TOLERANCE as int)
        &&& seq_within(a.axis.dir.entries(), b.axis.dir.entries(), TOLERANCE as int)
    }
}

/// Decides tolerance identity of two positions.
pub fn position_near(a: &Position, b: &Position) -> (r: bool)
    requires
        a.wf(),
        b.wf(),
    ensures
        r == pos_near(*a, *b),
{
    if a.angle == 0 && b.angle == 0 {
        a.base.near(&b.base)
    } else {
        a.angle == b.angle && a.base.near(&b.base) && a.axis.origin.near(&b.axis.origin)
            && a.axis.dir.near(&b.axis.dir)
    }
}

/// `pos_near` is reflexive on well-formed positions.
pub proof fn lemma_pos_near_reflexive(a: Position)
    ensures
        pos_near(a, a),
{
}

/// `pos_near` is symmetric.
pub proof fn lemma_pos_near_symmetric(a: Position, b: Position)
    ensures
        pos_near(a, b) == pos_near(b, a),
{
    crate::tolerance::lemma_near_symmetric(a.base.entries(), b.base.entries(), TOLERANCE as int);
    crate::tolerance::lemma_near_symmetric(
        a.axis.origin.entries(),
        b.axis.origin.entries(),
        TOLERANCE as int,
    );
    crate::tolerance::lemma_near_symmetric(
        a.axis.dir.entries(),
        b.axis.dir.entries(),
        TOLERANCE as int,
    );
}

/// The translation of a point stays in range.
pub open spec fn translatable_point(p: Point3, d: Vector3) -> bool {
    in_range(p.x + d.x) && in_range(p.y + d.y) && in_range(p.z + d.z)
}

/// The translated point.
pub open spec fn translate_point_spec(p: Point3, d: Vector3) -> Point3 {
    Point3 { x: (p.x + d.x) as i64, y: (p.y + d.y) as i64, z: (p.z + d.z) as i64 }
}

/// Translates a point by a displacement.
pub fn translate_point(p: &Point3, d: &Vector3) -> (r: Point3)
    requires
        p.wf(),
        d.wf(),
        translatable_point(*p, *d),
    ensures
        r == translate_point_spec(*p, *d),
        r.wf(),
{
    Point3 { x: p.x + d.x, y: p.y + d.y, z: p.z + d.z }
}

/// The translation of a position stays in range (its base and, when a
/// rotation is pending, its axis origin move together).
pub open spec fn translatable_pos(p: Position, d: Vector3) -> bool {
    translatable_point(p.base, d) && (p.angle != 0 ==> translatable_point(p.axis.origin, d))
}

/// The translated position: a pending rotation is conjugated by the
/// translation, so base and axis move together and the angle is kept.
pub open spec fn translate_pos_spec(p: Position, d: Vector3) -> Position {
    if p.angle == 0 {
        direct_at(translate_point_spec(p.base, d))
    } else {
        Position {
            base: translate_point_spec(p.base, d),
            axis: Axis { origin: translate_point_spec(p.axis.origin, d), dir: p.axis.dir },
            angle: p.angle,
        }
    }
}

/// Translates a position by a displacement.
pub fn translate_pos(p: &Position, d: &Vector3) -> (r: Position)
    requires
        p.wf(),
        d.wf(),
        translatable_pos(*p, *d),
    ensures
        r == translate_pos_spec(*p, *d),
        r.wf(),
{
    if p.angle == 0 {
        Position::at(translate_point(&p.base, d))
    } else {
        Position {
            base: translate_point(&p.base, d),
            axis: Axis { origin: translate_point(&p.axis.origin, d), dir: p.axis.dir },
            angle: p.angle,
        }
    }
}

/// A position can be carried around `ax`: it is direct, or its pending
/// rotation is already about that very axis.
pub open spec fn rotatable(p: Position, ax: Axis) -> bool {
    p.angle == 0 || p.axis == ax
}

/// The sum of two normalized angles, reduced to `[0, FULL_TURN)`.
pub open spec fn norm_add(a: int, b: int) -> int {
    if a + b >= FULL_TURN {
        a + b - FULL_TURN
    } else {
        a + b
    }
}

/// The position carried around `ax` by a further `delta` angle units.
pub open spec fn rotate_pos_spec(p: Position, ax: Axis, delta: int) -> Position {
    if norm_add(p.angle as int, delta) == 0 {
        direct_at(p.base)
    } else {
        Position { base: p.base, axis: ax, angle: norm_add(p.angle as int, delta) as i64 }
    }
}

/// Carries a position around an axis by a normalized angle.
pub fn rotate_pos(p: &Position, ax: &Axis, delta: i64) -> (r: Position)
    requires
        p.wf(),
        ax.wf(),
        0 <= delta < FULL_TURN,
        rotatable(*p, *ax),
    ensures
        r == rotate_pos_spec(*p, *ax, delta as int),
        r.wf(),
        rotatable(r, *ax),
        r.base == p.base,
{
    let s = p.angle + delta;
    let a = if s >= FULL_TURN {
        s - FULL_TURN
    } else {
        s
    };
    if a == 0 {
        Position::at(p.base)
    } else {
        Position { base: p.base, axis: *ax, angle: a }
    }
}

/// Rotational placement composes: carrying a position by `a` and then by
/// `b` about one axis is carrying it by the reduced sum of the angles.
/// Four quarter turns in a row therefore come back to the start exactly.
pub proof fn lemma_rotate_compose(p: Position, ax: Axis, a: int, b: int)
    requires
        p.wf(),
        0 <= a < FULL_TURN,
        0 <= b < FULL_TURN,
        rotatable(p, ax),
    ensures
        rotate_pos_spec(rotate_pos_spec(p, ax, a), ax, b) == rotate_pos_spec(
            p,
            ax,
            norm_add(a, b),
        ),
{
}

/// A full turn in quarter steps is the identity on placements.
pub proof fn lemma_four_quarters_identity(p: Position, ax: Axis)
    requires
        p.wf(),
        p.is_direct(),
    ensures
        rotate_pos_spec(
            rotate_pos_spec(
                rotate_pos_spec(
                    rotate_pos_spec(p, ax, QUARTER_TURN as int),
                    ax,
                    QUARTER_TURN as int,
                ),
                ax,
                QUARTER_TURN as int,
            ),
            ax,
            QUARTER_TURN as int,
        ) == p,
{
}

/// One component of the cross product of `p - ax.origin` with `ax.dir`,
/// in squared coordinate scale.
pub open spec fn cross_x(p: Point3, ax: Axis) -> int {
    (p.y - ax.origin.y) * ax.dir.z - (p.z - ax.origin.z) * ax.dir.y
}

pub open spec fn cross_y(p: Point3, ax: Axis) -> int {
    (p.z - ax.origin.z) * ax.dir.x - (p.x - ax.origin.x) * ax.dir.z
}

pub open spec fn cross_z(p: Point3, ax: Axis) -> int {
    (p.x - ax.origin.x) * ax.dir.y - (p.y - ax.origin.y) * ax.dir.x
}

/// The axis passes through the point, within tolerance: the cross product
/// of the offset with the direction is componentwise below the
/// squared-scale tolerance.
pub open spec fn on_axis_spec(p: Point3, ax: Axis) -> bool {
    within(cross_x(p, ax), 0, CROSS_TOLERANCE as int) && within(
        cross_y(p, ax),
        0,
        CROSS_TOLERANCE as int,
    ) && within(cross_z(p, ax), 0, CROSS_TOLERANCE as int)
}

/// Bounds a product of two bounded factors.
pub proof fn lemma_mul_bound(a: int, b: int, m: int, n: int)
    requires
        -m <= a <= m,
        -n <= b <= n,
        0 <= m,
        0 <= n,
    ensures
        -(m * n) <= a * b <= m * n,
{
    assert(-(m * n) <= a * b <= m * n) by (nonlinear_arith)
        requires
            -m <= a <= m,
            -n <= b <= n,
            0 <= m,
            0 <= n,
    ;
}

/// One cross component of in-range operands, computed exactly.
fn cross_term(a1: i64, o1: i64, d2: i64, a2: i64, o2: i64, d1: i64) -> (r: i128)
    requires
        in_range(a1 as int),
        in_range(o1 as int),
        in_range(a2 as int),
        in_range(o2 as int),
        in_range(d1 as int),
        in_range(d2 as int),
    ensures
        r as int == (a1 - o1) * d2 - (a2 - o2) * d1,
{
    let u = (a1 - o1) as i128;
    let v = (a2 - o2) as i128;
    proof {
        lemma_mul_bound(u as int, d2 as int, 2 * COORD_BOUND as int, COORD_BOUND as int);
        lemma_mul_bound(v as int, d1 as int, 2 * COORD_BOUND as int, COORD_BOUND as int);
    }
    u * (d2 as i128) - v * (d1 as i128)
}

/// Decides whether the axis passes through the point, within tolerance.
pub fn on_axis(p: &Point3, ax: &Axis) -> (r: bool)
    requires
        p.wf(),
        ax.wf(),
    ensures
        r == on_axis_spec(*p, *ax),
{
    let cx = cross_term(p.y, ax.origin.y, ax.dir.z, p.z, ax.origin.z, ax.dir.y);
    let cy = cross_term(p.z, ax.origin.z, ax.dir.x, p.x, ax.origin.x, ax.dir.z);
    let cz = cross_term(p.x, ax.origin.x, ax.dir.y, p.y, ax.origin.y, ax.dir.x);
    let t = CROSS_TOLERANCE;
    -t < cx && cx < t && -t < cy && cy < t && -t < cz && cz < t
}

/// Translating two positions by one displacement preserves their
/// tolerance identity: differences of coordinates are unchanged.
pub proof fn lemma_translate_preserves_near(a: Position, b: Position, d: Vector3)
    requires
        a.wf(),
        b.wf(),
        d.wf(),
        translatable_pos(a, d),
        translatable_pos(b, d),
        pos_near(a, b),
    ensures
        pos_near(translate_pos_spec(a, d), translate_pos_spec(b, d)),
{
    let ta = translate_pos_spec(a, d);
    let tb = translate_pos_spec(b, d);
    assert forall|i: int| 0 <= i < 3 implies within(
        ta.base.entries()[i],
        tb.base.entries()[i],
        TOLERANCE as int,
    ) by {
        assert(within(a.base.entries()[i], b.base.entries()[i], TOLERANCE as int));
    }
    if !(a.angle == 0 && b.angle == 0) {
        assert forall|i: int| 0 <= i < 3 implies within(
            ta.axis.origin.entries()[i],
            tb.axis.origin.entries()[i],
            TOLERANCE as int,
        ) by {
            assert(within(a.axis.origin.entries()[i], b.axis.origin.entries()[i], TOLERANCE as int));
        }
    }
}

} // verus!

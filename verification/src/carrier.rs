//! Geometric carriers: shared, lockable holders of curve and surface
//! definitions.
//!
//! A carrier is referenced by every topological element derived from the
//! same source geometry, so edges and their inverses point at one carrier
//! and never at copies.  Sharing is by handle into a pool; the pool owns
//! the definitions.  Reading (parameter evaluation) is a pure function of
//! the definition and the parameter and never needs exclusive access;
//! structural mutation goes through a non-blocking exclusive hold: if the
//! hold is already taken the request fails immediately with
//! `CarrierContention` instead of blocking.

use vstd::prelude::*;
use crate::error::KernelError;
use crate::geom::{
    rotatable, rotate_pos, rotate_pos_spec, Axis, Point3, Position, Vector3, FULL_TURN,
};
use crate::tolerance::{Tolerance, COORD_BOUND};
use vstd::arithmetic::div_mod::{
    lemma_div_is_ordered, lemma_div_pos_is_pos, lemma_div_multiples_vanish,
    lemma_fundamental_div_mod, lemma_fundamental_div_mod_converse_div,
};
use vstd::arithmetic::mul::lemma_mul_inequality;

verus! {

/// The parameter value standing for 1.0: curves are evaluated on the
/// fixed-point parameter range `[0, PARAM_ONE]`.
pub const PARAM_ONE: i64 = 1_000_000;

/// A curve definition.
#[derive(Clone, Copy, Debug, PartialEq, Eq, Structural)]
pub enum CurveDef {
    /// The straight segment between two positions.
    Segment { from: Position, to: Position },
    /// The arc carrying `start` around `axis` by `angle` angle units
    /// (signed; a full magnitude is a whole circle).
    Arc { start: Position, axis: Axis, angle: i64 },
}

/// A surface definition.
#[derive(Clone, Copy, Debug, PartialEq, Eq, Structural)]
pub enum SurfaceDef {
    /// A plane through `origin` spanned by `u` and `v`.
    Plane { origin: Point3, u: Vector3, v: Vector3 },
    /// The surface swept by translating `profile` along `dir`.
    Extrusion { profile: CurveDef, dir: Vector3 },
    /// The surface swept by revolving `profile` about `axis` by `angle`.
    Revolution { profile: CurveDef, axis: Axis, angle: i64 },
}

/// What a carrier holds.
#[derive(Clone, Copy, Debug, PartialEq, Eq, Structural)]
pub enum GeometryDef {
    Curve(CurveDef),
    Surface(SurfaceDef),
}

/// A well-formed curve definition: bounded data, and an arc that really
/// can carry its start around its axis.
pub open spec fn curve_wf(c: CurveDef) -> bool {
    match c {
        CurveDef::Segment { from, to } => from.wf() && to.wf(),
        CurveDef::Arc { start, axis, angle } => start.wf() && axis.wf() && -FULL_TURN <= angle
            <= FULL_TURN && angle != 0 && rotatable(start, axis),
    }
}

/// A well-formed surface definition.
pub open spec fn surface_wf(s: SurfaceDef) -> bool {
    match s {
        SurfaceDef::Plane { origin, u, v } => origin.wf() && u.wf() && v.wf(),
        SurfaceDef::Extrusion { profile, dir } => curve_wf(profile) && dir.wf(),
        SurfaceDef::Revolution { profile, axis, angle } => curve_wf(profile) && axis.wf()
            && -FULL_TURN <= angle <= FULL_TURN && angle != 0,
    }
}

/// A well-formed carrier content.
pub open spec fn def_wf(d: GeometryDef) -> bool {
    match d {
        GeometryDef::Curve(c) => curve_wf(c),
        GeometryDef::Surface(s) => surface_wf(s),
    }
}

/// One carrier: a definition and its exclusive-hold flag.
#[derive(Clone, Copy, Debug, PartialEq, Eq, Structural)]
pub struct Carrier {
    pub def: GeometryDef,
    pub held: bool,
}

/// The pool that owns every carrier; topological elements share carriers
/// by their index into it.
pub struct CarrierPool {
    pub slots: Vec<Carrier>,
}

impl CarrierPool {
    /// Every definition in the pool is well formed.
    pub open spec fn wf(&self) -> bool {
        forall|i: int| 0 <= i < self.slots@.len() ==> def_wf(#[trigger] self.slots@[i].def)
    }

    pub open spec fn len_spec(&self) -> nat {
        self.slots@.len()
    }

    /// An empty pool.
    pub fn new() -> (p: CarrierPool)
        ensures
            p.slots@.len() == 0,
            p.wf(),
    {
        CarrierPool { slots: Vec::new() }
    }

    pub fn len(&self) -> (n: usize)
        ensures
            n == self.slots@.len(),
    {
        self.slots.len()
    }

    /// Admits a new definition and hands back its handle.  The new carrier
    /// is not held.
    pub fn add_def(&mut self, d: GeometryDef) -> (id: usize)
        requires
            old(self).wf(),
            def_wf(d),
        ensures
            final(self).slots@ == old(self).slots@.push(Carrier { def: d, held: false }),
            id == old(self).slots@.len(),
            final(self).wf(),
    {
        let id = self.slots.len();
        self.slots.push(Carrier { def: d, held: false });
        proof {
            assert forall|i: int| 0 <= i < self.slots@.len() implies def_wf(
                #[trigger] self.slots@[i].def,
            ) by {
                if i < old(self).slots@.len() {
                    assert(self.slots@[i] == old(self).slots@[i]);
                }
            }
        }
        id
    }

    /// Reads a carrier's definition.  Reading is always possible, held or
    /// not: evaluation is a pure function of the definition.
    pub fn def_of(&self, id: usize) -> (d: GeometryDef)
        requires
            id < self.slots@.len(),
        ensures
            d == self.slots@[id as int].def,
    {
        self.slots[id].def
    }

    /// Whether a carrier's exclusive hold is currently taken.
    pub fn is_held(&self, id: usize) -> (h: bool)
        requires
            id < self.slots@.len(),
        ensures
            h == self.slots@[id as int].held,
    {
        self.slots[id].held
    }

    /// Takes the exclusive hold of one carrier, without blocking: if the
    /// hold is already taken the request fails at once with
    /// `CarrierContention` and nothing changes.  Of two contending
    /// requests, exactly the first succeeds.
    pub fn try_exclusive(&mut self, id: usize) -> (r: Result<(), KernelError>)
        requires
            id < old(self).slots@.len(),
        ensures
            old(self).slots@[id as int].held ==> r == Err::<(), KernelError>(
                KernelError::CarrierContention,
            ) && final(self).slots@ == old(self).slots@,
            !old(self).slots@[id as int].held ==> r == Ok::<(), KernelError>(())
                && final(self).slots@ == old(self).slots@.update(
                id as int,
                Carrier { def: old(self).slots@[id as int].def, held: true },
            ),
    {
        if self.slots[id].held {
            Err(KernelError::CarrierContention)
        } else {
            let def = self.slots[id].def;
            self.slots.set(id, Carrier { def, held: true });
            Ok(())
        }
    }

    /// Releases the exclusive hold: the scope of an exclusive access ends
    /// here and never outlives it.
    pub fn release(&mut self, id: usize)
        requires
            id < old(self).slots@.len(),
        ensures
            final(self).slots@ == old(self).slots@.update(
                id as int,
                Carrier { def: old(self).slots@[id as int].def, held: false },
            ),
    {
        let def = self.slots[id].def;
        self.slots.set(id, Carrier { def, held: false });
    }

    /// Structural mutation (for example reparametrization): only possible
    /// while the exclusive hold is taken, and the hold stays taken.
    pub fn set_def(&mut self, id: usize, d: GeometryDef)
        requires
            old(self).wf(),
            id < old(self).slots@.len(),
            old(self).slots@[id as int].held,
            def_wf(d),
        ensures
            final(self).slots@ == old(self).slots@.update(
                id as int,
                Carrier { def: d, held: true },
            ),
            final(self).wf(),
    {
        self.slots.set(id, Carrier { def: d, held: true });
        proof {
            assert forall|i: int| 0 <= i < self.slots@.len() implies def_wf(
                #[trigger] self.slots@[i].def,
            ) by {
                if i != id {
                    assert(self.slots@[i] == old(self).slots@[i]);
                }
            }
        }
    }

    /// Evaluates a curve carrier at a parameter.  A pure function of the
    /// definition and the parameter: independent callers reading the same
    /// carrier get identical results, and nothing ever blocks them.
    pub fn evaluate(&self, id: usize, t: i64) -> (r: Option<Position>)
        requires
            self.wf(),
            id < self.slots@.len(),
            0 <= t <= PARAM_ONE,
        ensures
            r == eval_spec(self.slots@[id as int].def, t as int),
    {
        match self.slots[id].def {
            GeometryDef::Curve(c) => eval_curve(&c, t),
            GeometryDef::Surface(_) => None,
        }
    }
}

/// Linear interpolation of one coordinate at parameter `t / PARAM_ONE`.
pub open spec fn lerp_spec(a: int, b: int, t: int) -> int {
    a + ((b - a) * t) / (PARAM_ONE as int)
}

/// What evaluating a curve definition at a parameter yields.  Straight
/// segments interpolate their endpoints when those are direct points (a
/// segment suspended between revolved placements has no computable
/// interior, only its ends); arcs carry their start by the according share
/// of their angle.
pub open spec fn eval_curve_spec(c: CurveDef, t: int) -> Option<Position> {
    match c {
        CurveDef::Segment { from, to } => if from.is_direct() && to.is_direct() {
            Some(
                crate::geom::direct_at(
                    Point3 {
                        x: lerp_spec(from.base.x as int, to.base.x as int, t) as i64,
                        y: lerp_spec(from.base.y as int, to.base.y as int, t) as i64,
                        z: lerp_spec(from.base.z as int, to.base.z as int, t) as i64,
                    },
                ),
            )
        } else if t == 0 {
            Some(from)
        } else if t == PARAM_ONE {
            Some(to)
        } else {
            None
        },
        CurveDef::Arc { start, axis, angle } => Some(
            rotate_pos_spec(start, axis, arc_delta_spec(angle as int, t)),
        ),
    }
}

/// What evaluating any carrier content at a parameter yields; surfaces
/// take two parameters and are not evaluated here.
pub open spec fn eval_spec(d: GeometryDef, t: int) -> Option<Position> {
    match d {
        GeometryDef::Curve(c) => eval_curve_spec(c, t),
        GeometryDef::Surface(s) => None,
    }
}

/// The share of a signed arc angle reached at parameter `t`, normalized
/// into `[0, FULL_TURN)`.
pub open spec fn arc_delta_spec(angle: int, t: int) -> int {
    let d = (angle * t) / (PARAM_ONE as int);
    if d < 0 {
        d + FULL_TURN
    } else if d == FULL_TURN {
        0
    } else {
        d
    }
}

/// Computes `floor(v * t / PARAM_ONE)` exactly, with its sign-dependent
/// bounds.
fn scaled(v: i64, t: i64) -> (r: i64)
    requires
        -2 * (COORD_BOUND as int) <= v as int <= 2 * (COORD_BOUND as int),
        0 <= t <= PARAM_ONE,
    ensures
        r as int == (v as int * t as int) / (PARAM_ONE as int),
        v >= 0 ==> 0 <= r <= v,
        v < 0 ==> v <= r < 0 || r == 0,
{
    let p = PARAM_ONE as u128;
    proof {
        crate::geom::lemma_mul_bound(
            v as int,
            t as int,
            2 * (COORD_BOUND as int),
            PARAM_ONE as int,
        );
    }
    if v >= 0 {
        let num = (v as u128) * (t as u128);
        let q = num / p;
        proof {
            lemma_div_pos_is_pos(num as int, p as int);
            lemma_mul_inequality(t as int, PARAM_ONE as int, v as int);
            lemma_div_is_ordered(
                t as int * v as int,
                PARAM_ONE as int * v as int,
                PARAM_ONE as int,
            );
            lemma_div_multiples_vanish(v as int, PARAM_ONE as int);
            assert(num as int == v as int * t as int);
        }
        q as i64
    } else {
        let m = (-v) as u128;
        proof {
            crate::geom::lemma_mul_bound(
                m as int,
                t as int,
                2 * (COORD_BOUND as int),
                PARAM_ONE as int,
            );
        }
        let num = m * (t as u128);
        let q = (num + p - 1) / p;
        proof {
            let x = num as int;
            let pp = PARAM_ONE as int;
            lemma_fundamental_div_mod(x, pp);
            let qq = x / pp;
            let rr = x % pp;
            if rr == 0 {
                lemma_fundamental_div_mod_converse_div(x + pp - 1, pp, qq, pp - 1);
                lemma_fundamental_div_mod_converse_div(-x, pp, -qq, 0);
            } else {
                lemma_fundamental_div_mod_converse_div(x + pp - 1, pp, qq + 1, rr - 1);
                lemma_fundamental_div_mod_converse_div(-x, pp, -qq - 1, pp - rr);
            }
            // the ceiling never exceeds the magnitude of v
            lemma_mul_inequality(t as int, PARAM_ONE as int, m as int);
            lemma_div_is_ordered(
                t as int * m as int + pp - 1,
                PARAM_ONE as int * m as int + pp - 1,
                pp,
            );
            lemma_fundamental_div_mod_converse_div(
                PARAM_ONE as int * m as int + pp - 1,
                pp,
                m as int,
                pp - 1,
            );
            lemma_div_pos_is_pos(x, pp);
            assert(x == m as int * t as int);
            assert((v as int * t as int) == -x) by (nonlinear_arith)
                requires
                    m as int == -(v as int),
                    x == m as int * t as int,
            ;
        }
        -(q as i64)
    }
}

/// Evaluates a curve definition at a parameter.
pub fn eval_curve(c: &CurveDef, t: i64) -> (r: Option<Position>)
    requires
        curve_wf(*c),
        0 <= t <= PARAM_ONE,
    ensures
        r == eval_curve_spec(*c, t as int),
{
    match c {
        CurveDef::Segment { from, to } => {
            if from.angle == 0 && to.angle == 0 {
                let x = from.base.x + scaled(to.base.x - from.base.x, t);
                let y = from.base.y + scaled(to.base.y - from.base.y, t);
                let z = from.base.z + scaled(to.base.z - from.base.z, t);
                Some(Position::at(Point3 { x, y, z }))
            } else if t == 0 {
                Some(*from)
            } else if t == PARAM_ONE {
                Some(*to)
            } else {
                None
            }
        },
        CurveDef::Arc { start, axis, angle } => {
            let d = scaled(*angle, t);
            let dn = if d < 0 {
                d + FULL_TURN
            } else if d == FULL_TURN {
                0
            } else {
                d
            };
            Some(rotate_pos(start, axis, dn))
        },
    }
}

} // verus!

//! Sweep operators: translational and rotational sweeps raise topology by
//! one dimension (vertex to edge or wire, edge to face, face to solid),
//! allocating the geometric carriers the new elements share.
//!
//! Degenerate requests (a zero displacement, a zero angle, a rotation axis
//! through the very point being swept) fail with `DegenerateInput` and
//! build nothing; there is no silent collapse.  Generated side elements
//! follow boundary-edge order, so callers can correspond boundary edges
//! with side elements by index.  A rotational sweep whose angle magnitude
//! is a full turn identifies the start and end copies — no duplicate seam
//! element is produced.

use vstd::prelude::*;
use crate::carrier::{CarrierPool, Carrier, CurveDef, GeometryDef, SurfaceDef, curve_wf, def_wf};
use crate::error::KernelError;
use crate::geom::{
    direct_at, norm_add, on_axis, on_axis_spec, pos_near, rotatable, rotate_pos, rotate_pos_spec,
    translate_pos, translate_pos_spec, translatable_pos, Axis, Point3, Position, Vector3,
    FULL_TURN, QUARTER_TURN,
};
use crate::tolerance::{seq_within, zero_seq, Origin, Tolerance, TOLERANCE};
use crate::topo::{inverse_edge_spec, Edge, Face, Vertex, Wire};

verus! {

/// The displacement does nothing: every component within tolerance of
/// zero.
pub open spec fn vector_small(d: Vector3) -> bool {
    seq_within(d.entries(), zero_seq(3), TOLERANCE as int)
}

/// How many quadrant segments a sweep of this angle magnitude needs.
pub open spec fn seg_count(mag: int) -> int {
    (mag + QUARTER_TURN - 1) / (QUARTER_TURN as int)
}

/// The magnitude swept after `k` segments: full quadrants, then the
/// remainder.
pub open spec fn partial_mag(mag: int, k: int) -> int {
    if k * QUARTER_TURN > mag {
        mag
    } else {
        k * QUARTER_TURN
    }
}

/// The normalized angle reached after `k` segments of a signed sweep.
pub open spec fn partial_norm(angle: int, k: int) -> int {
    let mag = if angle >= 0 {
        angle
    } else {
        -angle
    };
    let m = partial_mag(mag, k);
    if angle >= 0 {
        if m == FULL_TURN {
            0
        } else {
            m
        }
    } else {
        if m == 0 || m == FULL_TURN {
            0
        } else {
            FULL_TURN - m
        }
    }
}

/// The signed angle of segment `k` of a quadrant-split sweep: a whole
/// quadrant while one remains, then the remainder.
pub open spec fn seg_step(angle: int, k: int) -> int {
    let mag = if angle >= 0 {
        angle
    } else {
        -angle
    };
    let remaining = mag - partial_mag(mag, k);
    let step_mag = if remaining > QUARTER_TURN {
        QUARTER_TURN as int
    } else {
        remaining
    };
    if angle >= 0 {
        step_mag
    } else {
        -step_mag
    }
}

/// The station a swept position reaches after `k` segments.
pub open spec fn station(p: Position, ax: Axis, angle: int, k: int) -> Position {
    rotate_pos_spec(p, ax, partial_norm(angle, k))
}

/// The builder: the surface the application talks to.  It owns the pool
/// of geometric carriers that every constructed element shares.
pub struct Builder {
    pub pool: CarrierPool,
}

impl Builder {
    pub open spec fn wf(&self) -> bool {
        self.pool.wf()
    }

    /// A fresh builder with no carriers yet.
    pub fn new() -> (b: Builder)
        ensures
            b.wf(),
            b.pool.slots@.len() == 0,
    {
        Builder { pool: CarrierPool::new() }
    }

    /// The vertex at a point.
    pub fn vertex(&self, p: Point3) -> (v: Vertex)
        requires
            p.wf(),
        ensures
            v.pos == direct_at(p),
            v.wf(),
    {
        Vertex { pos: Position::at(p) }
    }

    /// Translational sweep of a vertex: the edge from the vertex to its
    /// translated copy, on a fresh segment carrier.  A displacement within
    /// tolerance of zero is degenerate and builds nothing.
    pub fn tsweep_vertex(&mut self, v: &Vertex, d: &Vector3) -> (r: Result<Edge, KernelError>)
        requires
            old(self).wf(),
            v.wf(),
            d.wf(),
            translatable_pos(v.pos, *d),
        ensures
            final(self).wf(),
            vector_small(*d) ==> r == Err::<Edge, KernelError>(KernelError::DegenerateInput)
                && *final(self) == *old(self),
            !vector_small(*d) ==> (r matches Ok(e) && e.front == *v && e.back.pos
                == translate_pos_spec(v.pos, *d) && e.forward && e.carrier == old(
                self,
            ).pool.slots@.len() && e.wf() && final(self).pool.slots@ == old(self).pool.slots@.push(
                Carrier {
                    def: GeometryDef::Curve(
                        CurveDef::Segment { from: v.pos, to: translate_pos_spec(v.pos, *d) },
                    ),
                    held: false,
                },
            )),
    {
        if d.so_small() {
            return Err(KernelError::DegenerateInput);
        }
        let to = translate_pos(&v.pos, d);
        let def = GeometryDef::Curve(CurveDef::Segment { from: v.pos, to });
        let id = self.pool.add_def(def);
        Ok(Edge { front: *v, back: Vertex { pos: to }, carrier: id, forward: true })
    }

    /// Rotational sweep of a vertex: the wire of arcs carrying the vertex
    /// around the axis, split at quadrants.  A full-magnitude turn closes
    /// the wire on the original vertex itself — the seam is identified,
    /// not duplicated.  A zero angle, or an axis passing through the
    /// point, is degenerate and builds nothing.
    pub fn rsweep_vertex(&mut self, v: &Vertex, ax: &Axis, angle: i64) -> (r: Result<
        Wire,
        KernelError,
    >)
        requires
            old(self).wf(),
            v.wf(),
            ax.wf(),
            -FULL_TURN <= angle <= FULL_TURN,
            rotatable(v.pos, *ax),
        ensures
            final(self).wf(),
            (angle == 0 || on_axis_spec(v.pos.base, *ax)) ==> r == Err::<Wire, KernelError>(
                KernelError::DegenerateInput,
            ) && *final(self) == *old(self),
            (angle != 0 && !on_axis_spec(v.pos.base, *ax)) ==> (r matches Ok(w) && {
                let mag = if angle >= 0 { angle as int } else { -angle as int };
                let n = seg_count(mag);
                let base = old(self).pool.slots@.len();
                &&& w.edges@.len() == n
                &&& forall|k: int|
                    0 <= k < n ==> (#[trigger] w.edges@[k]).front.pos == station(
                        v.pos,
                        *ax,
                        angle as int,
                        k,
                    ) && w.edges@[k].back.pos == station(v.pos, *ax, angle as int, k + 1)
                        && w.edges@[k].carrier == base + k && w.edges@[k].forward && w.edges@[k].wf()
                &&& w.is_chain()
                &&& final(self).pool.slots@.len() == base + n
                &&& (forall|i: int|
                    0 <= i < base ==> final(self).pool.slots@[i] == old(self).pool.slots@[i])
                &&& (forall|k: int|
                    0 <= k < n ==> final(self).pool.slots@[base + k] == (Carrier {
                        def: GeometryDef::Curve(
                            CurveDef::Arc {
                                start: station(v.pos, *ax, angle as int, k),
                                axis: *ax,
                                angle: seg_step(angle as int, k) as i64,
                            },
                        ),
                        held: false,
                    }))
                &&& (mag == FULL_TURN ==> w.is_closed() && w.edges@[n - 1].back.pos == v.pos)
                &&& (mag < FULL_TURN ==> w.edges@[n - 1].back.pos == rotate_pos_spec(
                    v.pos,
                    *ax,
                    partial_norm(angle as int, n),
                ))
            }),
    {
        if angle == 0 {
            return Err(KernelError::DegenerateInput);
        }
        if on_axis(&v.pos.base, ax) {
            return Err(KernelError::DegenerateInput);
        }
        let mag: i64 = if angle >= 0 {
            angle
        } else {
            -angle
        };
        let n: usize = ((mag + QUARTER_TURN - 1) / QUARTER_TURN) as usize;
        proof {
            vstd::arithmetic::div_mod::lemma_div_pos_is_pos(
                mag as int + QUARTER_TURN - 1,
                QUARTER_TURN as int,
            );
            vstd::arithmetic::div_mod::lemma_div_is_ordered(
                mag as int + QUARTER_TURN - 1,
                FULL_TURN as int + QUARTER_TURN - 1,
                QUARTER_TURN as int,
            );
            vstd::arithmetic::div_mod::lemma_fundamental_div_mod_converse_div(
                FULL_TURN as int + QUARTER_TURN - 1,
                QUARTER_TURN as int,
                4,
                QUARTER_TURN as int - 1,
            );
        }
        let mut edges: Vec<Edge> = Vec::new();
        let mut cur = v.pos;
        let ghost base = self.pool.slots@.len();
        for k in 0..n
            invariant
                self.wf(),
                v.wf(),
                ax.wf(),
                1 <= n <= 4,
                angle != 0,
                -FULL_TURN <= angle <= FULL_TURN,
                mag == (if angle >= 0 { angle as int } else { -angle as int }),
                n == seg_count(mag as int),
                rotatable(v.pos, *ax),
                cur.wf(),
                rotatable(cur, *ax),
                cur == station(v.pos, *ax, angle as int, k as int),
                cur.base == v.pos.base,
                edges@.len() == k,
                self.pool.slots@.len() == base + k,
                forall|i: int| 0 <= i < base ==> self.pool.slots@[i] == old(self).pool.slots@[i],
                forall|j: int|
                    0 <= j < k ==> self.pool.slots@[base + j] == (Carrier {
                        def: GeometryDef::Curve(
                            CurveDef::Arc {
                                start: station(v.pos, *ax, angle as int, j),
                                axis: *ax,
                                angle: seg_step(angle as int, j) as i64,
                            },
                        ),
                        held: false,
                    }),
                forall|j: int|
                    0 <= j < k ==> (#[trigger] edges@[j]).front.pos == station(
                        v.pos,
                        *ax,
                        angle as int,
                        j,
                    ) && edges@[j].back.pos == station(v.pos, *ax, angle as int, j + 1)
                        && edges@[j].carrier == base + j && edges@[j].forward && edges@[j].wf(),
        {
            let done = k as i64 * QUARTER_TURN;
            let remaining = mag - if done > mag {
                mag
            } else {
                done
            };
            let step_mag = if remaining > QUARTER_TURN {
                QUARTER_TURN
            } else {
                remaining
            };
            let step: i64 = if angle >= 0 {
                step_mag
            } else {
                -step_mag
            };
            let step_norm: i64 = if step < 0 {
                step + FULL_TURN
            } else {
                step
            };
            proof {
                lemma_station_step(v.pos, *ax, angle as int, k as int, n as int);
            }
            let next = rotate_pos(&cur, ax, step_norm);
            let def = GeometryDef::Curve(CurveDef::Arc { start: cur, axis: *ax, angle: step });
            let id = self.pool.add_def(def);
            edges.push(
                Edge { front: Vertex { pos: cur }, back: Vertex { pos: next }, carrier: id, forward: true },
            );
            cur = next;
        }
        let w = Wire { edges };
        proof {
            assert forall|i: int| 0 <= i && i + 1 < w.edges@.len() implies pos_near(
                (#[trigger] w.edges@[i]).back.pos,
                w.edges@[i + 1].front.pos,
            ) by {
                assert(w.edges@[i].back.pos == w.edges@[i + 1].front.pos);
            }
            if mag == FULL_TURN {
                assert(partial_norm(angle as int, n as int) == 0);
                assert(w.edges@[n - 1].back.pos == station(v.pos, *ax, angle as int, n as int));
                assert(station(v.pos, *ax, angle as int, n as int) == v.pos);
                assert(w.edges@[0].front.pos == station(v.pos, *ax, angle as int, 0));
                assert(station(v.pos, *ax, angle as int, 0) == v.pos);
            }
        }
        Ok(w)
    }

    /// Translational sweep of an edge: the face bounded by the original
    /// edge, the translated-and-inverted copy, and the two connecting side
    /// edges, on a fresh extrusion surface.  A displacement within
    /// tolerance of zero is degenerate and builds nothing.
    pub fn tsweep_edge(&mut self, e: &Edge, d: &Vector3) -> (r: Result<Face, KernelError>)
        requires
            old(self).wf(),
            e.wf(),
            d.wf(),
            e.carrier < old(self).pool.slots@.len(),
            old(self).pool.slots@[e.carrier as int].def matches GeometryDef::Curve(c)
                && curve_translatable(c, *d),
            translatable_pos(e.front.pos, *d),
            translatable_pos(e.back.pos, *d),
        ensures
            final(self).wf(),
            vector_small(*d) ==> r == Err::<Face, KernelError>(KernelError::DegenerateInput)
                && *final(self) == *old(self),
            !vector_small(*d) ==> (r matches Ok(f) && {
                let base = old(self).pool.slots@.len();
                let c = old(self).pool.slots@[e.carrier as int].def->Curve_0;
                let tf = translate_pos_spec(e.front.pos, *d);
                let tb = translate_pos_spec(e.back.pos, *d);
                &&& f.outer.edges@.len() == 4
                &&& f.outer.edges@[0] == *e
                &&& f.outer.edges@[1] == (Edge {
                    front: e.back,
                    back: Vertex { pos: tb },
                    carrier: (base + 1) as usize,
                    forward: true,
                })
                &&& f.outer.edges@[2] == inverse_edge_spec(
                    Edge {
                        front: Vertex { pos: tf },
                        back: Vertex { pos: tb },
                        carrier: base as usize,
                        forward: true,
                    },
                )
                &&& f.outer.edges@[3] == inverse_edge_spec(
                    Edge {
                        front: e.front,
                        back: Vertex { pos: tf },
                        carrier: (base + 2) as usize,
                        forward: true,
                    },
                )
                &&& f.inner@.len() == 0
                &&& f.surface == base + 3
                &&& f.wf()
                &&& final(self).pool.slots@.len() == base + 4
                &&& (forall|i: int|
                    0 <= i < base ==> final(self).pool.slots@[i] == old(self).pool.slots@[i])
                &&& final(self).pool.slots@[base as int].def == GeometryDef::Curve(
                    translate_curve_spec(c, *d),
                )
                &&& final(self).pool.slots@[base as int + 1].def == GeometryDef::Curve(
                    CurveDef::Segment { from: e.back.pos, to: tb },
                )
                &&& final(self).pool.slots@[base as int + 2].def == GeometryDef::Curve(
                    CurveDef::Segment { from: e.front.pos, to: tf },
                )
                &&& final(self).pool.slots@[base as int + 3].def == GeometryDef::Surface(
                    SurfaceDef::Extrusion { profile: c, dir: *d },
                )
            }),
    {
        if d.so_small() {
            return Err(KernelError::DegenerateInput);
        }
        let def = self.pool.def_of(e.carrier);
        let c = match def {
            GeometryDef::Curve(c) => c,
            GeometryDef::Surface(_) => {
                proof {
                    assert(false);
                }
                return Err(KernelError::DegenerateInput);
            },
        };
        let tf = translate_pos(&e.front.pos, d);
        let tb = translate_pos(&e.back.pos, d);
        let top_curve = translate_curve(&c, d);
        let id_top = self.pool.add_def(GeometryDef::Curve(top_curve));
        let id_back = self.pool.add_def(
            GeometryDef::Curve(CurveDef::Segment { from: e.back.pos, to: tb }),
        );
        let id_front = self.pool.add_def(
            GeometryDef::Curve(CurveDef::Segment { from: e.front.pos, to: tf }),
        );
        let id_surf = self.pool.add_def(
            GeometryDef::Surface(SurfaceDef::Extrusion { profile: c, dir: *d }),
        );
        let top = Edge {
            front: Vertex { pos: tf },
            back: Vertex { pos: tb },
            carrier: id_top,
            forward: true,
        };
        let rise_back = Edge { front: e.back, back: Vertex { pos: tb }, carrier: id_back, forward: true };
        let rise_front = Edge {
            front: e.front,
            back: Vertex { pos: tf },
            carrier: id_front,
            forward: true,
        };
        let mut edges: Vec<Edge> = Vec::new();
        edges.push(*e);
        edges.push(rise_back);
        edges.push(top.inverse());
        edges.push(rise_front.inverse());
        let w = Wire { edges };
        let f = Face { outer: w, inner: Vec::new(), surface: id_surf };
        proof {
            assert(f.outer.is_closed());
        }
        Ok(f)
    }

    /// Rotational sweep of an edge: the face swept by revolving the edge
    /// about the axis on a fresh revolution surface.  For a partial angle
    /// the boundary is the original edge, the arc of its back vertex, the
    /// rotated-and-inverted end copy, and the reversed arc of its front
    /// vertex.  For a full-magnitude turn the start and end copies are
    /// identified: the face is bounded by the two whole rims alone, its
    /// vertices exactly the profile edge's two vertices — nothing doubles
    /// at the seam.  A zero angle, or an axis through either endpoint, is
    /// degenerate and builds nothing.
    pub fn rsweep_edge(&mut self, e: &Edge, ax: &Axis, angle: i64) -> (r: Result<
        Face,
        KernelError,
    >)
        requires
            old(self).wf(),
            e.wf(),
            ax.wf(),
            -FULL_TURN <= angle <= FULL_TURN,
            e.carrier < old(self).pool.slots@.len(),
            old(self).pool.slots@[e.carrier as int].def matches GeometryDef::Curve(c)
                && curve_rotatable(c, *ax),
            rotatable(e.front.pos, *ax),
            rotatable(e.back.pos, *ax),
        ensures
            final(self).wf(),
            (angle == 0 || on_axis_spec(e.front.pos.base, *ax) || on_axis_spec(
                e.back.pos.base,
                *ax,
            )) ==> r == Err::<Face, KernelError>(KernelError::DegenerateInput) && *final(self)
                == *old(self),
            (angle != 0 && !on_axis_spec(e.front.pos.base, *ax) && !on_axis_spec(
                e.back.pos.base,
                *ax,
            ) && (angle == FULL_TURN || angle == -FULL_TURN)) ==> (r matches Ok(f) && {
                let base = old(self).pool.slots@.len();
                let c = old(self).pool.slots@[e.carrier as int].def->Curve_0;
                let rim_front = Edge { front: e.front, back: e.front, carrier: base as usize, forward: true };
                let rim_back = Edge {
                    front: e.back,
                    back: e.back,
                    carrier: (base + 1) as usize,
                    forward: true,
                };
                &&& f.outer.edges@.len() == 1
                &&& f.outer.edges@[0] == rim_front
                &&& f.inner@.len() == 1
                &&& f.inner@[0].edges@.len() == 1
                &&& f.inner@[0].edges@[0] == inverse_edge_spec(rim_back)
                &&& f.surface == base + 2
                &&& f.wf()
                &&& final(self).pool.slots@.len() == base + 3
                &&& (forall|i: int|
                    0 <= i < base ==> final(self).pool.slots@[i] == old(self).pool.slots@[i])
                &&& final(self).pool.slots@[base as int].def == GeometryDef::Curve(
                    CurveDef::Arc { start: e.front.pos, axis: *ax, angle },
                )
                &&& final(self).pool.slots@[base as int + 1].def == GeometryDef::Curve(
                    CurveDef::Arc { start: e.back.pos, axis: *ax, angle },
                )
                &&& final(self).pool.slots@[base as int + 2].def == GeometryDef::Surface(
                    SurfaceDef::Revolution { profile: c, axis: *ax, angle },
                )
            }),
            (angle != 0 && !on_axis_spec(e.front.pos.base, *ax) && !on_axis_spec(
                e.back.pos.base,
                *ax,
            ) && -FULL_TURN < angle < FULL_TURN) ==> (r matches Ok(f) && {
                let base = old(self).pool.slots@.len();
                let c = old(self).pool.slots@[e.carrier as int].def->Curve_0;
                let delta = if angle < 0 { angle + FULL_TURN } else { angle as int };
                let rf = rotate_pos_spec(e.front.pos, *ax, delta);
                let rb = rotate_pos_spec(e.back.pos, *ax, delta);
                &&& f.outer.edges@.len() == 4
                &&& f.outer.edges@[0] == *e
                &&& f.outer.edges@[1] == (Edge {
                    front: e.back,
                    back: Vertex { pos: rb },
                    carrier: (base + 1) as usize,
                    forward: true,
                })
                &&& f.outer.edges@[2] == inverse_edge_spec(
                    Edge {
                        front: Vertex { pos: rf },
                        back: Vertex { pos: rb },
                        carrier: base as usize,
                        forward: true,
                    },
                )
                &&& f.outer.edges@[3] == inverse_edge_spec(
                    Edge {
                        front: e.front,
                        back: Vertex { pos: rf },
                        carrier: (base + 2) as usize,
                        forward: true,
                    },
                )
                &&& f.inner@.len() == 0
                &&& f.surface == base + 3
                &&& f.wf()
                &&& final(self).pool.slots@.len() == base + 4
                &&& (forall|i: int|
                    0 <= i < base ==> final(self).pool.slots@[i] == old(self).pool.slots@[i])
                &&& final(self).pool.slots@[base as int].def == GeometryDef::Curve(
                    rotate_curve_spec(c, *ax, delta),
                )
                &&& final(self).pool.slots@[base as int + 1].def == GeometryDef::Curve(
                    CurveDef::Arc { start: e.back.pos, axis: *ax, angle },
                )
                &&& final(self).pool.slots@[base as int + 2].def == GeometryDef::Curve(
                    CurveDef::Arc { start: e.front.pos, axis: *ax, angle },
                )
                &&& final(self).pool.slots@[base as int + 3].def == GeometryDef::Surface(
                    SurfaceDef::Revolution { profile: c, axis: *ax, angle },
                )
            }),
    {
        if angle == 0 {
            return Err(KernelError::DegenerateInput);
        }
        if on_axis(&e.front.pos.base, ax) {
            return Err(KernelError::DegenerateInput);
        }
        if on_axis(&e.back.pos.base, ax) {
            return Err(KernelError::DegenerateInput);
        }
        let def = self.pool.def_of(e.carrier);
        let c = match def {
            GeometryDef::Curve(c) => c,
            GeometryDef::Surface(_) => {
                proof {
                    assert(false);
                }
                return Err(KernelError::DegenerateInput);
            },
        };
        if angle == FULL_TURN || angle == -FULL_TURN {
            let id_f = self.pool.add_def(
                GeometryDef::Curve(CurveDef::Arc { start: e.front.pos, axis: *ax, angle }),
            );
            let id_b = self.pool.add_def(
                GeometryDef::Curve(CurveDef::Arc { start: e.back.pos, axis: *ax, angle }),
            );
            let id_surf = self.pool.add_def(
                GeometryDef::Surface(SurfaceDef::Revolution { profile: c, axis: *ax, angle }),
            );
            let rim_front = Edge { front: e.front, back: e.front, carrier: id_f, forward: true };
            let rim_back = Edge { front: e.back, back: e.back, carrier: id_b, forward: true };
            let mut outer_edges: Vec<Edge> = Vec::new();
            outer_edges.push(rim_front);
            let mut rim_edges: Vec<Edge> = Vec::new();
            rim_edges.push(rim_back.inverse());
            let mut inner: Vec<Wire> = Vec::new();
            inner.push(Wire { edges: rim_edges });
            let f = Face { outer: Wire { edges: outer_edges }, inner, surface: id_surf };
            proof {
                assert(f.outer.is_closed());
                assert(f.inner@[0].is_closed());
            }
            Ok(f)
        } else {
            let delta: i64 = if angle < 0 {
                angle + FULL_TURN
            } else {
                angle
            };
            let rf = rotate_pos(&e.front.pos, ax, delta);
            let rb = rotate_pos(&e.back.pos, ax, delta);
            let top_curve = rotate_curve(&c, ax, delta);
            let id_top = self.pool.add_def(GeometryDef::Curve(top_curve));
            let id_back = self.pool.add_def(
                GeometryDef::Curve(CurveDef::Arc { start: e.back.pos, axis: *ax, angle }),
            );
            let id_front = self.pool.add_def(
                GeometryDef::Curve(CurveDef::Arc { start: e.front.pos, axis: *ax, angle }),
            );
            let id_surf = self.pool.add_def(
                GeometryDef::Surface(SurfaceDef::Revolution { profile: c, axis: *ax, angle }),
            );
            let top = Edge {
                front: Vertex { pos: rf },
                back: Vertex { pos: rb },
                carrier: id_top,
                forward: true,
            };
            let arc_back = Edge { front: e.back, back: Vertex { pos: rb }, carrier: id_back, forward: true };
            let arc_front = Edge {
                front: e.front,
                back: Vertex { pos: rf },
                carrier: id_front,
                forward: true,
            };
            let mut edges: Vec<Edge> = Vec::new();
            edges.push(*e);
            edges.push(arc_back);
            edges.push(top.inverse());
            edges.push(arc_front.inverse());
            let f = Face { outer: Wire { edges }, inner: Vec::new(), surface: id_surf };
            proof {
                assert(f.outer.is_closed());
            }
            Ok(f)
        }
    }

}

/// One segment of a quadrant-split sweep advances the station by the
/// segment's normalized step: stepping from station `k` lands on station
/// `k + 1`.
proof fn lemma_station_step(p: Position, ax: Axis, angle: int, k: int, n: int)
    requires
        p.wf(),
        angle != 0,
        -FULL_TURN <= angle <= FULL_TURN,
        rotatable(p, ax),
        n == seg_count(if angle >= 0 { angle } else { -angle }),
        0 <= k < n,
    ensures
        ({
            let mag = if angle >= 0 { angle } else { -angle };
            let done = if k * QUARTER_TURN > mag { mag } else { k * QUARTER_TURN };
            let remaining = mag - done;
            let step_mag = if remaining > QUARTER_TURN { QUARTER_TURN as int } else { remaining };
            let step = if angle >= 0 { step_mag } else { -step_mag };
            let step_norm = if step < 0 { step + FULL_TURN } else { step };
            &&& 0 <= step_norm < FULL_TURN
            &&& rotate_pos_spec(station(p, ax, angle, k), ax, step_norm) == station(
                p,
                ax,
                angle,
                k + 1,
            )
        }),
{
    let mag = if angle >= 0 { angle } else { -angle };
    assert(1 <= mag <= FULL_TURN);
    assert(k * QUARTER_TURN < mag) by {
        if k * QUARTER_TURN >= mag {
            vstd::arithmetic::div_mod::lemma_div_is_ordered(
                mag + QUARTER_TURN - 1,
                k * QUARTER_TURN + QUARTER_TURN - 1,
                QUARTER_TURN as int,
            );
            vstd::arithmetic::div_mod::lemma_fundamental_div_mod_converse_div(
                k * QUARTER_TURN + QUARTER_TURN - 1,
                QUARTER_TURN as int,
                k,
                QUARTER_TURN as int - 1,
            );
        }
    }
}

/// The translation of a curve definition stays in range.
pub open spec fn curve_translatable(c: CurveDef, d: Vector3) -> bool {
    match c {
        CurveDef::Segment { from, to } => translatable_pos(from, d) && translatable_pos(to, d),
        CurveDef::Arc { start, axis, angle } => translatable_pos(start, d)
            && crate::geom::translatable_point(axis.origin, d) && (start.angle != 0
            ==> start.axis == axis),
    }
}

/// The translated curve: a segment moves both ends, an arc moves its
/// start and its axis together (translation conjugates rotation).
pub open spec fn translate_curve_spec(c: CurveDef, d: Vector3) -> CurveDef {
    match c {
        CurveDef::Segment { from, to } => CurveDef::Segment {
            from: translate_pos_spec(from, d),
            to: translate_pos_spec(to, d),
        },
        CurveDef::Arc { start, axis, angle } => CurveDef::Arc {
            start: translate_pos_spec(start, d),
            axis: Axis {
                origin: crate::geom::translate_point_spec(axis.origin, d),
                dir: axis.dir,
            },
            angle,
        },
    }
}

/// Translates a curve definition.
pub fn translate_curve(c: &CurveDef, d: &Vector3) -> (r: CurveDef)
    requires
        curve_wf(*c),
        d.wf(),
        curve_translatable(*c, *d),
    ensures
        r == translate_curve_spec(*c, *d),
        curve_wf(r),
{
    match c {
        CurveDef::Segment { from, to } => CurveDef::Segment {
            from: translate_pos(from, d),
            to: translate_pos(to, d),
        },
        CurveDef::Arc { start, axis, angle } => CurveDef::Arc {
            start: translate_pos(start, d),
            axis: Axis {
                origin: crate::geom::translate_point(&axis.origin, d),
                dir: axis.dir,
            },
            angle: *angle,
        },
    }
}

/// A curve definition can be carried around `ax`.
pub open spec fn curve_rotatable(c: CurveDef, ax: Axis) -> bool {
    match c {
        CurveDef::Segment { from, to } => rotatable(from, ax) && rotatable(to, ax),
        CurveDef::Arc { start, axis, angle } => axis == ax && rotatable(start, ax),
    }
}

/// The curve carried around `ax` by a normalized angle.
pub open spec fn rotate_curve_spec(c: CurveDef, ax: Axis, delta: int) -> CurveDef {
    match c {
        CurveDef::Segment { from, to } => CurveDef::Segment {
            from: rotate_pos_spec(from, ax, delta),
            to: rotate_pos_spec(to, ax, delta),
        },
        CurveDef::Arc { start, axis, angle } => CurveDef::Arc {
            start: rotate_pos_spec(start, ax, delta),
            axis: ax,
            angle,
        },
    }
}

/// Carries a curve definition around an axis.
pub fn rotate_curve(c: &CurveDef, ax: &Axis, delta: i64) -> (r: CurveDef)
    requires
        curve_wf(*c),
        ax.wf(),
        0 <= delta < FULL_TURN,
        curve_rotatable(*c, *ax),
    ensures
        r == rotate_curve_spec(*c, *ax, delta as int),
        curve_wf(r),
{
    match c {
        CurveDef::Segment { from, to } => CurveDef::Segment {
            from: rotate_pos(from, ax, delta),
            to: rotate_pos(to, ax, delta),
        },
        CurveDef::Arc { start, axis, angle } => CurveDef::Arc {
            start: rotate_pos(start, ax, delta),
            axis: *ax,
            angle: *angle,
        },
    }
}

} // verus!

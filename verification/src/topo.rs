//! The topological graph: vertices, edges, wires, faces, shells and
//! solids, and their structural relationships.
//!
//! Ownership is top-down only: a wire owns its edges, a face its boundary
//! wires, a shell its faces, a solid its shells, and no entity holds a
//! back-reference to its container.  A face or shell becomes immutable by
//! being consumed by its container; until then a face still accepts hole
//! boundaries.  All vertex identity is tolerance identity, never exact
//! floating comparison.

use vstd::prelude::*;
use crate::error::KernelError;
use crate::geom::{pos_near, position_near, Position};
use crate::tolerance::TOLERANCE;

verus! {

/// A vertex: identity is its position, compared by tolerance.
#[derive(Clone, Copy, Debug, PartialEq, Eq, Structural)]
pub struct Vertex {
    pub pos: Position,
}

impl Vertex {
    pub open spec fn wf(&self) -> bool {
        self.pos.wf()
    }
}

/// An oriented edge: a front vertex, a back vertex, the handle of its
/// geometric carrier, and an orientation flag.
#[derive(Clone, Copy, Debug, PartialEq, Eq, Structural)]
pub struct Edge {
    pub front: Vertex,
    pub back: Vertex,
    pub carrier: usize,
    pub forward: bool,
}

/// The inverse of an edge: front and back swap and the orientation flips,
/// but the carrier is shared, never duplicated.
pub open spec fn inverse_edge_spec(e: Edge) -> Edge {
    Edge { front: e.back, back: e.front, carrier: e.carrier, forward: !e.forward }
}

impl Edge {
    pub open spec fn wf(&self) -> bool {
        self.front.wf() && self.back.wf()
    }

    /// Explicit construction, reusing an existing carrier.
    pub fn new(front: Vertex, back: Vertex, carrier: usize) -> (e: Edge)
        ensures
            e == (Edge { front, back, carrier, forward: true }),
    {
        Edge { front, back, carrier, forward: true }
    }

    /// The orientation-reversed view of this edge, on the same carrier.
    pub fn inverse(&self) -> (r: Edge)
        ensures
            r == inverse_edge_spec(*self),
            r.carrier == self.carrier,
    {
        Edge { front: self.back, back: self.front, carrier: self.carrier, forward: !self.forward }
    }
}

/// Inversion is an involution: inverting twice restores the edge
/// structurally — same vertices, same carrier reference, same orientation.
pub proof fn lemma_inverse_involutive(e: Edge)
    ensures
        inverse_edge_spec(inverse_edge_spec(e)) == e,
{
}

/// An ordered sequence of oriented edges.
#[derive(Clone, Debug, PartialEq, Eq)]
pub struct Wire {
    pub edges: Vec<Edge>,
}

/// The front positions of a wire's edges, in order: for a valid chain
/// these enumerate the wire's vertices.
pub open spec fn wire_fronts(edges: Seq<Edge>) -> Seq<Position> {
    edges.map_values(|e: Edge| e.front.pos)
}

impl Wire {
    pub open spec fn wf(&self) -> bool {
        forall|i: int| 0 <= i < self.edges@.len() ==> (#[trigger] self.edges@[i]).wf()
    }

    /// Consecutive edges share an identified vertex: the back of each edge
    /// is near the front of the next.
    pub open spec fn is_chain(&self) -> bool {
        forall|i: int|
            0 <= i && i + 1 < self.edges@.len() ==> pos_near(
                (#[trigger] self.edges@[i]).back.pos,
                self.edges@[i + 1].front.pos,
            )
    }

    /// A closed wire: a nonempty chain whose last vertex is identified
    /// with its first.
    pub open spec fn is_closed(&self) -> bool {
        &&& self.edges@.len() > 0
        &&& self.is_chain()
        &&& pos_near(
            self.edges@[self.edges@.len() - 1].back.pos,
            self.edges@[0].front.pos,
        )
    }

    /// Every vertex of the wire sits at a direct position (no pending
    /// rotation), so its planar extent is meaningful.
    pub open spec fn is_direct(&self) -> bool {
        forall|i: int|
            0 <= i < self.edges@.len() ==> (#[trigger] self.edges@[i]).front.pos.is_direct()
                && self.edges@[i].back.pos.is_direct()
    }

    /// Builds a wire from ordered edges.
    pub fn from_edges(edges: Vec<Edge>) -> (w: Wire)
        ensures
            w.edges@ == edges@,
    {
        Wire { edges }
    }

    pub fn len(&self) -> (n: usize)
        ensures
            n == self.edges@.len(),
    {
        self.edges.len()
    }

    /// Discards and returns the trailing edge; chaining callers use this
    /// to drop the closing element of a partial sweep before appending
    /// the next one.
    pub fn pop_back(&mut self) -> (r: Option<Edge>)
        ensures
            old(self).edges@.len() == 0 ==> r is None && final(self).edges@ == old(self).edges@,
            old(self).edges@.len() > 0 ==> r == Some(old(self).edges@.last())
                && final(self).edges@ == old(self).edges@.drop_last(),
    {
        self.edges.pop()
    }

    /// Appends another wire's edges in order.
    pub fn extend(&mut self, tail: &Wire)
        ensures
            final(self).edges@ == old(self).edges@ + tail.edges@,
    {
        let n = tail.edges.len();
        for i in 0..n
            invariant
                n == tail.edges@.len(),
                self.edges@ == old(self).edges@ + tail.edges@.take(i as int),
        {
            self.edges.push(tail.edges[i]);
            proof {
                assert(self.edges@ =~= old(self).edges@ + tail.edges@.take(i as int + 1));
            }
        }
        proof {
            assert(self.edges@ =~= old(self).edges@ + tail.edges@);
        }
    }

    /// The orientation-reversed view: edges in reverse order, each
    /// inverted, every carrier shared with the original.
    pub fn inverse(&self) -> (r: Wire)
        ensures
            r.edges@.len() == self.edges@.len(),
            forall|i: int|
                0 <= i < self.edges@.len() ==> r.edges@[i] == inverse_edge_spec(
                    self.edges@[self.edges@.len() - 1 - i],
                ),
            self.is_chain() ==> r.is_chain(),
            self.is_closed() ==> r.is_closed(),
            self.wf() ==> r.wf(),
    {
        let n = self.edges.len();
        let mut out: Vec<Edge> = Vec::new();
        for i in 0..n
            invariant
                n == self.edges@.len(),
                out@.len() == i,
                forall|j: int|
                    0 <= j < i ==> out@[j] == inverse_edge_spec(
                        self.edges@[self.edges@.len() - 1 - j],
                    ),
        {
            out.push(self.edges[n - 1 - i].inverse());
        }
        let r = Wire { edges: out };
        proof {
            lemma_inverse_preserves_closure(*self, r);
        }
        r
    }

    /// Decides chain continuity.
    pub fn check_chain(&self) -> (r: bool)
        requires
            self.wf(),
        ensures
            r == self.is_chain(),
    {
        let n = self.edges.len();
        if n == 0 {
            return true;
        }
        for i in 0..n - 1
            invariant
                n == self.edges@.len(),
                n > 0,
                self.wf(),
                forall|j: int|
                    0 <= j < i ==> pos_near(
                        (#[trigger] self.edges@[j]).back.pos,
                        self.edges@[j + 1].front.pos,
                    ),
        {
            let a = self.edges[i];
            let b = self.edges[i + 1];
            if !position_near(&a.back.pos, &b.front.pos) {
                return false;
            }
        }
        true
    }

    /// Decides closure: chain continuity and last vertex identified with
    /// the first.
    pub fn check_closed(&self) -> (r: bool)
        requires
            self.wf(),
        ensures
            r == self.is_closed(),
    {
        let n = self.edges.len();
        if n == 0 {
            return false;
        }
        if !self.check_chain() {
            return false;
        }
        let last = self.edges[n - 1];
        let first = self.edges[0];
        position_near(&last.back.pos, &first.front.pos)
    }

    /// Decides whether every vertex is directly placed.
    pub fn check_direct(&self) -> (r: bool)
        ensures
            r == self.is_direct(),
    {
        let n = self.edges.len();
        for i in 0..n
            invariant
                n == self.edges@.len(),
                forall|j: int|
                    0 <= j < i ==> (#[trigger] self.edges@[j]).front.pos.is_direct()
                        && self.edges@[j].back.pos.is_direct(),
        {
            let e = self.edges[i];
            if !(e.front.pos.angle == 0 && e.back.pos.angle == 0) {
                return false;
            }
        }
        true
    }
}

/// Reversing and inverting a wire's edges keeps it a chain, keeps it
/// closed, and keeps it well formed.
#[verifier::rlimit(100)]
pub proof fn lemma_inverse_preserves_closure(w: Wire, r: Wire)
    requires
        r.edges@.len() == w.edges@.len(),
        forall|i: int|
            0 <= i < w.edges@.len() ==> r.edges@[i] == inverse_edge_spec(
                w.edges@[w.edges@.len() - 1 - i],
            ),
    ensures
        w.is_chain() ==> r.is_chain(),
        w.is_closed() ==> r.is_closed(),
        w.wf() ==> r.wf(),
{
    let m = w.edges@.len();
    if w.is_chain() {
        assert forall|i: int| 0 <= i && i + 1 < r.edges@.len() implies pos_near(
            (#[trigger] r.edges@[i]).back.pos,
            r.edges@[i + 1].front.pos,
        ) by {
            assert(r.edges@[i] == inverse_edge_spec(w.edges@[m - 1 - i]));
            assert(r.edges@[i + 1] == inverse_edge_spec(w.edges@[m - 2 - i]));
            assert(pos_near(w.edges@[m - 2 - i].back.pos, w.edges@[m - 1 - i].front.pos));
            crate::geom::lemma_pos_near_symmetric(
                w.edges@[m - 2 - i].back.pos,
                w.edges@[m - 1 - i].front.pos,
            );
        }
    }
    if w.is_closed() {
        assert(r.edges@[m - 1] == inverse_edge_spec(w.edges@[0]));
        assert(r.edges@[0] == inverse_edge_spec(w.edges@[m - 1]));
        assert(pos_near(w.edges@[m - 1].back.pos, w.edges@[0].front.pos));
        crate::geom::lemma_pos_near_symmetric(w.edges@[m - 1].back.pos, w.edges@[0].front.pos);
    }
    if w.wf() {
        assert forall|i: int| 0 <= i < r.edges@.len() implies (#[trigger] r.edges@[i]).wf() by {
            assert(r.edges@[i] == inverse_edge_spec(w.edges@[m - 1 - i]));
            assert(w.edges@[m - 1 - i].wf());
        }
    }
}

/// One coordinate of a hole vertex lies within the extent of the outer
/// vertices, within tolerance, on both sides.  Strict, like every other
/// tolerance comparison of the kernel: sticking out by exactly the
/// tolerance is already outside.
pub open spec fn coord_in_extent(h: int, outer: Seq<int>) -> bool {
    &&& exists|i: int| 0 <= i < outer.len() && #[trigger] outer[i] + TOLERANCE > h
    &&& exists|i: int| 0 <= i < outer.len() && #[trigger] outer[i] - TOLERANCE < h
}

/// A hole vertex lies within the axis-aligned extent of the outer wire's
/// vertices, within tolerance (the kernel's documented hole-containment
/// strategy: bounding-extent containment, not an exact polygon test).
pub open spec fn pos_in_extent(h: Position, outer: Seq<Position>) -> bool {
    &&& coord_in_extent(h.base.x as int, outer.map_values(|p: Position| p.base.x as int))
    &&& coord_in_extent(h.base.y as int, outer.map_values(|p: Position| p.base.y as int))
    &&& coord_in_extent(h.base.z as int, outer.map_values(|p: Position| p.base.z as int))
}

/// Every vertex of the hole wire lies within the outer wire's extent.
pub open spec fn wire_in_extent(hole: Seq<Position>, outer: Seq<Position>) -> bool {
    forall|i: int| 0 <= i < hole.len() ==> pos_in_extent(#[trigger] hole[i], outer)
}

/// The wire revisits a vertex: two of its chain vertices are identified.
/// A simple boundary visits each of its vertices once.
pub open spec fn self_touching(verts: Seq<Position>) -> bool {
    exists|i: int, j: int| 0 <= i < j < verts.len() && pos_near(#[trigger] verts[i], #[trigger] verts[j])
}

/// Checks one coordinate of one hole vertex against the outer extent.
fn coord_extent_check(h: i64, outer: &Vec<i64>) -> (r: bool)
    requires
        crate::tolerance::in_range(h as int),
        forall|i: int| 0 <= i < outer@.len() ==> crate::tolerance::in_range(#[trigger] outer@[i] as int),
    ensures
        r == coord_in_extent(h as int, crate::tolerance::ints_of(outer@)),
{
    let n = outer.len();
    let mut below: bool = false;
    let mut above: bool = false;
    for i in 0..n
        invariant
            n == outer@.len(),
            crate::tolerance::in_range(h as int),
            forall|k: int|
                0 <= k < outer@.len() ==> crate::tolerance::in_range(#[trigger] outer@[k] as int),
            below == exists|k: int|
                0 <= k < i && #[trigger] crate::tolerance::ints_of(outer@)[k] + TOLERANCE
                    > h as int,
            above == exists|k: int|
                0 <= k < i && #[trigger] crate::tolerance::ints_of(outer@)[k] - TOLERANCE
                    < h as int,
    {
        let o = outer[i];
        proof {
            assert(crate::tolerance::ints_of(outer@)[i as int] == o as int);
            assert(crate::tolerance::in_range(o as int));
        }
        if h < o + TOLERANCE {
            below = true;
        }
        if h > o - TOLERANCE {
            above = true;
        }
    }
    below && above
}

/// A face: one outer boundary wire, inner boundary wires (holes or
/// closing rims), and a surface carrier.
#[derive(Clone, Debug, PartialEq, Eq)]
pub struct Face {
    pub outer: Wire,
    pub inner: Vec<Wire>,
    pub surface: usize,
}

impl Face {
    pub open spec fn wf(&self) -> bool {
        &&& self.outer.wf()
        &&& self.outer.is_closed()
        &&& forall|i: int|
            0 <= i < self.inner@.len() ==> (#[trigger] self.inner@[i]).wf()
                && self.inner@[i].is_closed()
    }

    /// Builds a face from a closed outer boundary on a surface carrier.
    /// Fails with `InvalidBoundary` naming the outer wire when it is not
    /// closed.
    pub fn new(outer: Wire, surface: usize) -> (r: Result<Face, KernelError>)
        requires
            outer.wf(),
        ensures
            outer.is_closed() ==> (r matches Ok(f) && f.outer == outer && f.inner@.len() == 0
                && f.surface == surface && f.wf()),
            !outer.is_closed() ==> r == Err::<Face, KernelError>(KernelError::InvalidBoundary(0)),
    {
        if outer.check_closed() {
            Ok(Face { outer, inner: Vec::new(), surface })
        } else {
            Err(KernelError::InvalidBoundary(0))
        }
    }

    /// The chain vertices of the outer boundary, in order.
    pub fn outer_fronts(&self) -> (v: Vec<Position>)
        ensures
            v@ == wire_fronts(self.outer.edges@),
    {
        collect_fronts(&self.outer)
    }

    /// A hole boundary is acceptable: closed, directly placed (as the
    /// outer wire must be), every vertex within the outer extent within
    /// tolerance, and not revisiting any vertex.
    pub open spec fn hole_ok(&self, w: Wire) -> bool {
        &&& w.is_closed()
        &&& w.is_direct()
        &&& self.outer.is_direct()
        &&& wire_in_extent(wire_fronts(w.edges@), wire_fronts(self.outer.edges@))
        &&& !self_touching(wire_fronts(w.edges@))
    }

    /// Adds a hole boundary prior to finalization.  Succeeds exactly when
    /// the wire is a closed, simple, directly placed boundary lying within
    /// the outer wire's extent; otherwise fails with `InvalidBoundary`
    /// naming the offending wire by its boundary index and leaves the face
    /// unchanged.
    pub fn add_boundary(&mut self, w: Wire) -> (r: Result<(), KernelError>)
        requires
            old(self).wf(),
            w.wf(),
            old(self).inner@.len() < usize::MAX,
        ensures
            old(self).hole_ok(w) ==> r == Ok::<(), KernelError>(())
                && final(self).outer == old(self).outer
                && final(self).surface == old(self).surface
                && final(self).inner@ == old(self).inner@.push(w) && final(self).wf(),
            !old(self).hole_ok(w) ==> r == Err::<(), KernelError>(
                KernelError::InvalidBoundary((old(self).inner@.len() + 1) as usize),
            ) && *final(self) == *old(self),
    {
        let idx = self.inner.len() + 1;
        if !w.check_closed() {
            return Err(KernelError::InvalidBoundary(idx));
        }
        if !w.check_direct() {
            return Err(KernelError::InvalidBoundary(idx));
        }
        if !self.outer.check_direct() {
            return Err(KernelError::InvalidBoundary(idx));
        }
        let hole_verts = collect_fronts(&w);
        let outer_verts = collect_fronts(&self.outer);
        if !fronts_in_extent(&hole_verts, &outer_verts) {
            return Err(KernelError::InvalidBoundary(idx));
        }
        if check_self_touching(&hole_verts) {
            return Err(KernelError::InvalidBoundary(idx));
        }
        self.inner.push(w);
        Ok(())
    }
}

/// Collects the front positions of a wire's edges.
pub fn collect_fronts(w: &Wire) -> (v: Vec<Position>)
    ensures
        v@ == wire_fronts(w.edges@),
{
    let n = w.edges.len();
    let mut out: Vec<Position> = Vec::new();
    for i in 0..n
        invariant
            n == w.edges@.len(),
            out@.len() == i,
            forall|j: int| 0 <= j < i ==> out@[j] == wire_fronts(w.edges@)[j],
    {
        out.push(w.edges[i].front.pos);
        proof {
            assert(wire_fronts(w.edges@)[i as int] == w.edges@[i as int].front.pos);
        }
    }
    proof {
        assert(out@ =~= wire_fronts(w.edges@));
    }
    out
}

/// Checks every hole vertex against the outer extent.
fn fronts_in_extent(hole: &Vec<Position>, outer: &Vec<Position>) -> (r: bool)
    requires
        forall|i: int| 0 <= i < hole@.len() ==> (#[trigger] hole@[i]).wf(),
        forall|i: int| 0 <= i < outer@.len() ==> (#[trigger] outer@[i]).wf(),
    ensures
        r == wire_in_extent(hole@, outer@),
{
    let xs = collect_coord(outer, 0);
    let ys = collect_coord(outer, 1);
    let zs = collect_coord(outer, 2);
    let n = hole.len();
    for i in 0..n
        invariant
            n == hole@.len(),
            forall|k: int| 0 <= k < hole@.len() ==> (#[trigger] hole@[k]).wf(),
            forall|k: int| 0 <= k < outer@.len() ==> (#[trigger] outer@[k]).wf(),
            crate::tolerance::ints_of(xs@) == outer@.map_values(|p: Position| p.base.x as int),
            crate::tolerance::ints_of(ys@) == outer@.map_values(|p: Position| p.base.y as int),
            crate::tolerance::ints_of(zs@) == outer@.map_values(|p: Position| p.base.z as int),
            forall|k: int| 0 <= k < xs@.len() ==> crate::tolerance::in_range(#[trigger] xs@[k] as int),
            forall|k: int| 0 <= k < ys@.len() ==> crate::tolerance::in_range(#[trigger] ys@[k] as int),
            forall|k: int| 0 <= k < zs@.len() ==> crate::tolerance::in_range(#[trigger] zs@[k] as int),
            forall|k: int| 0 <= k < i ==> pos_in_extent(#[trigger] hole@[k], outer@),
    {
        let h = hole[i];
        let okx = coord_extent_check(h.base.x, &xs);
        let oky = coord_extent_check(h.base.y, &ys);
        let okz = coord_extent_check(h.base.z, &zs);
        if !(okx && oky && okz) {
            return false;
        }
    }
    true
}

/// Collects one coordinate (0 = x, 1 = y, 2 = z) of each position.
fn collect_coord(v: &Vec<Position>, which: u8) -> (out: Vec<i64>)
    requires
        which < 3,
        forall|i: int| 0 <= i < v@.len() ==> (#[trigger] v@[i]).wf(),
    ensures
        which == 0 ==> crate::tolerance::ints_of(out@) == v@.map_values(
            |p: Position| p.base.x as int,
        ),
        which == 1 ==> crate::tolerance::ints_of(out@) == v@.map_values(
            |p: Position| p.base.y as int,
        ),
        which == 2 ==> crate::tolerance::ints_of(out@) == v@.map_values(
            |p: Position| p.base.z as int,
        ),
        forall|i: int| 0 <= i < out@.len() ==> crate::tolerance::in_range(#[trigger] out@[i] as int),
{
    let n = v.len();
    let mut out: Vec<i64> = Vec::new();
    for i in 0..n
        invariant
            n == v@.len(),
            which < 3,
            out@.len() == i,
            forall|k: int| 0 <= k < v@.len() ==> (#[trigger] v@[k]).wf(),
            forall|j: int|
                0 <= j < i ==> out@[j] == (if which == 0 {
                    v@[j].base.x
                } else if which == 1 {
                    v@[j].base.y
                } else {
                    v@[j].base.z
                }),
    {
        let p = v[i];
        if which == 0 {
            out.push(p.base.x);
        } else if which == 1 {
            out.push(p.base.y);
        } else {
            out.push(p.base.z);
        }
    }
    proof {
        if which == 0 {
            assert(crate::tolerance::ints_of(out@) =~= v@.map_values(
                |p: Position| p.base.x as int,
            ));
        } else if which == 1 {
            assert(crate::tolerance::ints_of(out@) =~= v@.map_values(
                |p: Position| p.base.y as int,
            ));
        } else {
            assert(crate::tolerance::ints_of(out@) =~= v@.map_values(
                |p: Position| p.base.z as int,
            ));
        }
        assert forall|i: int| 0 <= i < out@.len() implies crate::tolerance::in_range(
            #[trigger] out@[i] as int,
        ) by {
            assert((#[trigger] v@[i]).wf());
        }
    }
    out
}

/// Decides whether a vertex list revisits a position.
pub fn check_self_touching(verts: &Vec<Position>) -> (r: bool)
    requires
        forall|i: int| 0 <= i < verts@.len() ==> (#[trigger] verts@[i]).wf(),
    ensures
        r == self_touching(verts@),
{
    let n = verts.len();
    for i in 0..n
        invariant
            n == verts@.len(),
            forall|k: int| 0 <= k < verts@.len() ==> (#[trigger] verts@[k]).wf(),
            forall|a: int, b: int|
                0 <= a < b < verts@.len() && a < i ==> !pos_near(
                    #[trigger] verts@[a],
                    #[trigger] verts@[b],
                ),
    {
        for j in i + 1..n
            invariant
                n == verts@.len(),
                i < n,
                forall|k: int| 0 <= k < verts@.len() ==> (#[trigger] verts@[k]).wf(),
                forall|a: int, b: int|
                    0 <= a < b < verts@.len() && a < i ==> !pos_near(
                        #[trigger] verts@[a],
                        #[trigger] verts@[b],
                    ),
                forall|b: int|
                    i < b < j ==> !pos_near(#[trigger] verts@[i as int], verts@[b]),
        {
            if position_near(&verts[i], &verts[j]) {
                return true;
            }
        }
    }
    false
}

/// A shell: a set of faces, immutable once built.
#[derive(Clone, Debug, PartialEq, Eq)]
pub struct Shell {
    pub faces: Vec<Face>,
}

impl Shell {
    pub open spec fn wf(&self) -> bool {
        forall|i: int| 0 <= i < self.faces@.len() ==> (#[trigger] self.faces@[i]).wf()
    }

    /// Builds a shell from validated faces; an empty set of faces bounds
    /// nothing and is refused.
    pub fn new(faces: Vec<Face>) -> (r: Result<Shell, KernelError>)
        requires
            forall|i: int| 0 <= i < faces@.len() ==> (#[trigger] faces@[i]).wf(),
        ensures
            faces@.len() > 0 ==> (r matches Ok(s) && s.faces@ == faces@ && s.wf()),
            faces@.len() == 0 ==> r == Err::<Shell, KernelError>(KernelError::DegenerateInput),
    {
        if faces.len() == 0 {
            Err(KernelError::DegenerateInput)
        } else {
            Ok(Shell { faces })
        }
    }
}

/// A solid: the shells bounding a volume, immutable once built.
#[derive(Clone, Debug, PartialEq, Eq)]
pub struct Solid {
    pub boundaries: Vec<Shell>,
}

impl Solid {
    pub open spec fn wf(&self) -> bool {
        forall|i: int| 0 <= i < self.boundaries@.len() ==> (#[trigger] self.boundaries@[i]).wf()
    }

    /// Builds a solid from validated bounding shells; an empty boundary
    /// bounds nothing and is refused.
    pub fn new(boundaries: Vec<Shell>) -> (r: Result<Solid, KernelError>)
        requires
            forall|i: int| 0 <= i < boundaries@.len() ==> (#[trigger] boundaries@[i]).wf(),
        ensures
            boundaries@.len() > 0 ==> (r matches Ok(s) && s.boundaries@ == boundaries@
                && s.wf()),
            boundaries@.len() == 0 ==> r == Err::<Solid, KernelError>(
                KernelError::DegenerateInput,
            ),
    {
        if boundaries.len() == 0 {
            Err(KernelError::DegenerateInput)
        } else {
            Ok(Solid { boundaries })
        }
    }
}

} // verus!

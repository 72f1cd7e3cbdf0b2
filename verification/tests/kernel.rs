use brep_kernel::carrier::{CurveDef, GeometryDef};
use brep_kernel::error::KernelError;
use brep_kernel::geom::{
    position_near, Axis, Point3, Position, Vector3, FULL_TURN, QUARTER_TURN,
};
use brep_kernel::sweep::Builder;
use brep_kernel::tolerance::{Origin, RoundByTolerance, Tolerance, TOLERANCE};
use brep_kernel::topo::{Edge, Face, Vertex, Wire};

/// One coordinate unit is 10^-15, so 1.0 is this many units.
const ONE: i64 = 1_000_000_000_000_000;

fn pt(x: i64, y: i64, z: i64) -> Point3 {
    Point3 { x, y, z }
}

fn vec3(x: i64, y: i64, z: i64) -> Vector3 {
    Vector3 { x, y, z }
}

fn z_axis() -> Axis {
    Axis { origin: pt(0, 0, 0), dir: vec3(0, 0, ONE) }
}

fn distinct_count(ps: &[Position]) -> usize {
    let mut count = 0;
    for (i, p) in ps.iter().enumerate() {
        let mut seen = false;
        for q in &ps[..i] {
            if position_near(q, p) {
                seen = true;
            }
        }
        if !seen {
            count += 1;
        }
    }
    count
}

#[test]
fn near_is_reflexive_and_symmetric() {
    let a: i64 = 123_456;
    let b: i64 = a + TOLERANCE - 1;
    assert!(a.near(&a));
    assert!(a.near(&b));
    assert!(b.near(&a));
}

#[test]
fn near_is_not_transitive() {
    // a chain a ~ b ~ c with a not near c: proximity is not an equivalence
    let a: i64 = 0;
    let b: i64 = 80_000_000;
    let c: i64 = 160_000_000;
    assert!(a.near(&b));
    assert!(b.near(&c));
    assert!(!a.near(&c));
}

#[test]
fn near2_is_tighter_than_near() {
    let a: i64 = 0;
    let b: i64 = 50;
    assert!(a.near(&b));
    assert!(!a.near2(&b));
    assert!(a.near2(&(a + 5)));
}

#[test]
fn so_small_on_vectors() {
    assert!(vec3(TOLERANCE - 1, 0, 0).so_small());
    assert!(!vec3(TOLERANCE, 0, 0).so_small());
}

#[test]
fn round_by_tolerance_exact_value() {
    // 1.23456789 rounds to 1.2345678 for a tolerance of 10^-7
    let mut v: i64 = 1_234_567_890_000_000;
    v.round_by_tolerance();
    assert_eq!(v, 1_234_567_800_000_000);
}

#[test]
fn round_by_tolerance_idempotent() {
    let mut v: i64 = -987_654_321_012_345;
    v.round_by_tolerance();
    let once = v;
    v.round_by_tolerance();
    assert_eq!(v, once);
}

#[test]
fn round_by_tolerance_componentwise() {
    let mut v = vec3(1_234_567_890_000_000, -100_000_001, 99_999_999);
    v.round_by_tolerance();
    assert_eq!(v, vec3(1_234_567_800_000_000, -200_000_000, 0));
}

#[test]
fn assert_near_accepts_close_values() {
    let a: i64 = 41;
    let b: i64 = 43;
    i64::assert_near(&a, &b);
    i64::assert_near2(&a, &b);
}

#[test]
fn inverse_inverse_is_structurally_identical() {
    let b = Builder::new();
    let v0 = b.vertex(pt(0, 0, 0));
    let v1 = b.vertex(pt(ONE, 0, 0));
    let e = Edge::new(v0, v1, 7);
    let twice = e.inverse().inverse();
    assert_eq!(twice, e);
    let inv = e.inverse();
    assert_eq!(inv.carrier, e.carrier);
    assert_eq!(inv.front, e.back);
    assert_eq!(inv.back, e.front);
    assert_eq!(inv.forward, !e.forward);
}

#[test]
fn tsweep_vertex_zero_vector_is_degenerate() {
    let mut b = Builder::new();
    let v = b.vertex(pt(ONE, 0, 0));
    let r = b.tsweep_vertex(&v, &vec3(0, 0, 0));
    assert_eq!(r, Err(KernelError::DegenerateInput));
    // a sub-tolerance displacement is just as degenerate
    let r2 = b.tsweep_vertex(&v, &vec3(TOLERANCE - 1, 0, 0));
    assert_eq!(r2, Err(KernelError::DegenerateInput));
}

#[test]
fn tsweep_vertex_endpoints_differ_by_displacement() {
    let mut b = Builder::new();
    let v = b.vertex(pt(ONE, 0, 0));
    let d = vec3(0, 2 * ONE, ONE);
    let e = b.tsweep_vertex(&v, &d).unwrap();
    assert_eq!(e.front, v);
    assert_eq!(e.back.pos.base, pt(ONE, 2 * ONE, ONE));
    assert_eq!(e.back.pos.angle, 0);
    // the carrier holds the segment between exactly those positions
    match b.pool.def_of(e.carrier) {
        GeometryDef::Curve(CurveDef::Segment { from, to }) => {
            assert_eq!(from, v.pos);
            assert_eq!(to, e.back.pos);
        },
        other => panic!("expected a segment carrier, got {:?}", other),
    }
}

#[test]
fn tsweep_edge_builds_closed_quad() {
    let mut b = Builder::new();
    let v0 = b.vertex(pt(0, 0, 0));
    let e = b.tsweep_vertex(&v0, &vec3(ONE, 0, 0)).unwrap();
    let f = b.tsweep_edge(&e, &vec3(0, ONE, 0)).unwrap();
    assert_eq!(f.outer.edges.len(), 4);
    assert_eq!(f.outer.edges[0], e);
    assert!(f.outer.check_closed());
    assert!(f.inner.is_empty());
}

#[test]
fn rsweep_vertex_degenerate_inputs() {
    let mut b = Builder::new();
    let v = b.vertex(pt(ONE, 0, 0));
    assert_eq!(b.rsweep_vertex(&v, &z_axis(), 0), Err(KernelError::DegenerateInput));
    // the axis passes through the swept point
    let on_axis = b.vertex(pt(0, 0, ONE));
    assert_eq!(
        b.rsweep_vertex(&on_axis, &z_axis(), QUARTER_TURN),
        Err(KernelError::DegenerateInput)
    );
}

#[test]
fn rsweep_vertex_full_turn_closes_without_seam() {
    let mut b = Builder::new();
    let v = b.vertex(pt(ONE, 0, 0));
    let w = b.rsweep_vertex(&v, &z_axis(), FULL_TURN).unwrap();
    assert_eq!(w.edges.len(), 4);
    assert!(w.check_closed());
    // the seam is the original vertex itself, not a duplicate
    assert_eq!(w.edges[3].back, v);
    let fronts: Vec<Position> = w.edges.iter().map(|e| e.front.pos).collect();
    assert_eq!(distinct_count(&fronts), 4);
}

#[test]
fn rsweep_edge_full_turn_vertex_count_matches_profile() {
    let mut b = Builder::new();
    let v = b.vertex(pt(ONE, 0, 0));
    let e = b.tsweep_vertex(&v, &vec3(0, 0, ONE)).unwrap();
    let f = b.rsweep_edge(&e, &z_axis(), FULL_TURN).unwrap();
    // a closed face: both rims are closed wires
    assert!(f.outer.check_closed());
    assert_eq!(f.inner.len(), 1);
    assert!(f.inner[0].check_closed());
    // distinct vertices == the open profile's vertex count (2): no doubling
    let mut verts: Vec<Position> = Vec::new();
    for edge in f.outer.edges.iter().chain(f.inner[0].edges.iter()) {
        verts.push(edge.front.pos);
        verts.push(edge.back.pos);
    }
    assert_eq!(distinct_count(&verts), 2);
}

#[test]
fn four_quarter_turns_match_one_full_turn() {
    let mut b = Builder::new();
    let v = b.vertex(pt(ONE, 0, 0));
    let full = b.rsweep_vertex(&v, &z_axis(), FULL_TURN).unwrap();

    let mut chained = b.rsweep_vertex(&v, &z_axis(), QUARTER_TURN).unwrap();
    for _ in 0..3 {
        let end = Vertex { pos: chained.edges.last().unwrap().back.pos };
        let next = b.rsweep_vertex(&end, &z_axis(), QUARTER_TURN).unwrap();
        chained.extend(&next);
    }
    // same topology within tolerance: same stations in order, both closed
    assert_eq!(chained.edges.len(), full.edges.len());
    for (a, c) in full.edges.iter().zip(chained.edges.iter()) {
        assert!(position_near(&a.front.pos, &c.front.pos));
        assert!(position_near(&a.back.pos, &c.back.pos));
    }
    assert!(chained.check_closed());
    assert!(full.check_closed());
}

#[test]
fn pop_back_discards_the_trailing_closing_element() {
    let mut b = Builder::new();
    let v = b.vertex(pt(ONE, 0, 0));
    let mut full = b.rsweep_vertex(&v, &z_axis(), FULL_TURN).unwrap();
    let three = b.rsweep_vertex(&v, &z_axis(), 3 * QUARTER_TURN).unwrap();
    let popped = full.pop_back().unwrap();
    assert_eq!(full.edges.len(), three.edges.len());
    for (a, c) in full.edges.iter().zip(three.edges.iter()) {
        assert!(position_near(&a.front.pos, &c.front.pos));
        assert!(position_near(&a.back.pos, &c.back.pos));
    }
    // what was popped was the closing arc back to the start
    assert!(position_near(&popped.back.pos, &v.pos));
    assert!(full.pop_back().is_some());
    let mut empty = Wire { edges: Vec::new() };
    assert!(empty.pop_back().is_none());
}

fn square_wire(cx: i64, cy: i64, half: i64, carrier: usize) -> Wire {
    let b = Builder::new();
    let corners = [
        pt(cx - half, cy - half, 0),
        pt(cx + half, cy - half, 0),
        pt(cx + half, cy + half, 0),
        pt(cx - half, cy + half, 0),
    ];
    let mut edges = Vec::new();
    for i in 0..4 {
        let v0 = b.vertex(corners[i]);
        let v1 = b.vertex(corners[(i + 1) % 4]);
        edges.push(Edge::new(v0, v1, carrier));
    }
    Wire::from_edges(edges)
}

#[test]
fn add_boundary_rejects_hole_outside_extent() {
    let outer = square_wire(0, 0, 2 * ONE, 0);
    let mut face = Face::new(outer, 0).unwrap();
    // a hole entirely outside the outer wire's extent
    let far_hole = square_wire(10 * ONE, 10 * ONE, ONE / 2, 1);
    assert_eq!(face.add_boundary(far_hole), Err(KernelError::InvalidBoundary(1)));
    assert!(face.inner.is_empty());
    // a contained hole is accepted
    let hole = square_wire(0, 0, ONE / 2, 1);
    assert_eq!(face.add_boundary(hole), Ok(()));
    assert_eq!(face.inner.len(), 1);
}

#[test]
fn face_new_rejects_open_outer_wire() {
    let b = Builder::new();
    let v0 = b.vertex(pt(0, 0, 0));
    let v1 = b.vertex(pt(ONE, 0, 0));
    let open = Wire::from_edges(vec![Edge::new(v0, v1, 0)]);
    assert_eq!(Face::new(open, 0), Err(KernelError::InvalidBoundary(0)));
}

#[test]
fn carrier_reads_are_deterministic_and_never_blocked() {
    let mut b = Builder::new();
    let v = b.vertex(pt(ONE, 0, 0));
    let e = b.tsweep_vertex(&v, &vec3(ONE, ONE, 0)).unwrap();
    let first = b.pool.evaluate(e.carrier, 500_000);
    let second = b.pool.evaluate(e.carrier, 500_000);
    assert_eq!(first, second);
    let mid = first.unwrap();
    assert_eq!(mid.base, pt(ONE + ONE / 2, ONE / 2, 0));
    // reading stays possible while the exclusive hold is taken
    b.pool.try_exclusive(e.carrier).unwrap();
    assert_eq!(b.pool.evaluate(e.carrier, 500_000), Some(mid));
    b.pool.release(e.carrier);
}

#[test]
fn exclusive_access_is_exclusive_and_nonblocking() {
    let mut b = Builder::new();
    let v = b.vertex(pt(ONE, 0, 0));
    let e = b.tsweep_vertex(&v, &vec3(ONE, 0, 0)).unwrap();
    // of two contending attempts, exactly one succeeds
    assert_eq!(b.pool.try_exclusive(e.carrier), Ok(()));
    assert_eq!(b.pool.try_exclusive(e.carrier), Err(KernelError::CarrierContention));
    // structural mutation happens under the hold; the definition changes
    let new_def = GeometryDef::Curve(CurveDef::Segment {
        from: Position::at(pt(0, 0, 0)),
        to: Position::at(pt(0, ONE, 0)),
    });
    b.pool.set_def(e.carrier, new_def);
    b.pool.release(e.carrier);
    assert_eq!(b.pool.def_of(e.carrier), new_def);
    // once released, the hold can be taken again
    assert_eq!(b.pool.try_exclusive(e.carrier), Ok(()));
}

//! The tolerance layer: near-equality and quantization for fixed-point
//! coordinates.
//!
//! A coordinate is an `i64` counting units of 10^-15.  The kernel tolerance
//! of 10^-7 is therefore exactly `TOLERANCE` units, and its square, 10^-14,
//! exactly `TOLERANCE2` units.  `near` is reflexive and symmetric but
//! intentionally **not** transitive: that is an accepted property of
//! proximity testing, and nothing here "fixes" it by transitive closure,
//! which would silently change merge semantics.

use vstd::prelude::*;
use vstd::arithmetic::div_mod::{
    lemma_div_is_ordered, lemma_fundamental_div_mod, lemma_fundamental_div_mod_converse_div,
};

verus! {

/// The kernel tolerance, 10^-7, in coordinate units of 10^-15.
pub const TOLERANCE: i64 = 100_000_000;

/// The square of the kernel tolerance, 10^-14, in coordinate units of 10^-15.
pub const TOLERANCE2: i64 = 10;

/// Largest coordinate magnitude the kernel works with: 4000.0, i.e.
/// 4 * 10^18 units.  Overflow forces a bound: it keeps sums and
/// differences of two coordinates inside an `i64` and componentwise cross
/// products inside an `i128`.  A multiple of `TOLERANCE`, so quantization
/// stays in range.
pub const COORD_BOUND: i64 = 4_000_000_000_000_000_000;

/// A coordinate the kernel accepts: bounded so that sums and differences of
/// two coordinates never overflow an `i64`.
pub open spec fn in_range(x: int) -> bool {
    -COORD_BOUND <= x <= COORD_BOUND
}

/// Two mathematical values are within `eps` of each other (strictly).
pub open spec fn within(a: int, b: int, eps: int) -> bool {
    -eps < a - b < eps
}

/// Componentwise nearness of two equally long coordinate sequences.
pub open spec fn seq_within(a: Seq<int>, b: Seq<int>, eps: int) -> bool {
    a.len() == b.len() && forall|i: int| 0 <= i < a.len() ==> within(a[i], b[i], eps)
}

/// The all-zero sequence of a given length.
pub open spec fn zero_seq(n: nat) -> Seq<int> {
    Seq::new(n, |i: int| 0)
}

/// Every entry of a coordinate sequence is in range.
pub open spec fn seq_in_range(a: Seq<int>) -> bool {
    forall|i: int| 0 <= i < a.len() ==> in_range(a[i])
}

/// The view of an exec coordinate vector as a mathematical sequence.
pub open spec fn ints_of(a: Seq<i64>) -> Seq<int> {
    a.map_values(|x: i64| x as int)
}

/// Quantization of one coordinate: the nearest multiple of `TOLERANCE` not
/// above it.
pub open spec fn round_spec(x: int) -> int {
    (x / (TOLERANCE as int)) * (TOLERANCE as int)
}

/// Componentwise quantization of a coordinate sequence.
pub open spec fn seq_round(a: Seq<int>) -> Seq<int> {
    a.map_values(|x: int| round_spec(x))
}

/// A fixed-size numeric container (a scalar, vector, point or square
/// matrix) whose componentwise distance the kernel can test against its
/// tolerance.  One generic mechanism serves every arity: the containers
/// only expose their entries, and the comparison and quantization loops
/// are written once.
pub trait Tolerance: Sized {
    /// The container is well formed: every entry is a bounded coordinate.
    spec fn wf(&self) -> bool;

    /// The entries of the container, in a fixed order.
    spec fn entries(&self) -> Seq<int>;

    /// Well-formedness bounds every entry.
    proof fn wf_facts(&self)
        requires
            self.wf(),
        ensures
            seq_in_range(self.entries()),
        ;

    /// The entries, as an exec vector.
    fn to_entries(&self) -> (v: Vec<i64>)
        ensures
            ints_of(v@) == self.entries(),
        ;

    /// The componentwise "distance" is less than `TOLERANCE`.
    fn near(&self, other: &Self) -> (r: bool)
        requires
            self.wf(),
            other.wf(),
        ensures
            r == seq_within(self.entries(), other.entries(), TOLERANCE as int),
    {
        proof {
            self.wf_facts();
            other.wf_facts();
        }
        entries_within(&self.to_entries(), &other.to_entries(), TOLERANCE)
    }

    /// The componentwise "distance" is less than `TOLERANCE2`, the
    /// squared-order tolerance for quantities of squared scale.
    fn near2(&self, other: &Self) -> (r: bool)
        requires
            self.wf(),
            other.wf(),
        ensures
            r == seq_within(self.entries(), other.entries(), TOLERANCE2 as int),
    {
        proof {
            self.wf_facts();
            other.wf_facts();
        }
        entries_within(&self.to_entries(), &other.to_entries(), TOLERANCE2)
    }

    /// Developer invariant check: callers must prove the two values near.
    /// Never used to validate externally supplied input.
    fn assert_near(one: &Self, other: &Self)
        requires
            one.wf(),
            other.wf(),
            seq_within(one.entries(), other.entries(), TOLERANCE as int),
    {
    }

    /// Developer invariant check in squared order.
    fn assert_near2(one: &Self, other: &Self)
        requires
            one.wf(),
            other.wf(),
            seq_within(one.entries(), other.entries(), TOLERANCE2 as int),
    {
    }
}

/// Containers that have an origin and can be tested for being near it.
pub trait Origin: Tolerance {
    /// Every entry is within `TOLERANCE` of zero.
    fn so_small(&self) -> (r: bool)
        requires
            self.wf(),
        ensures
            r == seq_within(self.entries(), zero_seq(self.entries().len()), TOLERANCE as int),
    {
        proof {
            self.wf_facts();
        }
        entries_so_small(&self.to_entries(), TOLERANCE)
    }

    /// Every entry is within `TOLERANCE2` of zero.
    fn so_small2(&self) -> (r: bool)
        requires
            self.wf(),
        ensures
            r == seq_within(self.entries(), zero_seq(self.entries().len()), TOLERANCE2 as int),
    {
        proof {
            self.wf_facts();
        }
        entries_so_small(&self.to_entries(), TOLERANCE2)
    }
}

/// Containers whose entries can be quantized to the tolerance grid.
pub trait RoundByTolerance: Tolerance {
    /// Rounds every entry down to the nearest multiple of `TOLERANCE`.
    fn round_by_tolerance(&mut self)
        requires
            old(self).wf(),
        ensures
            final(self).wf(),
            final(self).entries() == seq_round(old(self).entries()),
        ;
}

/// Shared componentwise comparison behind every `near`/`near2` of the
/// kernel.
fn entries_within(a: &Vec<i64>, b: &Vec<i64>, eps: i64) -> (r: bool)
    requires
        seq_in_range(ints_of(a@)),
        seq_in_range(ints_of(b@)),
        0 < eps,
    ensures
        r == seq_within(ints_of(a@), ints_of(b@), eps as int),
{
    if a.len() != b.len() {
        return false;
    }
    let n = a.len();
    for i in 0..n
        invariant
            n == a@.len(),
            a@.len() == b@.len(),
            seq_in_range(ints_of(a@)),
            seq_in_range(ints_of(b@)),
            0 < eps,
            forall|j: int| 0 <= j < i ==> within(ints_of(a@)[j], ints_of(b@)[j], eps as int),
    {
        let ai = a[i];
        let bi = b[i];
        proof {
            assert(ints_of(a@)[i as int] == ai as int);
            assert(ints_of(b@)[i as int] == bi as int);
            assert(in_range(ints_of(a@)[i as int]));
            assert(in_range(ints_of(b@)[i as int]));
        }
        let d = ai - bi;
        if !(-eps < d && d < eps) {
            return false;
        }
    }
    true
}

/// Shared componentwise comparison against the origin.
fn entries_so_small(a: &Vec<i64>, eps: i64) -> (r: bool)
    requires
        seq_in_range(ints_of(a@)),
        0 < eps,
    ensures
        r == seq_within(ints_of(a@), zero_seq(a@.len() as nat), eps as int),
{
    let n = a.len();
    for i in 0..n
        invariant
            n == a@.len(),
            seq_in_range(ints_of(a@)),
            0 < eps,
            forall|j: int| 0 <= j < i ==> within(ints_of(a@)[j], 0, eps as int),
    {
        let ai = a[i];
        proof {
            assert(ints_of(a@)[i as int] == ai as int);
            assert(in_range(ints_of(a@)[i as int]));
        }
        if !(-eps < ai && ai < eps) {
            proof {
                assert(zero_seq(a@.len() as nat)[i as int] == 0);
            }
            return false;
        }
    }
    true
}

/// Quantizes one coordinate down to the tolerance grid.
pub fn round_i64(x: i64) -> (r: i64)
    requires
        in_range(x as int),
    ensures
        r as int == round_spec(x as int),
        in_range(r as int),
        r <= x,
        x - TOLERANCE < r,
{
    proof {
        lemma_round_bounds(x as int);
    }
    if x >= 0 {
        let q = (x as u64) / (TOLERANCE as u64);
        proof {
            lemma_fundamental_div_mod(x as int, TOLERANCE as int);
        }
        (q * (TOLERANCE as u64)) as i64
    } else {
        let m = (-x) as u64;
        let q = m / (TOLERANCE as u64);
        let rem = m % (TOLERANCE as u64);
        if rem == 0 {
            proof {
                lemma_fundamental_div_mod_converse_div(
                    x as int,
                    TOLERANCE as int,
                    -(q as int),
                    0,
                );
            }
            -((q * (TOLERANCE as u64)) as i64)
        } else {
            proof {
                lemma_fundamental_div_mod_converse_div(
                    x as int,
                    TOLERANCE as int,
                    -(q as int) - 1,
                    TOLERANCE as int - rem as int,
                );
            }
            -(((q + 1) * (TOLERANCE as u64)) as i64)
        }
    }
}

/// The quantized coordinate sits in the half-open window `(x - TOLERANCE, x]`
/// and stays in range.
pub proof fn lemma_round_bounds(x: int)
    requires
        in_range(x),
    ensures
        round_spec(x) <= x,
        x - TOLERANCE < round_spec(x),
        in_range(round_spec(x)),
{
    let t = TOLERANCE as int;
    lemma_fundamental_div_mod(x, t);
    lemma_div_is_ordered(-(COORD_BOUND as int), x, t);
    lemma_div_is_ordered(x, COORD_BOUND as int, t);
    lemma_fundamental_div_mod_converse_div(-(COORD_BOUND as int), t, -40_000_000_000, 0);
    lemma_fundamental_div_mod_converse_div(COORD_BOUND as int, t, 40_000_000_000, 0);
}

/// Quantization is idempotent: rounding an already rounded coordinate
/// changes nothing.
pub proof fn lemma_round_idempotent(x: int)
    ensures
        round_spec(round_spec(x)) == round_spec(x),
{
    let t = TOLERANCE as int;
    let q = x / t;
    lemma_fundamental_div_mod_converse_div(q * t, t, q, 0);
}

/// `near` is reflexive: every well-formed container is near itself.
pub proof fn lemma_near_reflexive(a: Seq<int>)
    ensures
        seq_within(a, a, TOLERANCE as int),
{
}

/// `near` is symmetric: the componentwise distance does not depend on the
/// order of its arguments.  (It is intentionally not transitive; the
/// chain counterexample is exercised by the test suite.)
pub proof fn lemma_near_symmetric(a: Seq<int>, b: Seq<int>, eps: int)
    ensures
        seq_within(a, b, eps) == seq_within(b, a, eps),
{
    if seq_within(a, b, eps) {
        assert forall|i: int| 0 <= i < b.len() implies within(b[i], a[i], eps) by {
            assert(within(a[i], b[i], eps));
        }
    }
    if seq_within(b, a, eps) {
        assert forall|i: int| 0 <= i < a.len() implies within(a[i], b[i], eps) by {
            assert(within(b[i], a[i], eps));
        }
    }
}

/// The scalar container: a single fixed-point coordinate.
impl Tolerance for i64 {
    open spec fn wf(&self) -> bool {
        in_range(*self as int)
    }

    open spec fn entries(&self) -> Seq<int> {
        seq![*self as int]
    }

    proof fn wf_facts(&self) {
    }

    fn to_entries(&self) -> (v: Vec<i64>) {
        let v = vec![*self];
        proof {
            assert(ints_of(v@) =~= self.entries());
        }
        v
    }
}

impl Origin for i64 {
}

impl RoundByTolerance for i64 {
    fn round_by_tolerance(&mut self) {
        *self = round_i64(*self);
        proof {
            assert(final(self).entries() =~= seq_round(old(self).entries()));
        }
    }
}

} // verus!

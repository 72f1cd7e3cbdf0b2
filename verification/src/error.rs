//! The kernel's failure taxonomy.  Construction operators return a typed
//! failure rather than an invalid partially built entity; no operation
//! leaves a reachable half-constructed wire, face or solid behind.

use vstd::prelude::*;

verus! {

/// Why a kernel operation refused to build anything.
#[derive(Clone, Copy, Debug, PartialEq, Eq, Structural)]
pub enum KernelError {
    /// A sweep was asked to do nothing: zero displacement, zero angle, or a
    /// rotation axis passing through the very point being swept.
    DegenerateInput,
    /// A boundary wire is unusable: not closed where closure is required,
    /// self-touching, or a hole outside the outer boundary's extent.  The
    /// payload names the offending wire by its index among the boundaries
    /// handed in (the outer wire is index zero).
    InvalidBoundary(usize),
    /// Exclusive access to a carrier was requested while it was already
    /// held.  The request fails immediately; nothing blocks.
    CarrierContention,
    /// A developer-only invariant check was violated.  Verified kernel code
    /// never produces this; it is reserved for checks at the kernel's rim.
    ToleranceViolation,
}

} // verus!

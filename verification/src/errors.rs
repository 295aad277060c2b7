use vstd::prelude::*;

verus! {

/// Why a transition was refused.
///
/// Errors are transition-fatal: an operation that returns an error leaves the
/// module state exactly as it was. The variant names the first precondition
/// that failed, in the order the operation checks them.
#[derive(Clone, Copy, PartialEq, Eq, Structural, Debug)]
pub enum CustodyError {
    /// The referenced id does not exist.
    NotFound,
    /// Creation would collide with an id, or a nullifier, already recorded.
    DuplicateId,
    /// The caller does not satisfy the operation's authorization predicate.
    Unauthorized,
    /// The entity's current status does not permit the transition.
    WrongState,
    /// A time gate was violated: too early to refund, or too late to act.
    Temporal,
    /// A length or range check failed, or no value was attached.
    Parameter,
    /// Poseidon completion was asked for without a prior oracle attestation.
    MissingOracleVerification,
}

} // verus!

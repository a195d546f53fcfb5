//! The single error taxonomy shared by every operation.
//!
//! Every precondition violation aborts the whole call with exactly one of
//! these kinds; the host discards all writes on an error outcome, so no
//! record is ever left in an intermediate state.

use vstd::prelude::*;

verus! {

/// Why an operation rejected a call.
#[derive(Clone, Copy, PartialEq, Eq, Structural, Debug)]
pub enum MultisigError {
    /// Too few accounts or payload bytes, or an unrecognized opcode/action.
    MalformedCall,
    /// A required signer bit is absent.
    MissingSignature,
    /// The caller is not the required creator or member.
    Unauthorized,
    /// The target record already belongs to this program.
    AlreadyInitialized,
    /// A supplied address differs from the re-derived canonical address.
    IdentityMismatch,
    /// The record is not in the status the operation requires.
    InvalidState,
    /// Tally attempted before either quorum or expiry.
    TooEarly,
    /// Vote attempted after the proposal's deadline.
    Expired,
    /// The member has already cast a ballot on this proposal.
    AlreadyVoted,
    /// The caller's address is absent from the proposal's voter list.
    NotEligible,
    /// An out-of-range vote byte, member count or threshold.
    InvalidValue,
}

} // verus!

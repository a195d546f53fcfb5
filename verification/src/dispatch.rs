//! The Dispatcher: maps the leading opcode byte of a call envelope to one of
//! the five operations. It validates nothing beyond opcode recognition; each
//! operation checks its own preconditions.

use vstd::prelude::*;

use crate::errors::MultisigError;

verus! {

/// The five operations a call can select.
#[derive(Clone, Copy, PartialEq, Eq, Structural, Debug)]
pub enum MultisigInstructions {
    InitializeMultisig,
    InitializeProposal,
    UpdateMultisig,
    Vote,
    CloseProposal,
}

/// The operation an opcode byte selects, meaningful only for bytes 0
/// through 4.
pub open spec fn spec_instruction_of_byte(b: u8) -> MultisigInstructions
    recommends
        b <= 4,
{
    if b == 0 {
        MultisigInstructions::InitializeMultisig
    } else if b == 1 {
        MultisigInstructions::InitializeProposal
    } else if b == 2 {
        MultisigInstructions::UpdateMultisig
    } else if b == 3 {
        MultisigInstructions::Vote
    } else {
        MultisigInstructions::CloseProposal
    }
}

impl MultisigInstructions {
    /// Recognizes an opcode byte; bytes above 4 are rejected.
    pub fn try_from(value: &u8) -> (r: Result<MultisigInstructions, MultisigError>)
        ensures
            *value <= 4 ==> r == Ok::<MultisigInstructions, MultisigError>(
                spec_instruction_of_byte(*value),
            ),
            *value > 4 ==> r == Err::<MultisigInstructions, MultisigError>(
                MultisigError::MalformedCall,
            ),
    {
        match *value {
            0 => Ok(MultisigInstructions::InitializeMultisig),
            1 => Ok(MultisigInstructions::InitializeProposal),
            2 => Ok(MultisigInstructions::UpdateMultisig),
            3 => Ok(MultisigInstructions::Vote),
            4 => Ok(MultisigInstructions::CloseProposal),
            _ => Err(MultisigError::MalformedCall),
        }
    }
}

} // verus!

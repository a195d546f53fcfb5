//! The three persisted record kinds and their mathematical views.
//!
//! Records live in the host's keyed storage as fixed-width byte strings; this
//! module gives each one a structured type, a ghost view over sequences, and
//! the well-formedness predicate that every operation preserves.

use vstd::prelude::*;

use crate::errors::MultisigError;

verus! {

broadcast use vstd::array::group_array_axioms;

/// A 32-byte account address.
pub type Pubkey = [u8; 32];

/// Ballot byte meaning "not voted yet".
pub const NOT_VOTED: u8 = 255;

/// Ballot byte meaning a no ballot.
pub const VOTE_NO: u8 = 0;

/// Ballot byte meaning a yes ballot.
pub const VOTE_YES: u8 = 1;

/// The all-zero address that fills unused key slots.
pub open spec fn zero_key() -> Seq<u8> {
    Seq::new(32, |i: int| 0u8)
}

/// Compares two addresses byte for byte.
pub fn pubkey_eq(a: &Pubkey, b: &Pubkey) -> (r: bool)
    ensures
        r == (a@ == b@),
{
    let mut i: usize = 0;
    while i < 32
        invariant
            i <= 32,
            forall|j: int| 0 <= j < i ==> a@[j] == b@[j],
        decreases 32 - i,
    {
        if a[i] != b[i] {
            return false;
        }
        i = i + 1;
    }
    proof {
        assert(a@ =~= b@);
    }
    true
}

/// Current state of a proposal. `Draft` is reserved and never entered by the
/// creation path; a proposal starts `Active` and moves exactly once to one of
/// the terminal states.
#[derive(Clone, Copy, PartialEq, Eq, Structural, Debug)]
pub enum ProposalStatus {
    Draft,
    Active,
    Failed,
    Succeeded,
    Cancelled,
}

/// The storage byte that stands for each status.
pub open spec fn spec_status_byte(s: ProposalStatus) -> u8 {
    match s {
        ProposalStatus::Draft => 0,
        ProposalStatus::Active => 1,
        ProposalStatus::Failed => 2,
        ProposalStatus::Succeeded => 3,
        ProposalStatus::Cancelled => 4,
    }
}

/// The status a storage byte stands for, meaningful only for bytes 0 through 4.
pub open spec fn spec_status_of_byte(b: u8) -> ProposalStatus
    recommends
        b <= 4,
{
    if b == 0 {
        ProposalStatus::Draft
    } else if b == 1 {
        ProposalStatus::Active
    } else if b == 2 {
        ProposalStatus::Failed
    } else if b == 3 {
        ProposalStatus::Succeeded
    } else {
        ProposalStatus::Cancelled
    }
}

impl ProposalStatus {
    /// Reads a status from its storage byte; bytes above 4 are rejected.
    pub fn try_from(value: &u8) -> (r: Result<ProposalStatus, MultisigError>)
        ensures
            *value <= 4 ==> r == Ok::<ProposalStatus, MultisigError>(spec_status_of_byte(*value)),
            *value > 4 ==> r == Err::<ProposalStatus, MultisigError>(MultisigError::MalformedCall),
    {
        match *value {
            0 => Ok(ProposalStatus::Draft),
            1 => Ok(ProposalStatus::Active),
            2 => Ok(ProposalStatus::Failed),
            3 => Ok(ProposalStatus::Succeeded),
            4 => Ok(ProposalStatus::Cancelled),
            _ => Err(MultisigError::MalformedCall),
        }
    }

    /// Writes the status as its storage byte.
    pub fn as_byte(&self) -> (r: u8)
        ensures
            r == spec_status_byte(*self),
    {
        match *self {
            ProposalStatus::Draft => 0,
            ProposalStatus::Active => 1,
            ProposalStatus::Failed => 2,
            ProposalStatus::Succeeded => 3,
            ProposalStatus::Cancelled => 4,
        }
    }
}

/// One group's configuration record, stored at
/// derive("multisig", creator).
#[derive(Clone, Copy, PartialEq, Eq, Debug)]
pub struct Multisig {
    /// Address that created the group; sole authority for updates.
    pub creator: Pubkey,
    /// How many of the key slots are live, at most 10.
    pub member_count: u8,
    /// Member addresses; slots at `member_count` and above are zero.
    pub member_keys: [Pubkey; 10],
    /// Minimum yes ballots a proposal needs to succeed.
    pub threshold: u64,
    /// Seconds a new proposal stays open.
    pub proposal_expiry: u64,
    /// Monotone counter; also the next proposal's sequence number and seed.
    pub total_proposals: u64,
    /// Derived address of the group's treasury.
    pub treasury_wallet: Pubkey,
    /// Disambiguation byte of this record's derived address.
    pub config_bump: u8,
    /// Disambiguation byte of the treasury's derived address.
    pub treasury_bump: u8,
}

/// Ghost image of a [`Multisig`] over sequences.
#[verifier::ext_equal]
pub ghost struct MultisigView {
    pub creator: Seq<u8>,
    pub member_count: u8,
    pub member_keys: Seq<Seq<u8>>,
    pub threshold: u64,
    pub proposal_expiry: u64,
    pub total_proposals: u64,
    pub treasury_wallet: Seq<u8>,
    pub config_bump: u8,
    pub treasury_bump: u8,
}

impl View for Multisig {
    type V = MultisigView;

    open spec fn view(&self) -> MultisigView {
        MultisigView {
            creator: self.creator@,
            member_count: self.member_count,
            member_keys: Seq::new(10, |i: int| self.member_keys@[i]@),
            threshold: self.threshold,
            proposal_expiry: self.proposal_expiry,
            total_proposals: self.total_proposals,
            treasury_wallet: self.treasury_wallet@,
            config_bump: self.config_bump,
            treasury_bump: self.treasury_bump,
        }
    }
}

impl MultisigView {
    /// Shape every configuration record keeps: full key table, 32-byte
    /// addresses, and a live count within the table.
    pub open spec fn wf(self) -> bool {
        &&& self.creator.len() == 32
        &&& self.member_keys.len() == 10
        &&& (forall|i: int| 0 <= i < 10 ==> (#[trigger] self.member_keys[i]).len() == 32)
        &&& self.member_count <= 10
        &&& self.treasury_wallet.len() == 32
    }
}

/// One proposal record, stored at
/// derive("proposal", configAddress, sequenceNumber).
#[derive(Clone, Copy, PartialEq, Eq, Debug)]
pub struct Proposal {
    /// Member who opened the proposal.
    pub creator: Pubkey,
    /// Sequence number, equal to the group's `total_proposals` at creation.
    pub id: u64,
    /// Moment after which ballots are no longer accepted.
    pub expiration_time: u64,
    /// Where the proposal stands in its lifecycle.
    pub status: ProposalStatus,
    /// Snapshot of the group's members at creation, index-aligned with
    /// `votes`; slots beyond the live member count are zero.
    pub voter_keys: [Pubkey; 20],
    /// One ballot byte per voter slot: 0 no, 1 yes, 255 not voted.
    pub votes: [u8; 20],
    /// Moment of creation.
    pub created_at: u64,
}

/// Ghost image of a [`Proposal`] over sequences.
#[verifier::ext_equal]
pub ghost struct ProposalView {
    pub creator: Seq<u8>,
    pub id: u64,
    pub expiration_time: u64,
    pub status: ProposalStatus,
    pub voter_keys: Seq<Seq<u8>>,
    pub votes: Seq<u8>,
    pub created_at: u64,
}

impl View for Proposal {
    type V = ProposalView;

    open spec fn view(&self) -> ProposalView {
        ProposalView {
            creator: self.creator@,
            id: self.id,
            expiration_time: self.expiration_time,
            status: self.status,
            voter_keys: Seq::new(20, |i: int| self.voter_keys@[i]@),
            votes: self.votes@,
            created_at: self.created_at,
        }
    }
}

impl ProposalView {
    /// Shape every proposal record keeps.
    pub open spec fn wf(self) -> bool {
        &&& self.creator.len() == 32
        &&& self.voter_keys.len() == 20
        &&& (forall|i: int| 0 <= i < 20 ==> (#[trigger] self.voter_keys[i]).len() == 32)
        &&& self.votes.len() == 20
    }
}

/// One member's lifetime participation record, stored at
/// derive("vote_state", memberAddress); global across all proposals.
#[derive(Clone, Copy, PartialEq, Eq, Structural, Debug)]
pub struct VoteState {
    /// Reserved revocation flag; the core always writes it true.
    pub is_authorized: bool,
    /// Ballots this address has cast across all proposals.
    pub total_votes: u64,
    /// Disambiguation byte of this record's derived address.
    pub config_bump: u8,
}

} // verus!

//! The Proposal Lifecycle Engine: creation, voting and finalization of
//! proposal records.
//!
//! Each proposal moves from `Active` to exactly one of `Succeeded`, `Failed`
//! (via tally) or `Cancelled` (via cancel); no other transition exists. Every
//! operation is a pure function of the records, the caller facts, one clock
//! reading and the raw payload bytes, and rejects the whole call on the first
//! violated precondition, changing nothing.

use vstd::prelude::*;

use crate::errors::MultisigError;
use crate::receipt::get_or_create_receipt;
use crate::receipt::spec_next_receipt;
use crate::state::Multisig;
use crate::state::MultisigView;
use crate::state::NOT_VOTED;
use crate::state::Proposal;
use crate::state::ProposalStatus;
use crate::state::ProposalView;
use crate::state::Pubkey;
use crate::state::VOTE_YES;
use crate::state::VoteState;
use crate::state::pubkey_eq;
use crate::state::zero_key;

verus! {

broadcast use vstd::array::group_array_axioms;

/// Whether `key` sits in one of the group's live member slots.
pub open spec fn spec_is_member(m: MultisigView, key: Seq<u8>) -> bool {
    exists|i: int| 0 <= i < m.member_count as int && m.member_keys[i] == key
}

/// Index of the first voter slot holding `key`, scanning from slot `i`.
pub open spec fn first_index_from(keys: Seq<Seq<u8>>, key: Seq<u8>, i: int) -> Option<int>
    decreases keys.len() - i,
{
    if i < 0 || i >= keys.len() {
        None
    } else if keys[i] == key {
        Some(i)
    } else {
        first_index_from(keys, key, i + 1)
    }
}

/// Index of the first voter slot holding `key`, over the whole table.
pub open spec fn first_index(keys: Seq<Seq<u8>>, key: Seq<u8>) -> Option<int> {
    first_index_from(keys, key, 0)
}

/// A key absent from every slot at or after `i` is never found from `i`.
pub proof fn lemma_first_index_from_none(keys: Seq<Seq<u8>>, key: Seq<u8>, i: int)
    requires
        0 <= i <= keys.len(),
        forall|j: int| i <= j < keys.len() ==> keys[j] != key,
    ensures
        first_index_from(keys, key, i) is None,
    decreases keys.len() - i,
{
    if i < keys.len() {
        lemma_first_index_from_none(keys, key, i + 1);
    }
}

/// How many of the first `n` ballot slots hold a cast ballot.
pub open spec fn count_cast(votes: Seq<u8>, n: int) -> int
    decreases n,
{
    if n <= 0 {
        0
    } else {
        count_cast(votes, n - 1) + if votes[n - 1] != NOT_VOTED {
            1int
        } else {
            0int
        }
    }
}

/// How many of the first `n` ballot slots hold a yes ballot.
pub open spec fn count_yes(votes: Seq<u8>, n: int) -> int
    decreases n,
{
    if n <= 0 {
        0
    } else {
        count_yes(votes, n - 1) + if votes[n - 1] == VOTE_YES {
            1int
        } else {
            0int
        }
    }
}

/// Outcome of proposal creation. Checks run in this order: the caller must
/// be a live member of the group, the target record must not already belong
/// to this program, and the supplied proposal address must match the one
/// re-derived from the config address and the group's proposal counter. The
/// new proposal starts `Active` with the group's members snapshotted into
/// its low voter slots, every ballot slot at the not-voted sentinel, and a
/// deadline of `now` plus the group's expiry; the group's counter moves up
/// by exactly one.
pub open spec fn spec_create_proposal(
    m: MultisigView,
    creator: Seq<u8>,
    supplied_proposal: Seq<u8>,
    derived_proposal: Seq<u8>,
    proposal_owned: bool,
    now: u64,
) -> Result<(MultisigView, ProposalView), MultisigError> {
    if !spec_is_member(m, creator) {
        Err(MultisigError::Unauthorized)
    } else if proposal_owned {
        Err(MultisigError::AlreadyInitialized)
    } else if supplied_proposal != derived_proposal {
        Err(MultisigError::IdentityMismatch)
    } else {
        Ok(
            (
                MultisigView { total_proposals: (m.total_proposals + 1) as u64, ..m },
                ProposalView {
                    creator: creator,
                    id: m.total_proposals,
                    expiration_time: (now + m.proposal_expiry) as u64,
                    status: ProposalStatus::Active,
                    voter_keys: Seq::new(
                        20,
                        |i: int|
                            if i < m.member_count as int {
                                m.member_keys[i]
                            } else {
                                zero_key()
                            },
                    ),
                    votes: Seq::new(20, |i: int| NOT_VOTED),
                    created_at: now,
                },
            ),
        )
    }
}

/// Opens a new proposal against the group and advances its counter.
///
/// The caller re-derives the canonical proposal address from the config
/// address and the current counter and hands both in; the ownership flag
/// says whether the target record already belongs to this program. On any
/// error the group record is unchanged.
pub fn create_proposal(
    multisig: &mut Multisig,
    creator: &Pubkey,
    supplied_proposal: &Pubkey,
    derived_proposal: &Pubkey,
    proposal_owned: bool,
    now: u64,
) -> (r: Result<Proposal, MultisigError>)
    requires
        old(multisig)@.wf(),
        old(multisig)@.total_proposals < u64::MAX,
        now + old(multisig)@.proposal_expiry <= u64::MAX,
    ensures
        ({
            let outcome = spec_create_proposal(
                old(multisig)@,
                creator@,
                supplied_proposal@,
                derived_proposal@,
                proposal_owned,
                now,
            );
            match r {
                Ok(p) => outcome matches Ok(pair) && final(multisig)@ == pair.0 && p@ == pair.1
                    && final(multisig)@.wf() && p@.wf(),
                Err(e) => outcome == Err::<(MultisigView, ProposalView), MultisigError>(e)
                    && *final(multisig) == *old(multisig),
            }
        }),
{
    let member_count = multisig.member_count as usize;
    let mut i: usize = 0;
    let mut found: bool = false;
    while !found && i < member_count
        invariant
            i <= member_count,
            member_count == old(multisig)@.member_count as int,
            old(multisig)@.member_count <= 10,
            *multisig == *old(multisig),
            !found ==> forall|j: int| 0 <= j < i ==> multisig@.member_keys[j] != creator@,
            found ==> spec_is_member(multisig@, creator@),
        decreases member_count - i, (if found { 0int } else { 1int }),
    {
        if pubkey_eq(&multisig.member_keys[i], creator) {
            proof {
                assert(spec_is_member(multisig@, creator@)) by {
                    assert((i as int) < multisig@.member_count as int
                        && multisig@.member_keys[i as int] == creator@);
                }
            }
            found = true;
        } else {
            i = i + 1;
        }
    }
    if !found {
        return Err(MultisigError::Unauthorized);
    }
    if proposal_owned {
        return Err(MultisigError::AlreadyInitialized);
    }
    if !pubkey_eq(supplied_proposal, derived_proposal) {
        return Err(MultisigError::IdentityMismatch);
    }
    let mut voter_keys: [Pubkey; 20] = [[0u8; 32]; 20];
    proof {
        assert forall|j: int| 0 <= j < 20 implies #[trigger] voter_keys@[j]@ == zero_key() by {
            assert(voter_keys@[j]@ =~= zero_key());
        }
    }
    let mut i: usize = 0;
    while i < member_count
        invariant
            i <= member_count,
            member_count == multisig@.member_count as int,
            multisig@.member_count <= 10,
            forall|j: int| 0 <= j < i ==> voter_keys@[j]@ == multisig@.member_keys[j],
            forall|j: int| i <= j < 20 ==> #[trigger] voter_keys@[j]@ == zero_key(),
        decreases member_count - i,
    {
        voter_keys[i] = multisig.member_keys[i];
        i = i + 1;
    }
    let p = Proposal {
        creator: *creator,
        id: multisig.total_proposals,
        expiration_time: now + multisig.proposal_expiry,
        status: ProposalStatus::Active,
        voter_keys,
        votes: [NOT_VOTED; 20],
        created_at: now,
    };
    multisig.total_proposals = multisig.total_proposals + 1;
    proof {
        let outcome = spec_create_proposal(
            old(multisig)@,
            creator@,
            supplied_proposal@,
            derived_proposal@,
            proposal_owned,
            now,
        );
        assert(p@.votes =~= outcome->Ok_0.1.votes);
        assert(p@ =~~= outcome->Ok_0.1);
        assert(multisig@ =~~= outcome->Ok_0.0);
    }
    Ok(p)
}

/// Outcome of one ballot. Checks run in this order: the caller must sign,
/// the proposal must be `Active`, the deadline must not have passed, the
/// caller must sit in some voter slot (the first matching slot counts), that
/// slot must still hold the not-voted sentinel, the payload must carry a
/// ballot byte of 0 or 1, and the supplied participation-record address must
/// match the one re-derived from the caller's address. The ballot lands in
/// the caller's slot and the caller's lifetime receipt is created or
/// advanced.
pub open spec fn spec_vote(
    p: ProposalView,
    voter: Seq<u8>,
    is_signer: bool,
    now: u64,
    supplied_receipt: Seq<u8>,
    derived_receipt: Seq<u8>,
    receipt_bump: u8,
    receipt: Option<VoteState>,
    payload: Seq<u8>,
) -> Result<(ProposalView, VoteState), MultisigError> {
    if !is_signer {
        Err(MultisigError::MissingSignature)
    } else if p.status != ProposalStatus::Active {
        Err(MultisigError::InvalidState)
    } else if now > p.expiration_time {
        Err(MultisigError::Expired)
    } else {
        match first_index(p.voter_keys, voter) {
            None => Err(MultisigError::NotEligible),
            Some(i) => if p.votes[i] != NOT_VOTED {
                Err(MultisigError::AlreadyVoted)
            } else if payload.len() < 1 {
                Err(MultisigError::MalformedCall)
            } else if payload[0] > 1 {
                Err(MultisigError::InvalidValue)
            } else if supplied_receipt != derived_receipt {
                Err(MultisigError::IdentityMismatch)
            } else {
                Ok(
                    (
                        ProposalView { votes: p.votes.update(i, payload[0]), ..p },
                        spec_next_receipt(receipt, receipt_bump),
                    ),
                )
            },
        }
    }
}

/// Records one member's ballot on an active proposal and returns the
/// member's new participation record. A member may ballot exactly once per
/// proposal. On any error the proposal is unchanged.
pub fn vote(
    proposal: &mut Proposal,
    voter: &Pubkey,
    is_signer: bool,
    now: u64,
    supplied_receipt: &Pubkey,
    derived_receipt: &Pubkey,
    receipt_bump: u8,
    receipt: Option<VoteState>,
    payload: &[u8],
) -> (r: Result<VoteState, MultisigError>)
    requires
        old(proposal)@.wf(),
        receipt matches Some(v) ==> v.total_votes < u64::MAX,
    ensures
        ({
            let outcome = spec_vote(
                old(proposal)@,
                voter@,
                is_signer,
                now,
                supplied_receipt@,
                derived_receipt@,
                receipt_bump,
                receipt,
                payload@,
            );
            match r {
                Ok(vs) => outcome matches Ok(pair) && final(proposal)@ == pair.0 && vs == pair.1
                    && final(proposal)@.wf(),
                Err(e) => outcome == Err::<(ProposalView, VoteState), MultisigError>(e)
                    && *final(proposal) == *old(proposal),
            }
        }),
{
    if !is_signer {
        return Err(MultisigError::MissingSignature);
    }
    if !(proposal.status == ProposalStatus::Active) {
        return Err(MultisigError::InvalidState);
    }
    if now > proposal.expiration_time {
        return Err(MultisigError::Expired);
    }
    let mut i: usize = 0;
    let mut found: bool = false;
    while !found && i < 20
        invariant
            i <= 20,
            *proposal == *old(proposal),
            !found ==> first_index(proposal@.voter_keys, voter@) == first_index_from(
                proposal@.voter_keys,
                voter@,
                i as int,
            ),
            found ==> i < 20 && first_index(proposal@.voter_keys, voter@) == Some(i as int),
        decreases 20 - i, (if found { 0int } else { 1int }),
    {
        if pubkey_eq(&proposal.voter_keys[i], voter) {
            found = true;
        } else {
            i = i + 1;
        }
    }
    if !found {
        return Err(MultisigError::NotEligible);
    }
    if proposal.votes[i] != NOT_VOTED {
        return Err(MultisigError::AlreadyVoted);
    }
    if payload.len() < 1 {
        return Err(MultisigError::MalformedCall);
    }
    let ballot = payload[0];
    if ballot > 1 {
        return Err(MultisigError::InvalidValue);
    }
    if !pubkey_eq(supplied_receipt, derived_receipt) {
        return Err(MultisigError::IdentityMismatch);
    }
    proposal.votes[i] = ballot;
    let new_receipt = get_or_create_receipt(receipt, receipt_bump);
    proof {
        let outcome = spec_vote(
            old(proposal)@,
            voter@,
            is_signer,
            now,
            supplied_receipt@,
            derived_receipt@,
            receipt_bump,
            receipt,
            payload@,
        );
        assert(proposal@ =~~= outcome->Ok_0.0);
    }
    Ok(new_receipt)
}

/// Outcome of finalization. The payload's first byte selects the action:
/// 0 tallies, 1 cancels, anything else is malformed; either way the caller
/// must sign. Tally demands an `Active` proposal and either a passed
/// deadline or a ballot in every live slot; it then succeeds the proposal
/// exactly when the yes ballots in the live slots reach the group's
/// threshold, and fails it otherwise. Cancel demands an `Active` proposal
/// and the proposal's own creator as the signer. The live slots are the
/// current config's member count, read at tally time, not the snapshot's
/// length.
pub open spec fn spec_close_proposal(
    p: ProposalView,
    m: MultisigView,
    signer: Seq<u8>,
    is_signer: bool,
    now: u64,
    payload: Seq<u8>,
) -> Result<ProposalView, MultisigError> {
    if payload.len() < 1 {
        Err(MultisigError::MalformedCall)
    } else if !is_signer {
        Err(MultisigError::MissingSignature)
    } else if payload[0] == 0 {
        if p.status != ProposalStatus::Active {
            Err(MultisigError::InvalidState)
        } else if now <= p.expiration_time && count_cast(p.votes, m.member_count as int)
            != m.member_count as int {
            Err(MultisigError::TooEarly)
        } else if count_yes(p.votes, m.member_count as int) >= m.threshold as int {
            Ok(ProposalView { status: ProposalStatus::Succeeded, ..p })
        } else {
            Ok(ProposalView { status: ProposalStatus::Failed, ..p })
        }
    } else if payload[0] == 1 {
        if p.status != ProposalStatus::Active {
            Err(MultisigError::InvalidState)
        } else if signer != p.creator {
            Err(MultisigError::Unauthorized)
        } else {
            Ok(ProposalView { status: ProposalStatus::Cancelled, ..p })
        }
    } else {
        Err(MultisigError::MalformedCall)
    }
}

/// Finalizes a proposal: action byte 0 tallies it against the group's
/// current member count and threshold, action byte 1 lets its creator
/// cancel it. Either way the proposal reaches a terminal status exactly
/// once; on any error it is unchanged.
pub fn close_proposal(
    proposal: &mut Proposal,
    multisig: &Multisig,
    signer: &Pubkey,
    is_signer: bool,
    now: u64,
    payload: &[u8],
) -> (r: Result<(), MultisigError>)
    requires
        old(proposal)@.wf(),
        multisig@.wf(),
    ensures
        ({
            let outcome = spec_close_proposal(
                old(proposal)@,
                multisig@,
                signer@,
                is_signer,
                now,
                payload@,
            );
            match r {
                Ok(_) => outcome matches Ok(v) && final(proposal)@ == v && final(proposal)@.wf(),
                Err(e) => outcome == Err::<ProposalView, MultisigError>(e) && *final(proposal)
                    == *old(proposal),
            }
        }),
{
    if payload.len() < 1 {
        return Err(MultisigError::MalformedCall);
    }
    if !is_signer {
        return Err(MultisigError::MissingSignature);
    }
    let action = payload[0];
    if action == 0 {
        if !(proposal.status == ProposalStatus::Active) {
            return Err(MultisigError::InvalidState);
        }
        let eligible = multisig.member_count as usize;
        let mut cast: u64 = 0;
        let mut yes: u64 = 0;
        let mut i: usize = 0;
        while i < eligible
            invariant
                i <= eligible,
                eligible == multisig@.member_count as int,
                multisig@.member_count <= 10,
                *proposal == *old(proposal),
                cast <= i,
                yes <= i,
                cast == count_cast(proposal@.votes, i as int),
                yes == count_yes(proposal@.votes, i as int),
            decreases eligible - i,
        {
            if proposal.votes[i] != NOT_VOTED {
                cast = cast + 1;
            }
            if proposal.votes[i] == VOTE_YES {
                yes = yes + 1;
            }
            i = i + 1;
        }
        let is_expired = now > proposal.expiration_time;
        let all_voted = cast == multisig.member_count as u64;
        if !is_expired && !all_voted {
            return Err(MultisigError::TooEarly);
        }
        if yes >= multisig.threshold {
            proposal.status = ProposalStatus::Succeeded;
        } else {
            proposal.status = ProposalStatus::Failed;
        }
    } else if action == 1 {
        if !(proposal.status == ProposalStatus::Active) {
            return Err(MultisigError::InvalidState);
        }
        if !pubkey_eq(signer, &proposal.creator) {
            return Err(MultisigError::Unauthorized);
        }
        proposal.status = ProposalStatus::Cancelled;
    } else {
        return Err(MultisigError::MalformedCall);
    }
    proof {
        let outcome = spec_close_proposal(
            old(proposal)@,
            multisig@,
            signer@,
            is_signer,
            now,
            payload@,
        );
        assert(proposal@ =~~= outcome->Ok_0);
    }
    Ok(())
}

} // verus!

//! The guarantees the lifecycle gives against adversarial callers, stated
//! over the functional specifications of the operations and proved once for
//! every input.

use vstd::prelude::*;

use crate::config::spec_update_multisig;
use crate::errors::MultisigError;
use crate::proposal::count_cast;
use crate::proposal::count_yes;
use crate::proposal::first_index;
use crate::proposal::first_index_from;
use crate::proposal::lemma_first_index_from_none;
use crate::proposal::spec_close_proposal;
use crate::proposal::spec_create_proposal;
use crate::proposal::spec_vote;
use crate::receipt::spec_next_receipt;
use crate::state::MultisigView;
use crate::state::NOT_VOTED;
use crate::state::ProposalStatus;
use crate::state::ProposalView;
use crate::state::VoteState;

verus! {

/// A found index lies in the table, holds the key, and no earlier slot does.
pub proof fn lemma_first_index_found(keys: Seq<Seq<u8>>, key: Seq<u8>, i: int)
    requires
        0 <= i <= keys.len(),
        first_index_from(keys, key, i) is Some,
    ensures
        ({
            let j = first_index_from(keys, key, i)->Some_0;
            i <= j < keys.len() && keys[j] == key
        }),
    decreases keys.len() - i,
{
    if i < keys.len() && keys[i] != key {
        lemma_first_index_found(keys, key, i + 1);
    }
}

/// Every valid creation opens a proposal with every ballot slot at the
/// not-voted sentinel, under the canonical derived address: creation only
/// succeeds when the supplied address equals the re-derived one, and the new
/// proposal is active, numbered by the group's counter at creation time.
pub proof fn lemma_new_proposal_unvoted(
    m: MultisigView,
    creator: Seq<u8>,
    supplied_proposal: Seq<u8>,
    derived_proposal: Seq<u8>,
    proposal_owned: bool,
    now: u64,
)
    requires
        spec_create_proposal(m, creator, supplied_proposal, derived_proposal, proposal_owned, now)
            is Ok,
    ensures
        ({
            let p = spec_create_proposal(
                m,
                creator,
                supplied_proposal,
                derived_proposal,
                proposal_owned,
                now,
            )->Ok_0.1;
            &&& forall|i: int| 0 <= i < 20 ==> p.votes[i] == NOT_VOTED
            &&& supplied_proposal == derived_proposal
            &&& p.status == ProposalStatus::Active
            &&& p.id == m.total_proposals
        }),
{
}

/// One member, one ballot: after a member's successful ballot, a second
/// ballot call by the same member on the resulting proposal is rejected
/// `AlreadyVoted`, whatever ballot byte, receipt or addresses the second
/// call carries, at any moment up to the deadline. (Past the deadline the
/// call is turned away earlier, as `Expired`.)
pub proof fn lemma_second_vote_rejected(
    p: ProposalView,
    voter: Seq<u8>,
    now1: u64,
    sr1: Seq<u8>,
    dr1: Seq<u8>,
    rb1: u8,
    rec1: Option<VoteState>,
    pay1: Seq<u8>,
    now2: u64,
    sr2: Seq<u8>,
    dr2: Seq<u8>,
    rb2: u8,
    rec2: Option<VoteState>,
    pay2: Seq<u8>,
)
    requires
        p.wf(),
        spec_vote(p, voter, true, now1, sr1, dr1, rb1, rec1, pay1) is Ok,
        now2 <= p.expiration_time,
    ensures
        ({
            let p1 = spec_vote(p, voter, true, now1, sr1, dr1, rb1, rec1, pay1)->Ok_0.0;
            spec_vote(p1, voter, true, now2, sr2, dr2, rb2, rec2, pay2) == Err::<
                (ProposalView, VoteState),
                MultisigError,
            >(MultisigError::AlreadyVoted)
        }),
{
    let idx = first_index(p.voter_keys, voter);
    lemma_first_index_found(p.voter_keys, voter, 0);
    let i = idx->Some_0;
    let p1 = spec_vote(p, voter, true, now1, sr1, dr1, rb1, rec1, pay1)->Ok_0.0;
    assert(p1.voter_keys == p.voter_keys);
    assert(p1.votes[i] == pay1[0]);
    assert(p1.votes[i] != NOT_VOTED);
}

/// A ballot lands only in the caller's own slot: a successful ballot call
/// writes the ballot byte into the first slot whose key equals the caller
/// and leaves every other ballot slot, the voter table and the status
/// untouched.
pub proof fn lemma_vote_writes_own_slot(
    p: ProposalView,
    voter: Seq<u8>,
    now: u64,
    sr: Seq<u8>,
    dr: Seq<u8>,
    rb: u8,
    rec: Option<VoteState>,
    pay: Seq<u8>,
)
    requires
        p.wf(),
        spec_vote(p, voter, true, now, sr, dr, rb, rec, pay) is Ok,
    ensures
        ({
            let p1 = spec_vote(p, voter, true, now, sr, dr, rb, rec, pay)->Ok_0.0;
            let i = first_index(p.voter_keys, voter)->Some_0;
            &&& 0 <= i < 20
            &&& p.voter_keys[i] == voter
            &&& p1.votes[i] == pay[0]
            &&& (forall|j: int| 0 <= j < 20 && j != i ==> p1.votes[j] == p.votes[j])
            &&& p1.voter_keys == p.voter_keys
            &&& p1.status == p.status
            &&& p1.expiration_time == p.expiration_time
        }),
{
    lemma_first_index_found(p.voter_keys, voter, 0);
}

/// Only listed voters ballot: a signed ballot call on an active, unexpired
/// proposal by a caller standing in no voter slot returns `NotEligible`; by
/// the ballot function's contract an error changes nothing. (An unsigned
/// call is turned away earlier, as `MissingSignature`.)
pub proof fn lemma_non_member_vote_rejected(
    p: ProposalView,
    voter: Seq<u8>,
    now: u64,
    sr: Seq<u8>,
    dr: Seq<u8>,
    rb: u8,
    rec: Option<VoteState>,
    pay: Seq<u8>,
)
    requires
        p.wf(),
        p.status == ProposalStatus::Active,
        now <= p.expiration_time,
        forall|i: int| 0 <= i < p.voter_keys.len() ==> p.voter_keys[i] != voter,
    ensures
        spec_vote(p, voter, true, now, sr, dr, rb, rec, pay) == Err::<
            (ProposalView, VoteState),
            MultisigError,
        >(MultisigError::NotEligible),
{
    lemma_first_index_from_none(p.voter_keys, voter, 0);
}

/// Tally timing: a signed tally call on an active proposal is rejected
/// `TooEarly` exactly while the deadline has not passed and the live slots
/// still miss a ballot; the instant either condition flips, the tally
/// proceeds.
pub proof fn lemma_tally_timing(
    p: ProposalView,
    m: MultisigView,
    signer: Seq<u8>,
    now: u64,
    pay: Seq<u8>,
)
    requires
        pay.len() >= 1,
        pay[0] == 0,
        p.status == ProposalStatus::Active,
    ensures
        (spec_close_proposal(p, m, signer, true, now, pay) == Err::<ProposalView, MultisigError>(
            MultisigError::TooEarly,
        )) <==> (now <= p.expiration_time && count_cast(p.votes, m.member_count as int)
            != m.member_count as int),
{
}

/// Threshold boundary: when a tally proceeds, yes ballots numbering exactly
/// the threshold succeed the proposal, and exactly one fewer fails it.
pub proof fn lemma_tally_threshold(
    p: ProposalView,
    m: MultisigView,
    signer: Seq<u8>,
    now: u64,
    pay: Seq<u8>,
)
    requires
        pay.len() >= 1,
        pay[0] == 0,
        p.status == ProposalStatus::Active,
        spec_close_proposal(p, m, signer, true, now, pay) is Ok,
    ensures
        count_yes(p.votes, m.member_count as int) == m.threshold as int ==> spec_close_proposal(
            p,
            m,
            signer,
            true,
            now,
            pay,
        )->Ok_0.status == ProposalStatus::Succeeded,
        count_yes(p.votes, m.member_count as int) == m.threshold as int - 1
            ==> spec_close_proposal(p, m, signer, true, now, pay)->Ok_0.status
            == ProposalStatus::Failed,
{
}

/// Cancel authorization: a signed cancel by anyone but the proposal's
/// creator on an active proposal is `Unauthorized`, and a signed cancel on a
/// proposal out of the active state is `InvalidState` whoever signs. (An
/// unsigned cancel is turned away earlier, as `MissingSignature`.)
pub proof fn lemma_cancel_authorization(
    p: ProposalView,
    m: MultisigView,
    signer: Seq<u8>,
    now: u64,
    pay: Seq<u8>,
)
    requires
        pay.len() >= 1,
        pay[0] == 1,
    ensures
        p.status == ProposalStatus::Active && signer != p.creator ==> spec_close_proposal(
            p,
            m,
            signer,
            true,
            now,
            pay,
        ) == Err::<ProposalView, MultisigError>(MultisigError::Unauthorized),
        p.status != ProposalStatus::Active ==> spec_close_proposal(p, m, signer, true, now, pay)
            == Err::<ProposalView, MultisigError>(MultisigError::InvalidState),
{
}

/// Threshold bounds on update: a signed update by the creator carrying a
/// threshold of zero, or one above the live member count, is rejected
/// `InvalidValue`.
pub proof fn lemma_update_threshold_bounds(m: MultisigView, signer: Seq<u8>, payload: Seq<u8>)
    requires
        signer == m.creator,
        payload.len() >= 16,
        ({
            let t = vstd::bytes::spec_u64_from_le_bytes(payload.subrange(0, 8));
            t == 0 || t > m.member_count as u64
        }),
    ensures
        spec_update_multisig(m, signer, true, payload) == Err::<MultisigView, MultisigError>(
            MultisigError::InvalidValue,
        ),
{
}

/// The receipt counts ballots: a member's first successful ballot opens the
/// lifetime record at one, and every later successful ballot moves it up by
/// exactly one.
pub proof fn lemma_receipt_counts_ballots(existing: Option<VoteState>, bump: u8)
    requires
        existing matches Some(v) ==> v.total_votes < u64::MAX,
    ensures
        existing is None ==> spec_next_receipt(existing, bump).total_votes == 1,
        existing matches Some(v) ==> spec_next_receipt(existing, bump).total_votes
            == v.total_votes + 1,
{
}

} // verus!

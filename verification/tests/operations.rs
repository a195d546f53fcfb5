//! Behavioral tests of the five operations against concrete groups,
//! proposals and clock readings.

use multisig::config::{create_multisig, update_multisig};
use multisig::errors::MultisigError;
use multisig::proposal::{close_proposal, create_proposal, vote};
use multisig::receipt::get_or_create_receipt;
use multisig::state::{Multisig, Proposal, ProposalStatus, Pubkey, VoteState, NOT_VOTED, VOTE_NO, VOTE_YES};

fn key(n: u8) -> Pubkey {
    [n; 32]
}

fn create_payload(members: &[Pubkey]) -> Vec<u8> {
    let mut payload = vec![0u8, members.len() as u8];
    for m in members {
        payload.extend_from_slice(m);
    }
    payload
}

fn update_payload(threshold: u64, expiry: u64) -> Vec<u8> {
    let mut payload = Vec::new();
    payload.extend_from_slice(&threshold.to_le_bytes());
    payload.extend_from_slice(&expiry.to_le_bytes());
    payload
}

/// A group with the given members, threshold and expiry, built through the
/// two config operations as a caller would.
fn make_group(creator: Pubkey, members: &[Pubkey], threshold: u64, expiry: u64) -> Multisig {
    let config_addr = key(200);
    let treasury = key(201);
    let payload = create_payload(members);
    let mut m = create_multisig(
        &creator,
        &config_addr,
        &config_addr,
        254,
        false,
        &treasury,
        &treasury,
        253,
        false,
        &payload,
    )
    .expect("creation should succeed");
    update_multisig(&mut m, &creator, true, &update_payload(threshold, expiry))
        .expect("update should succeed");
    m
}

fn open_proposal(m: &mut Multisig, creator: Pubkey, now: u64) -> Proposal {
    let addr = key(210);
    create_proposal(m, &creator, &addr, &addr, false, now).expect("proposal should open")
}

fn cast(
    p: &mut Proposal,
    voter: Pubkey,
    now: u64,
    receipt: Option<VoteState>,
    ballot: u8,
) -> Result<VoteState, MultisigError> {
    let receipt_addr = key(220);
    vote(p, &voter, true, now, &receipt_addr, &receipt_addr, 252, receipt, &[ballot])
}

#[test]
fn test_create_multisig_fields() {
    let creator = key(1);
    let members = [key(1), key(2), key(3)];
    let config_addr = key(200);
    let treasury = key(201);
    let m = create_multisig(
        &creator,
        &config_addr,
        &config_addr,
        254,
        false,
        &treasury,
        &treasury,
        253,
        false,
        &create_payload(&members),
    )
    .expect("creation should succeed");
    assert_eq!(m.creator, creator);
    assert_eq!(m.member_count, 3);
    assert_eq!(m.member_keys[0], key(1));
    assert_eq!(m.member_keys[1], key(2));
    assert_eq!(m.member_keys[2], key(3));
    for i in 3..10 {
        assert_eq!(m.member_keys[i], [0u8; 32]);
    }
    assert_eq!(m.threshold, 0);
    assert_eq!(m.proposal_expiry, 0);
    assert_eq!(m.total_proposals, 0);
    assert_eq!(m.treasury_wallet, treasury);
    assert_eq!(m.config_bump, 254);
    assert_eq!(m.treasury_bump, 253);
}

#[test]
fn test_create_multisig_errors() {
    let creator = key(1);
    let members = [key(1)];
    let payload = create_payload(&members);
    let a = key(200);
    let b = key(201);
    let other = key(99);
    // Supplied config address differs from the re-derived one.
    assert_eq!(
        create_multisig(&creator, &a, &other, 0, false, &b, &b, 0, false, &payload),
        Err(MultisigError::IdentityMismatch)
    );
    // Supplied treasury address differs from the re-derived one.
    assert_eq!(
        create_multisig(&creator, &a, &a, 0, false, &b, &other, 0, false, &payload),
        Err(MultisigError::IdentityMismatch)
    );
    // Config record already owned by this program.
    assert_eq!(
        create_multisig(&creator, &a, &a, 0, true, &b, &b, 0, false, &payload),
        Err(MultisigError::AlreadyInitialized)
    );
    // Treasury record already owned by this program.
    assert_eq!(
        create_multisig(&creator, &a, &a, 0, false, &b, &b, 0, true, &payload),
        Err(MultisigError::AlreadyInitialized)
    );
    // Payload too short to carry the member count.
    assert_eq!(
        create_multisig(&creator, &a, &a, 0, false, &b, &b, 0, false, &[0u8]),
        Err(MultisigError::MalformedCall)
    );
    // Eleven members exceed the table.
    let too_many: Vec<Pubkey> = (0..11).map(|i| key(i as u8 + 1)).collect();
    assert_eq!(
        create_multisig(&creator, &a, &a, 0, false, &b, &b, 0, false, &create_payload(&too_many)),
        Err(MultisigError::InvalidValue)
    );
    // Count says three members but only one key follows.
    let mut short = vec![0u8, 3];
    short.extend_from_slice(&key(1));
    assert_eq!(
        create_multisig(&creator, &a, &a, 0, false, &b, &b, 0, false, &short),
        Err(MultisigError::MalformedCall)
    );
}

#[test]
fn test_update_multisig() {
    let creator = key(1);
    let mut m = make_group(creator, &[key(1), key(2), key(3)], 2, 3600);
    assert_eq!(m.threshold, 2);
    assert_eq!(m.proposal_expiry, 3600);

    let before = m;
    // The creator must sign.
    assert_eq!(
        update_multisig(&mut m, &creator, false, &update_payload(1, 10)),
        Err(MultisigError::MissingSignature)
    );
    // Only the creator may update.
    assert_eq!(
        update_multisig(&mut m, &key(2), true, &update_payload(1, 10)),
        Err(MultisigError::Unauthorized)
    );
    // The payload must carry both integers.
    assert_eq!(
        update_multisig(&mut m, &creator, true, &[0u8; 15]),
        Err(MultisigError::MalformedCall)
    );
    assert_eq!(m, before);
}

#[test]
fn test_update_threshold_bounds() {
    // A threshold of zero and one above the member count are both rejected.
    let creator = key(1);
    let mut m = make_group(creator, &[key(1), key(2), key(3)], 2, 3600);
    let before = m;
    assert_eq!(
        update_multisig(&mut m, &creator, true, &update_payload(0, 3600)),
        Err(MultisigError::InvalidValue)
    );
    assert_eq!(
        update_multisig(&mut m, &creator, true, &update_payload(4, 3600)),
        Err(MultisigError::InvalidValue)
    );
    assert_eq!(m, before);
}

#[test]
fn test_create_proposal_fields() {
    let creator = key(1);
    let mut m = make_group(creator, &[key(1), key(2), key(3)], 2, 3600);
    let p = open_proposal(&mut m, key(2), 50);
    assert_eq!(p.creator, key(2));
    assert_eq!(p.id, 0);
    assert_eq!(p.status, ProposalStatus::Active);
    assert_eq!(p.created_at, 50);
    assert_eq!(p.expiration_time, 3650);
    for i in 0..3 {
        assert_eq!(p.voter_keys[i], m.member_keys[i]);
    }
    for i in 3..20 {
        assert_eq!(p.voter_keys[i], [0u8; 32]);
    }
    assert_eq!(p.votes, [NOT_VOTED; 20]);
    assert_eq!(m.total_proposals, 1);
}

#[test]
fn test_create_proposal_errors() {
    let creator = key(1);
    let mut m = make_group(creator, &[key(1), key(2), key(3)], 2, 3600);
    let before = m;
    let addr = key(210);
    // A non-member may not open a proposal.
    assert_eq!(
        create_proposal(&mut m, &key(9), &addr, &addr, false, 0),
        Err(MultisigError::Unauthorized)
    );
    // The target record must not already belong to this program.
    assert_eq!(
        create_proposal(&mut m, &creator, &addr, &addr, true, 0),
        Err(MultisigError::AlreadyInitialized)
    );
    // The supplied address must match the re-derived one.
    assert_eq!(
        create_proposal(&mut m, &creator, &addr, &key(211), false, 0),
        Err(MultisigError::IdentityMismatch)
    );
    assert_eq!(m, before);
}

#[test]
fn test_vote_success_then_already_voted() {
    let creator = key(1);
    let mut m = make_group(creator, &[key(1), key(2), key(3)], 2, 3600);
    let mut p = open_proposal(&mut m, creator, 0);
    let receipt = cast(&mut p, key(2), 10, None, VOTE_YES).expect("first ballot should land");
    assert_eq!(receipt.total_votes, 1);
    assert!(receipt.is_authorized);
    assert_eq!(p.votes[1], 1);
    // A second ballot by the same member is rejected and changes nothing.
    let before = p;
    assert_eq!(cast(&mut p, key(2), 20, Some(receipt), VOTE_NO), Err(MultisigError::AlreadyVoted));
    assert_eq!(p, before);
    assert_eq!(p.votes[1], 1);
}

#[test]
fn test_vote_non_member() {
    let creator = key(1);
    let mut m = make_group(creator, &[key(1), key(2), key(3)], 2, 3600);
    let mut p = open_proposal(&mut m, creator, 0);
    let before = p;
    assert_eq!(cast(&mut p, key(9), 10, None, 1), Err(MultisigError::NotEligible));
    assert_eq!(p, before);
}

#[test]
fn test_vote_errors() {
    let creator = key(1);
    let mut m = make_group(creator, &[key(1), key(2), key(3)], 2, 3600);
    let mut p = open_proposal(&mut m, creator, 0);
    let receipt_addr = key(220);
    let before = p;
    // The voter must sign.
    assert_eq!(
        vote(&mut p, &key(2), false, 10, &receipt_addr, &receipt_addr, 0, None, &[1]),
        Err(MultisigError::MissingSignature)
    );
    // The deadline has passed.
    assert_eq!(
        vote(&mut p, &key(2), true, 3601, &receipt_addr, &receipt_addr, 0, None, &[1]),
        Err(MultisigError::Expired)
    );
    // The payload must carry a ballot byte.
    assert_eq!(
        vote(&mut p, &key(2), true, 10, &receipt_addr, &receipt_addr, 0, None, &[]),
        Err(MultisigError::MalformedCall)
    );
    // Only 0 and 1 are ballots.
    assert_eq!(
        vote(&mut p, &key(2), true, 10, &receipt_addr, &receipt_addr, 0, None, &[2]),
        Err(MultisigError::InvalidValue)
    );
    // The supplied receipt address must match the re-derived one.
    assert_eq!(
        vote(&mut p, &key(2), true, 10, &receipt_addr, &key(221), 0, None, &[1]),
        Err(MultisigError::IdentityMismatch)
    );
    assert_eq!(p, before);
    // A proposal out of the active state takes no ballots.
    p.status = ProposalStatus::Cancelled;
    assert_eq!(
        vote(&mut p, &key(2), true, 10, &receipt_addr, &receipt_addr, 0, None, &[1]),
        Err(MultisigError::InvalidState)
    );
}

#[test]
fn test_tally_too_early() {
    let creator = key(1);
    let mut m = make_group(creator, &[key(1), key(2), key(3)], 2, 3600);
    let mut p = open_proposal(&mut m, creator, 0);
    cast(&mut p, key(1), 10, None, 1).unwrap();
    // Two of three ballots in and the deadline not passed: too early.
    cast(&mut p, key(2), 20, None, 1).unwrap();
    let before = p;
    assert_eq!(
        close_proposal(&mut p, &m, &creator, true, 20, &[0]),
        Err(MultisigError::TooEarly)
    );
    assert_eq!(p, before);
    // The moment the deadline passes, the tally proceeds.
    close_proposal(&mut p, &m, &creator, true, 3601, &[0]).expect("tally should proceed");
    assert_eq!(p.status, ProposalStatus::Succeeded);
}

#[test]
fn test_tally_all_voted_before_deadline() {
    let creator = key(1);
    let mut m = make_group(creator, &[key(1), key(2), key(3)], 2, 3600);
    let mut p = open_proposal(&mut m, creator, 0);
    cast(&mut p, key(1), 10, None, 1).unwrap();
    cast(&mut p, key(2), 20, None, 0).unwrap();
    cast(&mut p, key(3), 30, None, 0).unwrap();
    // Every live slot holds a ballot, so the tally proceeds at once.
    close_proposal(&mut p, &m, &creator, true, 31, &[0]).expect("tally should proceed");
    assert_eq!(p.status, ProposalStatus::Failed);
}

#[test]
fn test_tally_threshold_boundary() {
    let creator = key(1);
    let members = [key(1), key(2), key(3)];
    // Exactly threshold-many yes ballots succeed.
    let mut m = make_group(creator, &members, 2, 3600);
    let mut p = open_proposal(&mut m, creator, 0);
    cast(&mut p, key(1), 10, None, 1).unwrap();
    cast(&mut p, key(2), 20, None, 1).unwrap();
    cast(&mut p, key(3), 30, None, 0).unwrap();
    close_proposal(&mut p, &m, &creator, true, 31, &[0]).unwrap();
    assert_eq!(p.status, ProposalStatus::Succeeded);
    // One fewer yes ballot fails.
    let mut m2 = make_group(creator, &members, 2, 3600);
    let mut p2 = open_proposal(&mut m2, creator, 0);
    cast(&mut p2, key(1), 10, None, 1).unwrap();
    cast(&mut p2, key(2), 20, None, 0).unwrap();
    cast(&mut p2, key(3), 30, None, 0).unwrap();
    close_proposal(&mut p2, &m2, &creator, true, 31, &[0]).unwrap();
    assert_eq!(p2.status, ProposalStatus::Failed);
}

#[test]
fn test_cancel_authorization() {
    let creator = key(1);
    let mut m = make_group(creator, &[key(1), key(2), key(3)], 2, 3600);
    let mut p = open_proposal(&mut m, key(2), 0);
    let before = p;
    // A signer other than the proposal's creator may not cancel.
    assert_eq!(
        close_proposal(&mut p, &m, &key(3), true, 10, &[1]),
        Err(MultisigError::Unauthorized)
    );
    assert_eq!(p, before);
    // The creator may.
    close_proposal(&mut p, &m, &key(2), true, 10, &[1]).expect("cancel should succeed");
    assert_eq!(p.status, ProposalStatus::Cancelled);
    // Out of the active state, cancel is rejected whoever signs.
    assert_eq!(
        close_proposal(&mut p, &m, &key(2), true, 10, &[1]),
        Err(MultisigError::InvalidState)
    );
}

#[test]
fn test_close_malformed_and_unsigned() {
    let creator = key(1);
    let mut m = make_group(creator, &[key(1), key(2), key(3)], 2, 3600);
    let mut p = open_proposal(&mut m, creator, 0);
    // The payload must carry an action byte, and it must be 0 or 1.
    assert_eq!(close_proposal(&mut p, &m, &creator, true, 10, &[]), Err(MultisigError::MalformedCall));
    assert_eq!(close_proposal(&mut p, &m, &creator, true, 10, &[2]), Err(MultisigError::MalformedCall));
    // The caller must sign.
    assert_eq!(
        close_proposal(&mut p, &m, &creator, false, 10, &[1]),
        Err(MultisigError::MissingSignature)
    );
    assert_eq!(p.status, ProposalStatus::Active);
    // Tally demands an active proposal.
    p.status = ProposalStatus::Cancelled;
    assert_eq!(
        close_proposal(&mut p, &m, &creator, true, 3601, &[0]),
        Err(MultisigError::InvalidState)
    );
}

#[test]
fn test_scenario_group_of_three() {
    // Group of 3, threshold 2, expiry 3600 s. A proposal opened at t=0
    // expires at 3600. Two yes ballots land; a tally at t=20 is too early
    // because the third member has not balloted; the third ballots no at
    // t=30; a tally at t=31 proceeds and succeeds with 2 >= 2.
    let creator = key(1);
    let mut m = make_group(creator, &[key(1), key(2), key(3)], 2, 3600);
    let mut p = open_proposal(&mut m, creator, 0);
    assert_eq!(p.expiration_time, 3600);
    cast(&mut p, key(1), 10, None, 1).unwrap();
    cast(&mut p, key(2), 20, None, 1).unwrap();
    assert_eq!(
        close_proposal(&mut p, &m, &creator, true, 20, &[0]),
        Err(MultisigError::TooEarly)
    );
    cast(&mut p, key(3), 30, None, 0).unwrap();
    close_proposal(&mut p, &m, &creator, true, 31, &[0]).unwrap();
    assert_eq!(p.status, ProposalStatus::Succeeded);
}

#[test]
fn test_scenario_expiry_fails_quietly() {
    // Same group, nobody ballots; a tally at t=3601 proceeds because the
    // deadline has passed, and 0 yes ballots < 2 fails the proposal.
    let creator = key(1);
    let mut m = make_group(creator, &[key(1), key(2), key(3)], 2, 3600);
    let mut p = open_proposal(&mut m, creator, 0);
    close_proposal(&mut p, &m, &creator, true, 3601, &[0]).unwrap();
    assert_eq!(p.status, ProposalStatus::Failed);
}

#[test]
fn test_receipt_counts_three_ballots() {
    // A member balloting on three proposals in turn ends with a lifetime
    // count of exactly three.
    let creator = key(1);
    let mut m = make_group(creator, &[key(1), key(2), key(3)], 2, 3600);
    let mut r: Option<VoteState> = None;
    for _ in 0..3 {
        let addr = key(210);
        let mut p = create_proposal(&mut m, &creator, &addr, &addr, false, 0).unwrap();
        r = Some(cast(&mut p, key(2), 10, r, 1).unwrap());
    }
    assert_eq!(r.unwrap().total_votes, 3);
    assert_eq!(m.total_proposals, 3);
}

#[test]
fn test_get_or_create_receipt() {
    let fresh = get_or_create_receipt(None, 7);
    assert!(fresh.is_authorized);
    assert_eq!(fresh.total_votes, 1);
    assert_eq!(fresh.config_bump, 7);
    let advanced = get_or_create_receipt(Some(fresh), 9);
    assert!(advanced.is_authorized);
    assert_eq!(advanced.total_votes, 2);
    // The record keeps its own derived-address byte.
    assert_eq!(advanced.config_bump, 7);
}

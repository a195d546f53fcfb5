//! The Voter Receipt Tracker: per-member lifetime participation counters,
//! created lazily on a member's first ballot.

use vstd::prelude::*;

use crate::state::VoteState;

verus! {

/// The participation record after one more successful ballot: a missing
/// record is born authorized with a count of one and the derived-address
/// byte of its new home; an existing record keeps its flag and address byte
/// and counts one more ballot.
pub open spec fn spec_next_receipt(existing: Option<VoteState>, bump: u8) -> VoteState {
    match existing {
        None => VoteState { is_authorized: true, total_votes: 1, config_bump: bump },
        Some(v) => VoteState {
            is_authorized: v.is_authorized,
            total_votes: (v.total_votes + 1) as u64,
            config_bump: v.config_bump,
        },
    }
}

/// Creates or advances a member's participation record; called exactly once
/// per successful ballot, so `total_votes` counts the proposals this address
/// has voted on over the group's lifetime.
pub fn get_or_create_receipt(existing: Option<VoteState>, bump: u8) -> (r: VoteState)
    requires
        existing matches Some(v) ==> v.total_votes < u64::MAX,
    ensures
        r == spec_next_receipt(existing, bump),
{
    match existing {
        None => VoteState { is_authorized: true, total_votes: 1, config_bump: bump },
        Some(v) => VoteState {
            is_authorized: v.is_authorized,
            total_votes: v.total_votes + 1,
            config_bump: v.config_bump,
        },
    }
}

} // verus!

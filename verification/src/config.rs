//! The Multisig Config Manager: creation of a group's configuration record
//! and parameter updates by its creator.
//!
//! Each operation is a pure function of the caller-supplied values, the
//! re-derived canonical addresses, the storage-ownership facts and the raw
//! payload bytes; the functional specification beside it pins the outcome,
//! error by error, in the order the checks are made.

use vstd::prelude::*;

use vstd::bytes::spec_u64_from_le_bytes;

use crate::codec::read_key;
use crate::codec::read_u64;
use crate::errors::MultisigError;
use crate::state::Multisig;
use crate::state::MultisigView;
use crate::state::Pubkey;
use crate::state::pubkey_eq;
use crate::state::zero_key;

verus! {

broadcast use vstd::array::group_array_axioms;

/// Outcome of group creation. Checks run in this order: both supplied
/// addresses must match their re-derived counterparts, the configuration
/// record must not already belong to this program, the payload must carry a
/// live count (at offset 1) of at most 10 followed by that many 32-byte
/// member addresses (from offset 2), and the treasury record must not already
/// belong to this program. The new record copies the supplied members into
/// the low key slots, zero-fills the rest, and starts every counter and
/// parameter at zero; `threshold` and `proposal_expiry` are set later by the
/// update operation.
pub open spec fn spec_create_multisig(
    creator: Seq<u8>,
    supplied_config: Seq<u8>,
    derived_config: Seq<u8>,
    config_bump: u8,
    config_owned: bool,
    supplied_treasury: Seq<u8>,
    derived_treasury: Seq<u8>,
    treasury_bump: u8,
    treasury_owned: bool,
    payload: Seq<u8>,
) -> Result<MultisigView, MultisigError> {
    if supplied_config != derived_config {
        Err(MultisigError::IdentityMismatch)
    } else if supplied_treasury != derived_treasury {
        Err(MultisigError::IdentityMismatch)
    } else if config_owned {
        Err(MultisigError::AlreadyInitialized)
    } else if payload.len() < 2 {
        Err(MultisigError::MalformedCall)
    } else if payload[1] > 10 {
        Err(MultisigError::InvalidValue)
    } else if payload.len() < 2 + 32 * (payload[1] as int) {
        Err(MultisigError::MalformedCall)
    } else if treasury_owned {
        Err(MultisigError::AlreadyInitialized)
    } else {
        Ok(
            MultisigView {
                creator: creator,
                member_count: payload[1],
                member_keys: Seq::new(
                    10,
                    |i: int|
                        if i < payload[1] as int {
                            payload.subrange(2 + 32 * i, 34 + 32 * i)
                        } else {
                            zero_key()
                        },
                ),
                threshold: 0,
                proposal_expiry: 0,
                total_proposals: 0,
                treasury_wallet: supplied_treasury,
                config_bump: config_bump,
                treasury_bump: treasury_bump,
            },
        )
    }
}

/// Creates a group's configuration record from the creation payload.
///
/// The caller re-derives the canonical config and treasury addresses from
/// the creator's address and hands both pairs in; the ownership flags say
/// whether each target record already belongs to this program.
pub fn create_multisig(
    creator: &Pubkey,
    supplied_config: &Pubkey,
    derived_config: &Pubkey,
    config_bump: u8,
    config_owned: bool,
    supplied_treasury: &Pubkey,
    derived_treasury: &Pubkey,
    treasury_bump: u8,
    treasury_owned: bool,
    payload: &[u8],
) -> (r: Result<Multisig, MultisigError>)
    ensures
        ({
            let outcome = spec_create_multisig(
                creator@,
                supplied_config@,
                derived_config@,
                config_bump,
                config_owned,
                supplied_treasury@,
                derived_treasury@,
                treasury_bump,
                treasury_owned,
                payload@,
            );
            match r {
                Ok(m) => outcome matches Ok(v) && m@ == v && m@.wf(),
                Err(e) => outcome == Err::<MultisigView, MultisigError>(e),
            }
        }),
{
    if !pubkey_eq(supplied_config, derived_config) {
        return Err(MultisigError::IdentityMismatch);
    }
    if !pubkey_eq(supplied_treasury, derived_treasury) {
        return Err(MultisigError::IdentityMismatch);
    }
    if config_owned {
        return Err(MultisigError::AlreadyInitialized);
    }
    if payload.len() < 2 {
        return Err(MultisigError::MalformedCall);
    }
    let member_count = payload[1];
    if member_count > 10 {
        return Err(MultisigError::InvalidValue);
    }
    if payload.len() < 2 + 32 * (member_count as usize) {
        return Err(MultisigError::MalformedCall);
    }
    if treasury_owned {
        return Err(MultisigError::AlreadyInitialized);
    }
    let mut member_keys: [Pubkey; 10] = [[0u8; 32]; 10];
    proof {
        assert forall|j: int| 0 <= j < 10 implies #[trigger] member_keys@[j]@ == zero_key() by {
            assert(member_keys@[j]@ =~= zero_key());
        }
    }
    let mut i: usize = 0;
    while i < member_count as usize
        invariant
            i <= member_count as usize,
            member_count <= 10,
            payload@.len() >= 2 + 32 * (member_count as int),
            forall|j: int|
                0 <= j < i ==> #[trigger] member_keys@[j]@ == payload@.subrange(
                    2 + 32 * j,
                    34 + 32 * j,
                ),
            forall|j: int| i <= j < 10 ==> #[trigger] member_keys@[j]@ == zero_key(),
        decreases member_count as usize - i,
    {
        member_keys[i] = read_key(payload, 2 + 32 * i);
        i = i + 1;
    }
    let m = Multisig {
        creator: *creator,
        member_count,
        member_keys,
        threshold: 0,
        proposal_expiry: 0,
        total_proposals: 0,
        treasury_wallet: *supplied_treasury,
        config_bump,
        treasury_bump,
    };
    proof {
        let outcome = spec_create_multisig(
            creator@,
            supplied_config@,
            derived_config@,
            config_bump,
            config_owned,
            supplied_treasury@,
            derived_treasury@,
            treasury_bump,
            treasury_owned,
            payload@,
        );
        assert(m@ =~~= outcome->Ok_0);
    }
    Ok(m)
}

/// Outcome of a parameter update. Checks run in this order: the caller must
/// be a transaction signer, must equal the record's creator, the payload
/// must carry two little-endian integers (new threshold, then new expiry),
/// and the new threshold must lie between 1 and the live member count.
pub open spec fn spec_update_multisig(
    m: MultisigView,
    signer: Seq<u8>,
    is_signer: bool,
    payload: Seq<u8>,
) -> Result<MultisigView, MultisigError> {
    if !is_signer {
        Err(MultisigError::MissingSignature)
    } else if signer != m.creator {
        Err(MultisigError::Unauthorized)
    } else if payload.len() < 16 {
        Err(MultisigError::MalformedCall)
    } else {
        let new_threshold = spec_u64_from_le_bytes(payload.subrange(0, 8));
        let new_expiry = spec_u64_from_le_bytes(payload.subrange(8, 16));
        if new_threshold == 0 || new_threshold > m.member_count as u64 {
            Err(MultisigError::InvalidValue)
        } else {
            Ok(MultisigView { threshold: new_threshold, proposal_expiry: new_expiry, ..m })
        }
    }
}

/// Overwrites the group's threshold and proposal expiry in place; only the
/// creator, signing the call, may do so, and only with a threshold between 1
/// and the live member count. On any error the record is unchanged.
pub fn update_multisig(
    multisig: &mut Multisig,
    signer: &Pubkey,
    is_signer: bool,
    payload: &[u8],
) -> (r: Result<(), MultisigError>)
    requires
        old(multisig)@.wf(),
    ensures
        ({
            let outcome = spec_update_multisig(old(multisig)@, signer@, is_signer, payload@);
            match r {
                Ok(_) => outcome matches Ok(v) && final(multisig)@ == v && final(multisig)@.wf(),
                Err(e) => outcome == Err::<MultisigView, MultisigError>(e) && *final(multisig)
                    == *old(multisig),
            }
        }),
{
    if !is_signer {
        return Err(MultisigError::MissingSignature);
    }
    if !pubkey_eq(signer, &multisig.creator) {
        return Err(MultisigError::Unauthorized);
    }
    if payload.len() < 16 {
        return Err(MultisigError::MalformedCall);
    }
    let new_threshold = read_u64(payload, 0);
    let new_expiry = read_u64(payload, 8);
    if new_threshold == 0 || new_threshold > multisig.member_count as u64 {
        return Err(MultisigError::InvalidValue);
    }
    multisig.threshold = new_threshold;
    multisig.proposal_expiry = new_expiry;
    proof {
        let outcome = spec_update_multisig(old(multisig)@, signer@, is_signer, payload@);
        assert(multisig@ =~~= outcome->Ok_0);
    }
    Ok(())
}

} // verus!

//! Fixed-width binary layout of the three record kinds.
//!
//! Every field sits at a fixed offset, integers are little-endian, and there
//! is no padding between fields; a record is validated for minimum length
//! before any field is read.

use vstd::prelude::*;

use vstd::bytes::lemma_auto_spec_u64_to_from_le_bytes;
use vstd::bytes::spec_u64_from_le_bytes;
use vstd::bytes::spec_u64_to_le_bytes;
use vstd::bytes::u64_from_le_bytes;
use vstd::bytes::u64_to_le_bytes;
use vstd::slice::slice_subrange;

use crate::errors::MultisigError;
use crate::state::Multisig;
use crate::state::MultisigView;
use crate::state::Proposal;
use crate::state::ProposalView;
use crate::state::Pubkey;
use crate::state::VoteState;
use crate::state::spec_status_byte;
use crate::state::spec_status_of_byte;
use crate::state::ProposalStatus;

verus! {

broadcast use vstd::array::group_array_axioms;

/// Stored size of a configuration record.
pub const MULTISIG_LEN: usize = 411;

/// Stored size of a proposal record.
pub const PROPOSAL_LEN: usize = 717;

/// Stored size of a participation record.
pub const VOTE_STATE_LEN: usize = 10;

/// The 32 bytes at `off`.
pub open spec fn take_key(s: Seq<u8>, off: int) -> Seq<u8> {
    s.subrange(off, off + 32)
}

/// The little-endian integer in the 8 bytes at `off`.
pub open spec fn take_u64(s: Seq<u8>, off: int) -> u64 {
    spec_u64_from_le_bytes(s.subrange(off, off + 8))
}

/// Copies the 32 bytes at `off` out of `s`.
pub(crate) fn read_key(s: &[u8], off: usize) -> (k: Pubkey)
    requires
        off + 32 <= s@.len(),
    ensures
        k@ == take_key(s@, off as int),
{
    let n = s.len();
    let mut k: Pubkey = [0u8; 32];
    let mut i: usize = 0;
    while i < 32
        invariant
            i <= 32,
            off + 32 <= n == s@.len(),
            forall|j: int| 0 <= j < i ==> k@[j] == s@[off + j],
        decreases 32 - i,
    {
        k[i] = s[off + i];
        i = i + 1;
    }
    proof {
        assert(k@ =~= take_key(s@, off as int));
    }
    k
}

/// Reads the little-endian integer in the 8 bytes at `off`.
pub(crate) fn read_u64(s: &[u8], off: usize) -> (x: u64)
    requires
        off + 8 <= s@.len(),
    ensures
        x == take_u64(s@, off as int),
{
    let n = s.len();
    proof {
        assert(off + 8 <= n);
    }
    let part = slice_subrange(s, off, off + 8);
    u64_from_le_bytes(part)
}

/// Writes the 32 bytes of `k` at `off`, leaving every other byte alone.
fn write_key<const N: usize>(buf: &mut [u8; N], off: usize, k: &Pubkey)
    requires
        off + 32 <= N,
    ensures
        forall|j: int| 0 <= j < 32 ==> final(buf)@[off + j] == k@[j],
        forall|j: int| 0 <= j < N && !(off <= j < off + 32) ==> final(buf)@[j] == old(buf)@[j],
{
    let mut i: usize = 0;
    while i < 32
        invariant
            i <= 32,
            off + 32 <= N,
            forall|j: int| 0 <= j < i ==> buf@[off + j] == k@[j],
            forall|j: int| 0 <= j < N && !(off <= j < off + i) ==> buf@[j] == old(buf)@[j],
        decreases 32 - i,
    {
        buf[off + i] = k[i];
        i = i + 1;
    }
}

/// Writes `x` in little-endian order at `off`, leaving every other byte alone.
fn write_u64<const N: usize>(buf: &mut [u8; N], off: usize, x: u64)
    requires
        off + 8 <= N,
    ensures
        final(buf)@.subrange(off as int, off + 8) == spec_u64_to_le_bytes(x),
        forall|j: int| 0 <= j < N && !(off <= j < off + 8) ==> final(buf)@[j] == old(buf)@[j],
{
    let bytes = u64_to_le_bytes(x);
    let mut i: usize = 0;
    while i < 8
        invariant
            i <= 8,
            off + 8 <= N,
            bytes@.len() == 8,
            bytes@ == spec_u64_to_le_bytes(x),
            forall|j: int| 0 <= j < i ==> buf@[off + j] == bytes@[j],
            forall|j: int| 0 <= j < N && !(off <= j < off + i) ==> buf@[j] == old(buf)@[j],
        decreases 8 - i,
    {
        buf[off + i] = bytes[i];
        i = i + 1;
    }
    proof {
        assert(buf@.subrange(off as int, off + 8) =~= spec_u64_to_le_bytes(x));
    }
}

/// The configuration record a stored byte string holds.
pub open spec fn spec_decode_multisig(s: Seq<u8>) -> MultisigView
    recommends
        s.len() >= 411,
{
    MultisigView {
        creator: take_key(s, 0),
        member_count: s[32],
        member_keys: Seq::new(10, |i: int| take_key(s, 33 + 32 * i)),
        threshold: take_u64(s, 353),
        proposal_expiry: take_u64(s, 361),
        total_proposals: take_u64(s, 369),
        treasury_wallet: take_key(s, 377),
        config_bump: s[409],
        treasury_bump: s[410],
    }
}

/// Validates the length and live count of a stored configuration record and
/// reads its fields; a record this program wrote always passes both checks.
pub fn decode_multisig(s: &[u8]) -> (r: Result<Multisig, MultisigError>)
    ensures
        s@.len() < 411 ==> r == Err::<Multisig, MultisigError>(MultisigError::MalformedCall),
        s@.len() >= 411 && spec_decode_multisig(s@).member_count > 10 ==> r == Err::<
            Multisig,
            MultisigError,
        >(MultisigError::InvalidValue),
        s@.len() >= 411 && spec_decode_multisig(s@).member_count <= 10 ==> (r matches Ok(m)
            && m@ == spec_decode_multisig(s@) && m@.wf()),
{
    if s.len() < MULTISIG_LEN {
        return Err(MultisigError::MalformedCall);
    }
    let member_count = s[32];
    if member_count > 10 {
        return Err(MultisigError::InvalidValue);
    }
    let mut member_keys: [Pubkey; 10] = [[0u8; 32]; 10];
    let mut i: usize = 0;
    while i < 10
        invariant
            i <= 10,
            s@.len() >= 411,
            forall|j: int| 0 <= j < i ==> member_keys@[j]@ == take_key(s@, 33 + 32 * j),
        decreases 10 - i,
    {
        member_keys[i] = read_key(s, 33 + 32 * i);
        i = i + 1;
    }
    let m = Multisig {
        creator: read_key(s, 0),
        member_count,
        member_keys,
        threshold: read_u64(s, 353),
        proposal_expiry: read_u64(s, 361),
        total_proposals: read_u64(s, 369),
        treasury_wallet: read_key(s, 377),
        config_bump: s[409],
        treasury_bump: s[410],
    };
    proof {
        assert(m@ =~~= spec_decode_multisig(s@));
    }
    Ok(m)
}

/// Lays a configuration record out as its stored byte string.
pub fn encode_multisig(m: &Multisig) -> (r: Vec<u8>)
    ensures
        r@.len() == 411,
        spec_decode_multisig(r@) == m@,
{
    let mut buf: [u8; 411] = [0u8; 411];
    write_key(&mut buf, 0, &m.creator);
    buf[32] = m.member_count;
    let mut i: usize = 0;
    while i < 10
        invariant
            i <= 10,
            forall|j: int| 0 <= j < 32 ==> buf@[j] == m.creator@[j],
            buf@[32] == m.member_count,
            forall|jj: int, j: int|
                0 <= jj < i && 0 <= j < 32 ==> buf@[33 + 32 * jj + j] == m@.member_keys[jj][j],
        decreases 10 - i,
    {
        write_key(&mut buf, 33 + 32 * i, &m.member_keys[i]);
        i = i + 1;
    }
    write_u64(&mut buf, 353, m.threshold);
    write_u64(&mut buf, 361, m.proposal_expiry);
    write_u64(&mut buf, 369, m.total_proposals);
    write_key(&mut buf, 377, &m.treasury_wallet);
    buf[409] = m.config_bump;
    buf[410] = m.treasury_bump;
    let r = vstd::slice::slice_to_vec(buf.as_slice());
    proof {
        lemma_auto_spec_u64_to_from_le_bytes();
        assert(take_key(r@, 0) =~= m@.creator);
        assert forall|jj: int| 0 <= jj < 10 implies take_key(r@, 33 + 32 * jj)
            == m@.member_keys[jj] by {
            assert(take_key(r@, 33 + 32 * jj) =~= m@.member_keys[jj]);
        }
        assert(r@.subrange(353, 361) =~= spec_u64_to_le_bytes(m.threshold));
        assert(r@.subrange(361, 369) =~= spec_u64_to_le_bytes(m.proposal_expiry));
        assert(r@.subrange(369, 377) =~= spec_u64_to_le_bytes(m.total_proposals));
        assert(take_key(r@, 377) =~= m@.treasury_wallet);
        assert(spec_decode_multisig(r@) =~~= m@);
    }
    r
}

/// The proposal record a stored byte string holds.
pub open spec fn spec_decode_proposal(s: Seq<u8>) -> ProposalView
    recommends
        s.len() >= 717,
        s[48] <= 4,
{
    ProposalView {
        creator: take_key(s, 0),
        id: take_u64(s, 32),
        expiration_time: take_u64(s, 40),
        status: spec_status_of_byte(s[48]),
        voter_keys: Seq::new(20, |i: int| take_key(s, 49 + 32 * i)),
        votes: s.subrange(689, 709),
        created_at: take_u64(s, 709),
    }
}

/// Validates the length and status byte of a stored proposal record and reads
/// its fields; a record this program wrote always passes both checks.
pub fn decode_proposal(s: &[u8]) -> (r: Result<Proposal, MultisigError>)
    ensures
        s@.len() < 717 ==> r == Err::<Proposal, MultisigError>(MultisigError::MalformedCall),
        s@.len() >= 717 && s@[48] > 4 ==> r == Err::<Proposal, MultisigError>(
            MultisigError::MalformedCall,
        ),
        s@.len() >= 717 && s@[48] <= 4 ==> (r matches Ok(p) && p@ == spec_decode_proposal(s@)
            && p@.wf()),
{
    if s.len() < PROPOSAL_LEN {
        return Err(MultisigError::MalformedCall);
    }
    let status = match ProposalStatus::try_from(&s[48]) {
        Ok(st) => st,
        Err(e) => {
            return Err(e);
        },
    };
    let mut voter_keys: [Pubkey; 20] = [[0u8; 32]; 20];
    let mut i: usize = 0;
    while i < 20
        invariant
            i <= 20,
            s@.len() >= 717,
            forall|j: int| 0 <= j < i ==> voter_keys@[j]@ == take_key(s@, 49 + 32 * j),
        decreases 20 - i,
    {
        voter_keys[i] = read_key(s, 49 + 32 * i);
        i = i + 1;
    }
    let mut votes: [u8; 20] = [0u8; 20];
    let mut i: usize = 0;
    while i < 20
        invariant
            i <= 20,
            s@.len() >= 717,
            forall|j: int| 0 <= j < i ==> votes@[j] == s@[689 + j],
        decreases 20 - i,
    {
        votes[i] = s[689 + i];
        i = i + 1;
    }
    let p = Proposal {
        creator: read_key(s, 0),
        id: read_u64(s, 32),
        expiration_time: read_u64(s, 40),
        status,
        voter_keys,
        votes,
        created_at: read_u64(s, 709),
    };
    proof {
        assert(p@.votes =~= spec_decode_proposal(s@).votes);
        assert(p@ =~~= spec_decode_proposal(s@));
    }
    Ok(p)
}

/// Lays a proposal record out as its stored byte string.
pub fn encode_proposal(p: &Proposal) -> (r: Vec<u8>)
    ensures
        r@.len() == 717,
        spec_decode_proposal(r@) == p@,
{
    let mut buf: [u8; 717] = [0u8; 717];
    write_key(&mut buf, 0, &p.creator);
    write_u64(&mut buf, 32, p.id);
    write_u64(&mut buf, 40, p.expiration_time);
    buf[48] = p.status.as_byte();
    let mut i: usize = 0;
    while i < 20
        invariant
            i <= 20,
            forall|j: int| 0 <= j < 32 ==> buf@[j] == p.creator@[j],
            buf@.subrange(32, 40) == spec_u64_to_le_bytes(p.id),
            buf@.subrange(40, 48) == spec_u64_to_le_bytes(p.expiration_time),
            buf@[48] == spec_status_byte(p.status),
            forall|jj: int, j: int|
                0 <= jj < i && 0 <= j < 32 ==> buf@[49 + 32 * jj + j] == p@.voter_keys[jj][j],
        decreases 20 - i,
    {
        write_key(&mut buf, 49 + 32 * i, &p.voter_keys[i]);
        i = i + 1;
        proof {
            assert(buf@.subrange(32, 40) =~= spec_u64_to_le_bytes(p.id));
            assert(buf@.subrange(40, 48) =~= spec_u64_to_le_bytes(p.expiration_time));
        }
    }
    let mut i: usize = 0;
    while i < 20
        invariant
            i <= 20,
            forall|j: int| 0 <= j < 32 ==> buf@[j] == p.creator@[j],
            buf@.subrange(32, 40) == spec_u64_to_le_bytes(p.id),
            buf@.subrange(40, 48) == spec_u64_to_le_bytes(p.expiration_time),
            buf@[48] == spec_status_byte(p.status),
            forall|jj: int, j: int|
                0 <= jj < 20 && 0 <= j < 32 ==> buf@[49 + 32 * jj + j] == p@.voter_keys[jj][j],
            forall|j: int| 0 <= j < i ==> buf@[689 + j] == p.votes@[j],
        decreases 20 - i,
    {
        buf[689 + i] = p.votes[i];
        i = i + 1;
        proof {
            assert(buf@.subrange(32, 40) =~= spec_u64_to_le_bytes(p.id));
            assert(buf@.subrange(40, 48) =~= spec_u64_to_le_bytes(p.expiration_time));
        }
    }
    write_u64(&mut buf, 709, p.created_at);
    let r = vstd::slice::slice_to_vec(buf.as_slice());
    proof {
        lemma_auto_spec_u64_to_from_le_bytes();
        assert(take_key(r@, 0) =~= p@.creator);
        assert(r@.subrange(32, 40) =~= spec_u64_to_le_bytes(p.id));
        assert(r@.subrange(40, 48) =~= spec_u64_to_le_bytes(p.expiration_time));
        assert forall|jj: int| 0 <= jj < 20 implies take_key(r@, 49 + 32 * jj)
            == p@.voter_keys[jj] by {
            assert(take_key(r@, 49 + 32 * jj) =~= p@.voter_keys[jj]);
        }
        assert(r@.subrange(689, 709) =~= p@.votes);
        assert(r@.subrange(709, 717) =~= spec_u64_to_le_bytes(p.created_at));
        assert(spec_decode_proposal(r@) =~~= p@);
    }
    r
}

/// The participation record a stored byte string holds.
pub open spec fn spec_decode_vote_state(s: Seq<u8>) -> VoteState
    recommends
        s.len() >= 10,
        s[0] <= 1,
{
    VoteState { is_authorized: s[0] == 1, total_votes: take_u64(s, 1), config_bump: s[9] }
}

/// Validates the length and flag byte of a stored participation record and
/// reads its fields; a record this program wrote always passes both checks.
pub fn decode_vote_state(s: &[u8]) -> (r: Result<VoteState, MultisigError>)
    ensures
        s@.len() < 10 ==> r == Err::<VoteState, MultisigError>(MultisigError::MalformedCall),
        s@.len() >= 10 && s@[0] > 1 ==> r == Err::<VoteState, MultisigError>(
            MultisigError::MalformedCall,
        ),
        s@.len() >= 10 && s@[0] <= 1 ==> r == Ok::<VoteState, MultisigError>(
            spec_decode_vote_state(s@),
        ),
{
    if s.len() < VOTE_STATE_LEN {
        return Err(MultisigError::MalformedCall);
    }
    let flag = s[0];
    if flag > 1 {
        return Err(MultisigError::MalformedCall);
    }
    Ok(VoteState { is_authorized: flag == 1, total_votes: read_u64(s, 1), config_bump: s[9] })
}

/// Lays a participation record out as its stored byte string.
pub fn encode_vote_state(v: &VoteState) -> (r: Vec<u8>)
    ensures
        r@.len() == 10,
        spec_decode_vote_state(r@) == *v,
{
    let mut buf: [u8; 10] = [0u8; 10];
    buf[0] = if v.is_authorized {
        1
    } else {
        0
    };
    write_u64(&mut buf, 1, v.total_votes);
    buf[9] = v.config_bump;
    let r = vstd::slice::slice_to_vec(buf.as_slice());
    proof {
        lemma_auto_spec_u64_to_from_le_bytes();
        assert(r@.subrange(1, 9) =~= spec_u64_to_le_bytes(v.total_votes));
    }
    r
}

} // verus!

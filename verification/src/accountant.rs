//! Vote accounting on the records themselves: what locking and releasing
//! stake does to the proposal, once the custody service has answered.

use vstd::prelude::*;
use crate::address::Address;
use crate::ballot::Ballot;
use crate::custody::TransferOutcome;
use crate::error::ErrorCode;
use crate::proposal::{Proposal, ProposalType};

verus! {

/// Why a new proposal backed by `amount` cannot be taken up, before any
/// token moves: the amount is below the minimum, or the generation counter
/// is exhausted.
pub open spec fn proposal_admission(proposal: Proposal, amount: u64) -> Option<ErrorCode> {
    if amount < proposal.proposal_minimum {
        Some(ErrorCode::InsufficientAmount)
    } else if proposal.proposal_id == u64::MAX {
        Some(ErrorCode::Overflow)
    } else {
        None
    }
}

/// Why a ballot of `amount` for generation `proposal_id` cannot be taken,
/// before any token moves: the proposal is closed, the ballot names another
/// generation, or the running total would not fit.
pub open spec fn vote_admission(
    proposal: Proposal,
    proposal_id: u64,
    amount: u64,
) -> Option<ErrorCode> {
    if !proposal.is_active {
        Some(ErrorCode::ProposalNotActive)
    } else if proposal_id != proposal.proposal_id {
        Some(ErrorCode::InvalidProposalId)
    } else if proposal.num_votes + amount > u64::MAX {
        Some(ErrorCode::Overflow)
    } else {
        None
    }
}

/// Why a deposit of `amount` cannot be counted, before any token moves:
/// the running total would not fit.
pub open spec fn deposit_admission(proposal: Proposal, amount: u64) -> Option<ErrorCode> {
    if proposal.num_votes + amount > u64::MAX {
        Some(ErrorCode::Overflow)
    } else {
        None
    }
}

/// Whether `caller` may take `ballot` back, before any token moves, and
/// with which bump seed the vault's authority signs the refund. `authority`
/// is what the check of the vault's authority came to.
pub open spec fn withdrawal_admission(
    proposal: Proposal,
    ballot: Ballot,
    caller: Address,
    authority: Result<u8, ErrorCode>,
) -> Result<u8, ErrorCode> {
    if caller != ballot.voter_address {
        Err(ErrorCode::Unauthorized)
    } else if proposal.overdrawn_by(ballot.proposal_id, ballot.num_votes) {
        Err(ErrorCode::Underflow)
    } else {
        authority
    }
}

/// The first refusal of the two, if any: what stood in the way before the
/// transfer, else what the custody service answered.
pub open spec fn or_custody(
    admission: Option<ErrorCode>,
    custody: TransferOutcome,
) -> Option<ErrorCode> {
    match admission {
        Some(e) => Some(e),
        None => custody.spec_refusal(),
    }
}

/// The ballot of `voter` for `amount` behind generation `proposal_id`.
pub open spec fn ballot_for(voter: Address, proposal_id: u64, amount: u64) -> Ballot {
    Ballot { proposal_id, num_votes: amount, voter_address: voter }
}

/// Checks whether a new proposal backed by `amount` can be taken up.
pub fn admit_proposal(proposal: &Proposal, amount: u64) -> (r: Result<(), ErrorCode>)
    ensures
        match r {
            Ok(_) => proposal_admission(*proposal, amount) is None,
            Err(e) => proposal_admission(*proposal, amount) == Some(e),
        },
{
    if amount < proposal.proposal_minimum {
        Err(ErrorCode::InsufficientAmount)
    } else if proposal.proposal_id == u64::MAX {
        Err(ErrorCode::Overflow)
    } else {
        Ok(())
    }
}

/// Checks whether a ballot of `amount` for generation `proposal_id` can
/// be taken.
pub fn admit_vote(
    proposal: &Proposal,
    proposal_id: u64,
    amount: u64,
) -> (r: Result<(), ErrorCode>)
    ensures
        match r {
            Ok(_) => vote_admission(*proposal, proposal_id, amount) is None,
            Err(e) => vote_admission(*proposal, proposal_id, amount) == Some(e),
        },
{
    if !proposal.is_active {
        Err(ErrorCode::ProposalNotActive)
    } else if proposal_id != proposal.proposal_id {
        Err(ErrorCode::InvalidProposalId)
    } else if amount > u64::MAX - proposal.num_votes {
        Err(ErrorCode::Overflow)
    } else {
        Ok(())
    }
}

/// Checks whether `caller` may take `ballot` back, and returns the bump
/// seed that signs the refund.
pub fn admit_withdrawal(
    proposal: &Proposal,
    ballot: &Ballot,
    caller: &Address,
    authority: Result<u8, ErrorCode>,
) -> (r: Result<u8, ErrorCode>)
    ensures
        r == withdrawal_admission(*proposal, *ballot, *caller, authority),
{
    if *caller != ballot.voter_address {
        Err(ErrorCode::Unauthorized)
    } else if ballot.proposal_id == proposal.proposal_id && ballot.num_votes
        > proposal.num_votes {
        Err(ErrorCode::Underflow)
    } else {
        authority
    }
}

/// Takes up a new proposal that `voter` backs with `amount`: the slot
/// moves to the next generation with `amount` as its whole backing, and the
/// proposer's ballot comes back, counted toward that generation. `custody`
/// is the answer to the transfer of `amount` into the vault; it is not
/// looked at when the proposal is refused before. On any refusal the slot
/// stays as it was.
pub fn open_proposal(
    proposal: &mut Proposal,
    voter: Address,
    proposal_type: ProposalType,
    target_buffer: Address,
    source_buffer: Address,
    new_authority: Address,
    amount: u64,
    custody: TransferOutcome,
) -> (r: Result<Ballot, ErrorCode>)
    ensures
        match r {
            Ok(ballot) => or_custody(proposal_admission(*old(proposal), amount), custody) is None
                && *final(proposal) == old(proposal).armed(
                proposal_type,
                target_buffer,
                source_buffer,
                new_authority,
                amount,
            ) && ballot == ballot_for(voter, final(proposal).proposal_id, amount),
            Err(e) => or_custody(proposal_admission(*old(proposal), amount), custody) == Some(e)
                && *final(proposal) == *old(proposal),
        },
{
    admit_proposal(proposal, amount)?;
    if let Some(e) = custody.refusal() {
        return Err(e);
    }
    match proposal.arm(proposal_type, target_buffer, source_buffer, new_authority, amount) {
        Err(e) => Err(e),
        Ok(_) => Ok(
            Ballot { proposal_id: proposal.proposal_id, num_votes: amount, voter_address: voter },
        ),
    }
}

/// Locks `amount` of `voter`'s stake behind the slot's generation: the
/// running total grows by `amount`, and the voter's ballot for that
/// generation comes back. `custody` is the answer to the transfer of
/// `amount` into the vault; it is not looked at when the total would not
/// fit. On any refusal the slot stays as it was.
pub fn deposit_and_count(
    proposal: &mut Proposal,
    voter: Address,
    amount: u64,
    custody: TransferOutcome,
) -> (r: Result<Ballot, ErrorCode>)
    ensures
        match r {
            Ok(ballot) => or_custody(deposit_admission(*old(proposal), amount), custody) is None
                && *final(proposal) == old(proposal).with_votes(
                (old(proposal).num_votes + amount) as u64,
            ) && ballot == ballot_for(voter, old(proposal).proposal_id, amount),
            Err(e) => or_custody(deposit_admission(*old(proposal), amount), custody) == Some(e)
                && *final(proposal) == *old(proposal),
        },
{
    if amount > u64::MAX - proposal.num_votes {
        return Err(ErrorCode::Overflow);
    }
    if let Some(e) = custody.refusal() {
        return Err(e);
    }
    match proposal.credit(amount) {
        Err(e) => Err(e),
        Ok(_) => Ok(
            Ballot { proposal_id: proposal.proposal_id, num_votes: amount, voter_address: voter },
        ),
    }
}

/// Counts a ballot of `voter` for `amount` toward generation
/// `proposal_id`, which must be the slot's own and open: the running total
/// grows by `amount`, and the ballot comes back. `custody` is the answer to
/// the transfer of `amount` into the vault; it is not looked at when the
/// ballot is refused before. On any refusal the slot stays as it was.
pub fn count_vote(
    proposal: &mut Proposal,
    voter: Address,
    proposal_id: u64,
    amount: u64,
    custody: TransferOutcome,
) -> (r: Result<Ballot, ErrorCode>)
    ensures
        match r {
            Ok(ballot) => or_custody(vote_admission(*old(proposal), proposal_id, amount), custody)
                is None && *final(proposal) == old(proposal).with_votes(
                (old(proposal).num_votes + amount) as u64,
            ) && ballot == ballot_for(voter, proposal_id, amount),
            Err(e) => or_custody(vote_admission(*old(proposal), proposal_id, amount), custody)
                == Some(e) && *final(proposal) == *old(proposal),
        },
{
    admit_vote(proposal, proposal_id, amount)?;
    deposit_and_count(proposal, voter, amount, custody)
}

/// Releases `ballot` to `caller`: the whole weight is refunded, and it
/// leaves the running total only if the ballot belongs to the current
/// generation. `authority` is what the check of the vault's authority came
/// to, `custody` the answer to the refund out of the vault; neither is
/// looked at when the withdrawal is refused before. Returns the amount
/// refunded. On any refusal the slot stays as it was.
pub fn withdraw_and_uncount(
    proposal: &mut Proposal,
    ballot: &Ballot,
    caller: &Address,
    authority: Result<u8, ErrorCode>,
    custody: TransferOutcome,
) -> (r: Result<u64, ErrorCode>)
    ensures
        match r {
            Ok(refund) => withdrawal_admission(*old(proposal), *ballot, *caller, authority) is Ok
                && custody == TransferOutcome::Completed && refund == ballot.num_votes
                && *final(proposal) == old(proposal).uncounted(
                ballot.proposal_id,
                ballot.num_votes,
            ),
            Err(e) => *final(proposal) == *old(proposal) && match withdrawal_admission(
                *old(proposal),
                *ballot,
                *caller,
                authority,
            ) {
                Err(refusal) => e == refusal,
                Ok(_) => custody.spec_refusal() == Some(e),
            },
        },
{
    admit_withdrawal(proposal, ballot, caller, authority)?;
    if let Some(e) = custody.refusal() {
        return Err(e);
    }
    match proposal.debit(ballot.proposal_id, ballot.num_votes) {
        Err(e) => Err(e),
        Ok(_) => Ok(ballot.num_votes),
    }
}

} // verus!

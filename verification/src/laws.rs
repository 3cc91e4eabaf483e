//! What holds of the governance system whatever its callers do.

use vstd::prelude::*;
use crate::accountant::{ballot_for, or_custody};
use crate::address::Address;
use crate::ballot::Ballot;
use crate::custody::TransferOutcome;
use crate::error::ErrorCode;
use crate::gate::{admission, execution_result, verdict, ActionOutcome, RequestedAction};
use crate::governance::GovernanceState;
use crate::instructions::Propose;
use crate::ledger::{backing, lemma_locked_bounds_slot, locked, lookup};
use crate::proposal::{Proposal, ProposalType};

verus! {

/// One call of the controller, with the answer of the outside service
/// where the call needs one.
pub enum Operation {
    Initialize { governance_token_mint: Address, approval_threshold: u64, proposal_minimum: u64 },
    Propose {
        caller: Address,
        proposal_type: ProposalType,
        target_buffer: Address,
        source_buffer: Address,
        new_authority: Address,
        amount: u64,
        custody: TransferOutcome,
    },
    CastBallot { caller: Address, proposal_id: u64, amount: u64, custody: TransferOutcome },
    CloseBallot { caller: Address, index: int, custody: TransferOutcome },
    Execute { action: RequestedAction, outcome: ActionOutcome },
}

/// A system before `initialize`, acting under `authority`.
pub open spec fn initial(authority: (Address, u8)) -> GovernanceState {
    GovernanceState { store: None, ballots: Seq::empty(), vault: 0, authority }
}

/// The state that one call leaves behind.
pub open spec fn step(state: GovernanceState, operation: Operation) -> GovernanceState {
    match operation {
        Operation::Initialize { governance_token_mint, approval_threshold, proposal_minimum } => {
            state.after_initialize(governance_token_mint, approval_threshold, proposal_minimum)
        },
        Operation::Propose {
            caller,
            proposal_type,
            target_buffer,
            source_buffer,
            new_authority,
            amount,
            custody,
        } => state.after_propose(
            caller,
            proposal_type,
            target_buffer,
            source_buffer,
            new_authority,
            amount,
            custody,
        ),
        Operation::CastBallot { caller, proposal_id, amount, custody } => state.after_cast(
            caller,
            proposal_id,
            amount,
            custody,
        ),
        Operation::CloseBallot { caller, index, custody } => state.after_close(
            caller,
            index,
            custody,
        ),
        Operation::Execute { action, outcome } => state.after_execute(action, outcome),
    }
}

/// The state that a sequence of calls leaves behind, the first call first.
pub open spec fn run(state: GovernanceState, operations: Seq<Operation>) -> GovernanceState
    decreases operations.len(),
{
    if operations.len() == 0 {
        state
    } else {
        step(run(state, operations.drop_last()), operations.last())
    }
}

/// Every call, accepted or refused, leaves a well-formed state well formed.
pub proof fn law_step_preserves_wf(state: GovernanceState, operation: Operation)
    requires
        state.wf(),
    ensures
        step(state, operation).wf(),
{
    match operation {
        Operation::Initialize { governance_token_mint, approval_threshold, proposal_minimum } => {
            state.lemma_initialize_preserves_wf(
                governance_token_mint,
                approval_threshold,
                proposal_minimum,
            );
        },
        Operation::Propose {
            caller,
            proposal_type,
            target_buffer,
            source_buffer,
            new_authority,
            amount,
            custody,
        } => {
            state.lemma_propose_preserves_wf(
                caller,
                proposal_type,
                target_buffer,
                source_buffer,
                new_authority,
                amount,
                custody,
            );
        },
        Operation::CastBallot { caller, proposal_id, amount, custody } => {
            state.lemma_cast_preserves_wf(caller, proposal_id, amount, custody);
        },
        Operation::CloseBallot { caller, index, custody } => {
            state.lemma_close_preserves_wf(caller, index, custody);
        },
        Operation::Execute { action, outcome } => {
            state.lemma_execute_preserves_wf(action, outcome);
        },
    }
}

/// Conservation. After any sequence of calls on a new system, in any
/// order, with any arguments and any answers of the custody service, the
/// vault holds exactly the sum of the weights of the open ballots, and the
/// slot's running total is exactly the sum of the weights of the open ballots
/// of its generation.
pub proof fn law_conservation(authority: (Address, u8), operations: Seq<Operation>)
    ensures
        run(initial(authority), operations).wf(),
        run(initial(authority), operations).vault == locked(
            run(initial(authority), operations).ballots,
        ),
        run(initial(authority), operations).store matches Some(proposal) ==> proposal.num_votes
            == backing(run(initial(authority), operations).ballots, proposal.proposal_id),
    decreases operations.len(),
{
    if operations.len() > 0 {
        law_conservation(authority, operations.drop_last());
        law_step_preserves_wf(
            run(initial(authority), operations.drop_last()),
            operations.last(),
        );
    }
}

/// The slot, once created, stays: no call removes it, changes its
/// configuration or takes its generation back.
pub proof fn law_slot_is_kept(state: GovernanceState, operation: Operation)
    requires
        state.store is Some,
    ensures
        step(state, operation).store is Some,
        step(state, operation).store->0.same_config(state.store->0),
        step(state, operation).store->0.proposal_id >= state.store->0.proposal_id,
        step(state, operation).authority == state.authority,
{
}

/// No stale power, on the records. Taking back a ballot of another
/// generation than the slot's leaves the slot exactly as it was.
pub proof fn law_stale_ballot_leaves_slot(proposal: Proposal, ballot: Ballot)
    requires
        ballot.proposal_id != proposal.proposal_id,
    ensures
        proposal.uncounted(ballot.proposal_id, ballot.num_votes) == proposal,
{
}

/// No stale power. When the owner of an open ballot of another
/// generation than the slot's takes it back and the custody service pays
/// out, the whole weight is refunded, the vault shrinks by exactly that
/// weight, the ballot is gone, and the slot, its running total included,
/// stays what it was.
pub proof fn law_stale_ballot_is_refunded_in_full(state: GovernanceState, index: int)
    requires
        state.wf(),
        state.store is Some,
        lookup(state.ballots, index) is Some,
        lookup(state.ballots, index)->0.proposal_id != state.store->0.proposal_id,
    ensures
        ({
            let ballot = lookup(state.ballots, index)->0;
            let closed = state.after_close(
                ballot.voter_address,
                index,
                TransferOutcome::Completed,
            );
            &&& state.close_result(ballot.voter_address, index, TransferOutcome::Completed) == Ok::<
                u64,
                ErrorCode,
            >(ballot.num_votes)
            &&& closed.vault == state.vault - ballot.num_votes
            &&& lookup(closed.ballots, index) is None
            &&& closed.store == state.store
            &&& closed.wf()
        }),
{
    let ballot = lookup(state.ballots, index)->0;
    assert(state.ballots[index] == Some(ballot));
    lemma_locked_bounds_slot(state.ballots, index);
    state.lemma_close_preserves_wf(ballot.voter_address, index, TransferOutcome::Completed);
}

/// No stale power, from the start. Let a ballot be open, and let a new
/// proposal then take the slot over. When the ballot's owner takes it back
/// and the custody service pays out, the whole weight is refunded and the
/// new generation's running total stays what it was.
pub proof fn law_no_stale_power(
    state: GovernanceState,
    index: int,
    proposer: Address,
    proposal_type: ProposalType,
    target_buffer: Address,
    source_buffer: Address,
    new_authority: Address,
    amount: u64,
)
    requires
        state.wf(),
        lookup(state.ballots, index) is Some,
        state.propose_refusal(amount, TransferOutcome::Completed) is None,
    ensures
        ({
            let ballot = lookup(state.ballots, index)->0;
            let armed = state.after_propose(
                proposer,
                proposal_type,
                target_buffer,
                source_buffer,
                new_authority,
                amount,
                TransferOutcome::Completed,
            );
            let closed = armed.after_close(
                ballot.voter_address,
                index,
                TransferOutcome::Completed,
            );
            &&& armed.close_result(ballot.voter_address, index, TransferOutcome::Completed) == Ok::<
                u64,
                ErrorCode,
            >(ballot.num_votes)
            &&& closed.vault == armed.vault - ballot.num_votes
            &&& lookup(closed.ballots, index) is None
            &&& closed.store == armed.store
        }),
{
    let ballot = lookup(state.ballots, index)->0;
    let armed = state.after_propose(
        proposer,
        proposal_type,
        target_buffer,
        source_buffer,
        new_authority,
        amount,
        TransferOutcome::Completed,
    );
    assert(state.ballots[index] == Some(ballot));
    assert(ballot.proposal_id <= state.store->0.proposal_id);
    assert(armed.ballots[index] == state.ballots[index]);
    state.lemma_propose_preserves_wf(
        proposer,
        proposal_type,
        target_buffer,
        source_buffer,
        new_authority,
        amount,
        TransferOutcome::Completed,
    );
    law_stale_ballot_is_refunded_in_full(armed, index);
}

/// An unapproved target is refused. For an open proposal and a request of
/// its kind, a request that names any target other than the recorded one,
/// be it the program data, the buffer or the new authority, ends with
/// `InvalidProposalParams`, however many votes there are and whatever the
/// authority check and the service say.
pub proof fn law_unapproved_target_is_refused(
    proposal: Proposal,
    action: RequestedAction,
    authority: Result<u8, ErrorCode>,
    outcome: ActionOutcome,
)
    requires
        proposal.is_active,
        proposal.proposal_type == action.spec_kind(),
        !action.names_targets_of(proposal),
    ensures
        verdict(proposal, action) == Err::<(), ErrorCode>(ErrorCode::InvalidProposalParams),
        admission(proposal, action, authority) == Err::<u8, ErrorCode>(
            ErrorCode::InvalidProposalParams,
        ),
        execution_result(proposal, action, authority, outcome) == Err::<(), ErrorCode>(
            ErrorCode::InvalidProposalParams,
        ),
{
}

/// A set-authority request names its targets only if it names the
/// recorded program data as well as the recorded new authority.
pub proof fn law_set_authority_names_its_target(
    proposal: Proposal,
    target_buffer: Address,
    new_authority: Address,
)
    ensures
        (RequestedAction::SetAuthority { target_buffer, new_authority }).names_targets_of(proposal)
            <==> (target_buffer == proposal.target_buffer && new_authority
            == proposal.new_authority),
{
}

/// Quorum gating. For an open proposal and a request of its kind that
/// names its targets, the votes alone decide: below the threshold the
/// verdict is `InsufficientApprovalVotes`, at the threshold and above the
/// action may run.
pub proof fn law_quorum_gate(proposal: Proposal, action: RequestedAction)
    requires
        proposal.is_active,
        proposal.proposal_type == action.spec_kind(),
        action.names_targets_of(proposal),
    ensures
        proposal.num_votes < proposal.approval_threshold ==> verdict(proposal, action) == Err::<
            (),
            ErrorCode,
        >(ErrorCode::InsufficientApprovalVotes),
        proposal.num_votes >= proposal.approval_threshold ==> verdict(proposal, action) == Ok::<
            (),
            ErrorCode,
        >(()),
{
}

/// Quorum gating of an execution. For an open proposal and a request of
/// its kind that names its targets: below the threshold the execution ends
/// with `InsufficientApprovalVotes`, whatever the authority check and the
/// service say; at the threshold and above it succeeds once the authority is
/// in place and the service has performed the action.
pub proof fn law_quorum_gates_execution(
    proposal: Proposal,
    action: RequestedAction,
    authority: Result<u8, ErrorCode>,
    outcome: ActionOutcome,
)
    requires
        proposal.is_active,
        proposal.proposal_type == action.spec_kind(),
        action.names_targets_of(proposal),
    ensures
        proposal.num_votes < proposal.approval_threshold ==> execution_result(
            proposal,
            action,
            authority,
            outcome,
        ) == Err::<(), ErrorCode>(ErrorCode::InsufficientApprovalVotes),
        proposal.num_votes >= proposal.approval_threshold && authority is Ok && outcome
            == ActionOutcome::Performed ==> execution_result(proposal, action, authority, outcome)
            == Ok::<(), ErrorCode>(()),
{
}

/// Quorum gating of the controller. For an open proposal and a request of
/// its kind that names its targets, the votes and the service's answer
/// decide: below the threshold the execution ends with
/// `InsufficientApprovalVotes`; at the threshold and above it succeeds and
/// ratifies once the service has performed the action.
pub proof fn law_quorum_gates_controller(
    state: GovernanceState,
    action: RequestedAction,
    outcome: ActionOutcome,
)
    requires
        state.store is Some,
        state.store->0.is_active,
        state.store->0.proposal_type == action.spec_kind(),
        action.names_targets_of(state.store->0),
    ensures
        state.store->0.num_votes < state.store->0.approval_threshold ==> state.execute_result(
            action,
            outcome,
        ) == Err::<(), ErrorCode>(ErrorCode::InsufficientApprovalVotes) && state.after_execute(
            action,
            outcome,
        ) == state,
        state.store->0.num_votes >= state.store->0.approval_threshold && outcome
            == ActionOutcome::Performed ==> state.execute_result(action, outcome) == Ok::<
            (),
            ErrorCode,
        >(()) && state.after_execute(action, outcome).store == Some(state.store->0.ratified()),
{
}

/// Single ratification, on the records. Once an execution has succeeded,
/// every further execution against the ratified proposal ends with
/// `ProposalNotActive`, whatever it asks for and however many votes remain.
pub proof fn law_ratified_once(
    proposal: Proposal,
    action: RequestedAction,
    authority: Result<u8, ErrorCode>,
    outcome: ActionOutcome,
    again: RequestedAction,
    authority_again: Result<u8, ErrorCode>,
    outcome_again: ActionOutcome,
)
    requires
        execution_result(proposal, action, authority, outcome) is Ok,
    ensures
        execution_result(proposal.ratified(), again, authority_again, outcome_again) == Err::<
            (),
            ErrorCode,
        >(ErrorCode::ProposalNotActive),
        admission(proposal.ratified(), again, authority_again) == Err::<u8, ErrorCode>(
            ErrorCode::ProposalNotActive,
        ),
{
}

/// Single ratification. Once the controller has executed an action, every
/// further execution ends with `ProposalNotActive` and changes nothing.
pub proof fn law_single_ratification(
    state: GovernanceState,
    action: RequestedAction,
    outcome: ActionOutcome,
    again: RequestedAction,
    outcome_again: ActionOutcome,
)
    requires
        state.execute_result(action, outcome) is Ok,
    ensures
        state.after_execute(action, outcome).execute_result(again, outcome_again) == Err::<
            (),
            ErrorCode,
        >(ErrorCode::ProposalNotActive),
        state.after_execute(action, outcome).after_execute(again, outcome_again)
            == state.after_execute(action, outcome),
{
}

/// Minimum enforcement. A proposal backed with less than the minimum is
/// refused with `InsufficientAmount` before any transfer is asked for, and
/// whatever the custody service would have answered; the state stays what it
/// was: no ballot, no vote, nothing in the vault.
pub proof fn law_minimum_enforced(
    state: GovernanceState,
    caller: Address,
    proposal_type: ProposalType,
    target_buffer: Address,
    source_buffer: Address,
    new_authority: Address,
    amount: u64,
    custody: TransferOutcome,
)
    requires
        state.store is Some,
        amount < state.store->0.proposal_minimum,
    ensures
        state.propose_admission(amount) == Some(ErrorCode::InsufficientAmount),
        state.propose_refusal(amount, custody) == Some(ErrorCode::InsufficientAmount),
        state.after_propose(
            caller,
            proposal_type,
            target_buffer,
            source_buffer,
            new_authority,
            amount,
            custody,
        ) == state,
{
}

/// Minimum enforcement, on the accounts of the `propose` instruction. With
/// less than the minimum the instruction is refused before any transfer is
/// asked for, and whatever the custody service would have answered.
pub proof fn law_minimum_enforced_on_accounts(
    accounts: Propose,
    amount: u64,
    custody: TransferOutcome,
)
    requires
        amount < accounts.proposal.proposal_minimum,
    ensures
        crate::instructions::propose_admission(accounts, amount) is Some,
        or_custody(crate::instructions::propose_admission(accounts, amount), custody) is Some,
        accounts.ballot is None ==> or_custody(
            crate::instructions::propose_admission(accounts, amount),
            custody,
        ) == Some(ErrorCode::InsufficientAmount),
{
}

/// The minimum alone decides. Where there is a slot whose generation
/// counter is not exhausted and the custody service accepts the transfer, a
/// proposal is refused exactly when its amount is below the minimum, and
/// then with `InsufficientAmount`; an amount equal to the minimum is taken.
pub proof fn law_minimum_alone_decides(state: GovernanceState, amount: u64)
    requires
        state.store is Some,
        state.store->0.proposal_id < u64::MAX,
    ensures
        amount < state.store->0.proposal_minimum <==> state.propose_refusal(
            amount,
            TransferOutcome::Completed,
        ) == Some(ErrorCode::InsufficientAmount),
        amount >= state.store->0.proposal_minimum <==> state.propose_refusal(
            amount,
            TransferOutcome::Completed,
        ) is None,
{
}

/// The minimum alone decides, on the accounts of the `propose`
/// instruction: with a new ballot account, a generation counter that is not
/// exhausted and a transfer that the custody service accepts, the
/// instruction is refused exactly when the amount is below the minimum.
pub proof fn law_minimum_alone_decides_on_accounts(accounts: Propose, amount: u64)
    requires
        accounts.ballot is None,
        accounts.proposal.proposal_id < u64::MAX,
    ensures
        amount < accounts.proposal.proposal_minimum <==> or_custody(
            crate::instructions::propose_admission(accounts, amount),
            TransferOutcome::Completed,
        ) == Some(ErrorCode::InsufficientAmount),
        amount >= accounts.proposal.proposal_minimum <==> or_custody(
            crate::instructions::propose_admission(accounts, amount),
            TransferOutcome::Completed,
        ) is None,
{
}

/// A proposal locks its amount. Where a proposal is taken up, the vault
/// grows by exactly the amount, the proposer's ballot for the new generation
/// is the newest of the ledger, the running total is the amount, and both
/// sums hold again: the vault is what the open ballots lock, the running
/// total what the open ballots of the new generation lock.
pub proof fn law_proposal_locks_its_amount(
    state: GovernanceState,
    caller: Address,
    proposal_type: ProposalType,
    target_buffer: Address,
    source_buffer: Address,
    new_authority: Address,
    amount: u64,
)
    requires
        state.wf(),
        state.store is Some,
        state.store->0.proposal_id < u64::MAX,
        amount >= state.store->0.proposal_minimum,
    ensures
        ({
            let after = state.after_propose(
                caller,
                proposal_type,
                target_buffer,
                source_buffer,
                new_authority,
                amount,
                TransferOutcome::Completed,
            );
            &&& state.propose_refusal(amount, TransferOutcome::Completed) is None
            &&& after.vault == state.vault + amount
            &&& after.vault == locked(after.ballots)
            &&& after.store->0.proposal_id == state.store->0.proposal_id + 1
            &&& after.store->0.num_votes == amount
            &&& after.store->0.num_votes == backing(after.ballots, after.store->0.proposal_id)
            &&& after.ballots == state.ballots.push(
                Some(ballot_for(caller, after.store->0.proposal_id, amount)),
            )
        }),
{
    state.lemma_propose_preserves_wf(
        caller,
        proposal_type,
        target_buffer,
        source_buffer,
        new_authority,
        amount,
        TransferOutcome::Completed,
    );
}

} // verus!

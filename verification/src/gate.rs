//! The threshold gate: may a requested privileged action run now?

use vstd::prelude::*;
use crate::address::Address;
use crate::error::ErrorCode;
use crate::proposal::{Proposal, ProposalType};

verus! {

/// What the authority-management service answered when it was asked to
/// carry out an action.
#[derive(Clone, Copy, Debug, PartialEq, Eq, Structural)]
pub enum ActionOutcome {
    /// The action has taken effect.
    Performed,
    /// The action was not carried out.
    Failed,
}

/// A privileged action as a caller asks for it, with the targets it names.
#[derive(Clone, Copy, Debug, PartialEq, Eq)]
pub enum RequestedAction {
    /// Replace the code behind `target_buffer` with what `source_buffer` holds.
    UpgradeProgram { target_buffer: Address, source_buffer: Address },
    /// Make `new_authority` the one who may upgrade the code behind
    /// `target_buffer`.
    SetAuthority { target_buffer: Address, new_authority: Address },
}

impl RequestedAction {
    /// The kind of proposal that can authorize this action.
    pub open spec fn spec_kind(self) -> ProposalType {
        match self {
            RequestedAction::UpgradeProgram { .. } => ProposalType::UpgradeProgram,
            RequestedAction::SetAuthority { .. } => ProposalType::SetAuthority,
        }
    }

    /// The kind of proposal that can authorize this action.
    #[verifier::when_used_as_spec(spec_kind)]
    pub fn kind(self) -> (k: ProposalType)
        ensures
            k == self.spec_kind(),
    {
        match self {
            RequestedAction::UpgradeProgram { .. } => ProposalType::UpgradeProgram,
            RequestedAction::SetAuthority { .. } => ProposalType::SetAuthority,
        }
    }

    /// Whether every target that the action names is the one the proposal
    /// records under that name. An action names the program data it acts on,
    /// whatever its kind, and besides it the buffer or the new authority.
    pub open spec fn names_targets_of(self, proposal: Proposal) -> bool {
        match self {
            RequestedAction::UpgradeProgram { target_buffer, source_buffer } => {
                source_buffer == proposal.source_buffer && target_buffer == proposal.target_buffer
            },
            RequestedAction::SetAuthority { target_buffer, new_authority } => {
                target_buffer == proposal.target_buffer && new_authority
                    == proposal.new_authority
            },
        }
    }
}

/// The verdict on a request. The four refusals are tried in this order, so a
/// closed proposal is reported as closed whatever else is wrong with the
/// request.
pub open spec fn verdict(proposal: Proposal, action: RequestedAction) -> Result<(), ErrorCode> {
    if !proposal.is_active {
        Err(ErrorCode::ProposalNotActive)
    } else if proposal.proposal_type != action.spec_kind() {
        Err(ErrorCode::InvalidProposalType)
    } else if !action.names_targets_of(proposal) {
        Err(ErrorCode::InvalidProposalParams)
    } else if proposal.num_votes < proposal.approval_threshold {
        Err(ErrorCode::InsufficientApprovalVotes)
    } else {
        Ok(())
    }
}

/// Decides whether `action` may run under `proposal`. It only decides: the
/// proposal is left as it is, and whoever runs the action closes it after.
pub fn authorize(proposal: &Proposal, action: &RequestedAction) -> (r: Result<(), ErrorCode>)
    ensures
        r == verdict(*proposal, *action),
{
    if !proposal.is_active {
        return Err(ErrorCode::ProposalNotActive);
    }
    if proposal.proposal_type != action.kind() {
        return Err(ErrorCode::InvalidProposalType);
    }
    let named = match action {
        RequestedAction::UpgradeProgram { target_buffer, source_buffer } => {
            *source_buffer == proposal.source_buffer && *target_buffer == proposal.target_buffer
        },
        RequestedAction::SetAuthority { target_buffer, new_authority } => {
            *target_buffer == proposal.target_buffer && *new_authority == proposal.new_authority
        },
    };
    if !named {
        return Err(ErrorCode::InvalidProposalParams);
    }
    if proposal.num_votes < proposal.approval_threshold {
        return Err(ErrorCode::InsufficientApprovalVotes);
    }
    Ok(())
}

/// Whether the action may be sent off, and with which bump seed the
/// governance authority signs it: the verdict's refusal if it has one, else
/// what the check of the authority came to.
pub open spec fn admission(
    proposal: Proposal,
    action: RequestedAction,
    authority: Result<u8, ErrorCode>,
) -> Result<u8, ErrorCode> {
    match verdict(proposal, action) {
        Err(e) => Err(e),
        Ok(_) => authority,
    }
}

/// How an execution ends: with the refusal that stood in the way of
/// sending the action, else with `ExternalActionFailed` when the service did
/// not perform it, else well.
pub open spec fn execution_result(
    proposal: Proposal,
    action: RequestedAction,
    authority: Result<u8, ErrorCode>,
    outcome: ActionOutcome,
) -> Result<(), ErrorCode> {
    match admission(proposal, action, authority) {
        Err(e) => Err(e),
        Ok(_) => match outcome {
            ActionOutcome::Performed => Ok(()),
            ActionOutcome::Failed => Err(ErrorCode::ExternalActionFailed),
        },
    }
}

/// Decides whether `action` may be sent to the authority-management
/// service, and returns the bump seed that signs it. `authority` is what the
/// check of the governance authority came to; the verdict comes first.
pub fn admit_execution(
    proposal: &Proposal,
    action: &RequestedAction,
    authority: Result<u8, ErrorCode>,
) -> (r: Result<u8, ErrorCode>)
    ensures
        r == admission(*proposal, *action, authority),
{
    authorize(proposal, action)?;
    authority
}

/// Concludes an execution: the proposal is ratified if the action was
/// admitted and the service performed it, and stays as it was, open to
/// another try, on any refusal. `outcome` is the service's answer; it is not
/// looked at when the action was never admitted.
pub fn settle_execution(
    proposal: &mut Proposal,
    action: &RequestedAction,
    authority: Result<u8, ErrorCode>,
    outcome: ActionOutcome,
) -> (r: Result<(), ErrorCode>)
    ensures
        r == execution_result(*old(proposal), *action, authority, outcome),
        r is Ok ==> *final(proposal) == old(proposal).ratified(),
        r is Err ==> *final(proposal) == *old(proposal),
{
    admit_execution(proposal, action, authority)?;
    match outcome {
        ActionOutcome::Failed => Err(ErrorCode::ExternalActionFailed),
        ActionOutcome::Performed => {
            proposal.ratify();
            Ok(())
        },
    }
}

} // verus!

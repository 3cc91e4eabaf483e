//! Every way an operation of the library can be refused.

use vstd::prelude::*;

verus! {

/// The reason an operation was refused. An operation that returns one of
/// these has changed nothing.
#[derive(Clone, Copy, Debug, PartialEq, Eq, Structural)]
pub enum ErrorCode {
    /// A proposal was backed with less than the configured minimum.
    InsufficientAmount,
    /// The account offered as the governance authority is not the address
    /// derived for this program.
    InvalidAuthPda,
    /// The proposal is not open: never armed, or already ratified.
    ProposalNotActive,
    /// The ballot names a generation other than the current one.
    InvalidProposalId,
    /// The requested action is of another kind than the proposal.
    InvalidProposalType,
    /// The requested action names other targets than the proposal records.
    InvalidProposalParams,
    /// The votes locked behind the proposal are below the threshold.
    InsufficientApprovalVotes,
    /// The store was initialized before.
    AlreadyInitialized,
    /// The store has not been initialized yet.
    NotInitialized,
    /// The caller does not own the ballot.
    Unauthorized,
    /// No open ballot has this handle.
    NotFound,
    /// A ballot with this handle is already open.
    DuplicateBallot,
    /// The custody service found too few tokens on the paying side.
    InsufficientFunds,
    /// The custody service refused the transfer for another reason.
    TransferFailed,
    /// The authority-management service did not perform the action.
    ExternalActionFailed,
    /// A counter would have passed the largest value it can hold.
    Overflow,
    /// A counter would have fallen below zero.
    Underflow,
}

/// The six families that the refusals fall into.
#[derive(Clone, Copy, Debug, PartialEq, Eq, Structural)]
pub enum ErrorKind {
    Config,
    Validation,
    InsufficientApproval,
    Custody,
    ExternalAction,
    Arithmetic,
}

impl ErrorCode {
    /// The family of each refusal.
    pub open spec fn spec_kind(self) -> ErrorKind {
        match self {
            ErrorCode::AlreadyInitialized | ErrorCode::NotInitialized => ErrorKind::Config,
            ErrorCode::InsufficientAmount
            | ErrorCode::InvalidAuthPda
            | ErrorCode::ProposalNotActive
            | ErrorCode::InvalidProposalId
            | ErrorCode::InvalidProposalType
            | ErrorCode::InvalidProposalParams
            | ErrorCode::Unauthorized
            | ErrorCode::NotFound
            | ErrorCode::DuplicateBallot => ErrorKind::Validation,
            ErrorCode::InsufficientApprovalVotes => ErrorKind::InsufficientApproval,
            ErrorCode::InsufficientFunds | ErrorCode::TransferFailed => ErrorKind::Custody,
            ErrorCode::ExternalActionFailed => ErrorKind::ExternalAction,
            ErrorCode::Overflow | ErrorCode::Underflow => ErrorKind::Arithmetic,
        }
    }

    /// The family this refusal belongs to.
    #[verifier::when_used_as_spec(spec_kind)]
    pub fn kind(self) -> (k: ErrorKind)
        ensures
            k == self.spec_kind(),
    {
        match self {
            ErrorCode::AlreadyInitialized | ErrorCode::NotInitialized => ErrorKind::Config,
            ErrorCode::InsufficientAmount
            | ErrorCode::InvalidAuthPda
            | ErrorCode::ProposalNotActive
            | ErrorCode::InvalidProposalId
            | ErrorCode::InvalidProposalType
            | ErrorCode::InvalidProposalParams
            | ErrorCode::Unauthorized
            | ErrorCode::NotFound
            | ErrorCode::DuplicateBallot => ErrorKind::Validation,
            ErrorCode::InsufficientApprovalVotes => ErrorKind::InsufficientApproval,
            ErrorCode::InsufficientFunds | ErrorCode::TransferFailed => ErrorKind::Custody,
            ErrorCode::ExternalActionFailed => ErrorKind::ExternalAction,
            ErrorCode::Overflow | ErrorCode::Underflow => ErrorKind::Arithmetic,
        }
    }
    /// The text that goes with each refusal.
    pub open spec fn spec_message(self) -> Seq<char> {
        match self {
            ErrorCode::InsufficientAmount => "Insufficient Proposal Amount."@,
            ErrorCode::InvalidAuthPda => "Invalid Authorizer PDA."@,
            ErrorCode::ProposalNotActive => "Proposal Not Active."@,
            ErrorCode::InvalidProposalId => "Invalid Proposal ID."@,
            ErrorCode::InvalidProposalType => "Invalid Proposal Type."@,
            ErrorCode::InvalidProposalParams => "Invalid Proposal Params."@,
            ErrorCode::InsufficientApprovalVotes => "Insufficient Approval Votes."@,
            ErrorCode::AlreadyInitialized => "Already Initialized."@,
            ErrorCode::NotInitialized => "Not Initialized."@,
            ErrorCode::Unauthorized => "Not The Ballot's Owner."@,
            ErrorCode::NotFound => "Ballot Not Found."@,
            ErrorCode::DuplicateBallot => "Ballot Already Open."@,
            ErrorCode::InsufficientFunds => "Insufficient Funds."@,
            ErrorCode::TransferFailed => "Transfer Failed."@,
            ErrorCode::ExternalActionFailed => "External Action Failed."@,
            ErrorCode::Overflow => "Arithmetic Overflow."@,
            ErrorCode::Underflow => "Arithmetic Underflow."@,
        }
    }

    /// The text to show a caller for this refusal.
    pub fn message(self) -> (m: &'static str)
        ensures
            m@ == self.spec_message(),
    {
        match self {
            ErrorCode::InsufficientAmount => "Insufficient Proposal Amount.",
            ErrorCode::InvalidAuthPda => "Invalid Authorizer PDA.",
            ErrorCode::ProposalNotActive => "Proposal Not Active.",
            ErrorCode::InvalidProposalId => "Invalid Proposal ID.",
            ErrorCode::InvalidProposalType => "Invalid Proposal Type.",
            ErrorCode::InvalidProposalParams => "Invalid Proposal Params.",
            ErrorCode::InsufficientApprovalVotes => "Insufficient Approval Votes.",
            ErrorCode::AlreadyInitialized => "Already Initialized.",
            ErrorCode::NotInitialized => "Not Initialized.",
            ErrorCode::Unauthorized => "Not The Ballot's Owner.",
            ErrorCode::NotFound => "Ballot Not Found.",
            ErrorCode::DuplicateBallot => "Ballot Already Open.",
            ErrorCode::InsufficientFunds => "Insufficient Funds.",
            ErrorCode::TransferFailed => "Transfer Failed.",
            ErrorCode::ExternalActionFailed => "External Action Failed.",
            ErrorCode::Overflow => "Arithmetic Overflow.",
            ErrorCode::Underflow => "Arithmetic Underflow.",
        }
    }
}

} // verus!

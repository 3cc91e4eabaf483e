//! Stake-weighted governance gate for two privileged actions: handing a
//! program's upgrade authority to someone else, and replacing its code.
//!
//! Stakeholders lock tokens behind a proposal; the action may run once the
//! locked weight reaches the configured threshold, and only once.
//!
//! The library decides and keeps the books. It never moves a token and
//! never calls the loader: an operation that needs one of them comes with a
//! function that says what to ask for, and takes the answer as an argument.
//!
//! - [`proposal`], [`ballot`], [`ledger`]: the records and their invariants.
//! - [`accountant`], [`gate`]: what locking stake, releasing it and running
//!   the action do to the records.
//! - [`authority`], [`loader`], [`custody`]: the program-derived authority,
//!   the loader instructions and the transfers, as plain values.
//! - [`instructions`]: the six instructions of the on-chain program.
//! - [`governance`]: the whole system as one state, with its ledger and
//!   vault.
//! - [`laws`]: what holds of the system whatever its callers do.

pub mod accountant;
pub mod address;
pub mod authority;
pub mod ballot;
pub mod custody;
pub mod error;
pub mod gate;
pub mod governance;
pub mod instructions;
pub mod laws;
pub mod ledger;
pub mod loader;
pub mod proposal;

pub use crate::address::Address;
pub use crate::ballot::Ballot;
pub use crate::custody::{transfer_tokens, Transfer, TransferOutcome};
pub use crate::error::{ErrorCode, ErrorKind};
pub use crate::gate::{ActionOutcome, RequestedAction};
pub use crate::governance::Governance;
pub use crate::instructions::{
    cast_ballot, close_ballot, execute_set_authority, execute_upgrade_program, initialize,
    propose, AuthAccount, CastBallot, CloseBallot, Context, ExecuteSetAuthority,
    ExecuteUpgradeProgram, Initialize, Propose,
};
pub use crate::ledger::{BallotHandle, VoteLedger};
pub use crate::proposal::{Proposal, ProposalType};

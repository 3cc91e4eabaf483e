//! What the library asks of the token custody service, and what the
//! service may answer. The library never moves tokens itself.

use vstd::prelude::*;
use crate::address::Address;
use crate::error::ErrorCode;

verus! {

/// A request to move `amount` tokens from one token account to another,
/// on the word of `authority`.
#[derive(Clone, Copy, Debug, PartialEq, Eq)]
pub struct Transfer {
    pub from: Address,
    pub to: Address,
    pub authority: Address,
    pub amount: u64,
}

/// A transfer out of the vault. The governance authority signs for it
/// with the seeds it was derived from, `bump_seed` being the last.
#[derive(Clone, Copy, Debug, PartialEq, Eq)]
pub struct SignedTransfer {
    pub transfer: Transfer,
    pub bump_seed: u8,
}

/// The custody service's answer to a transfer.
#[derive(Clone, Copy, Debug, PartialEq, Eq, Structural)]
pub enum TransferOutcome {
    /// The tokens have moved.
    Completed,
    /// The paying account holds too little. Nothing has moved.
    InsufficientFunds,
    /// The service refused for another reason. Nothing has moved.
    Rejected,
}

impl TransferOutcome {
    /// The refusal that a failed transfer is reported as; none for one that
    /// went through.
    pub open spec fn spec_refusal(self) -> Option<ErrorCode> {
        match self {
            TransferOutcome::Completed => None,
            TransferOutcome::InsufficientFunds => Some(ErrorCode::InsufficientFunds),
            TransferOutcome::Rejected => Some(ErrorCode::TransferFailed),
        }
    }

    /// The refusal that a failed transfer is reported as; none for one that
    /// went through.
    #[verifier::when_used_as_spec(spec_refusal)]
    pub fn refusal(self) -> (e: Option<ErrorCode>)
        ensures
            e == self.spec_refusal(),
    {
        match self {
            TransferOutcome::Completed => None,
            TransferOutcome::InsufficientFunds => Some(ErrorCode::InsufficientFunds),
            TransferOutcome::Rejected => Some(ErrorCode::TransferFailed),
        }
    }
}

/// Describes the transfer of `amount` tokens from `tx_account` to
/// `rx_account` that `signer` authorizes.
pub fn transfer_tokens(
    signer: &Address,
    tx_account: Address,
    rx_account: Address,
    amount: u64,
) -> (t: Transfer)
    ensures
        t == (Transfer { from: tx_account, to: rx_account, authority: *signer, amount }),
{
    Transfer { from: tx_account, to: rx_account, authority: *signer, amount }
}

} // verus!

//! Ballots: the record of one voter's locked stake.

use vstd::prelude::*;
use crate::address::Address;

verus! {

/// One voter's stake, locked behind one generation of the proposal.
#[derive(Clone, Copy, Debug, PartialEq, Eq)]
pub struct Ballot {
    /// The generation that the weight was counted toward.
    pub proposal_id: u64,
    /// The amount of stake that the ballot locks.
    pub num_votes: u64,
    /// The owner; nobody else may close the ballot.
    pub voter_address: Address,
}

} // verus!

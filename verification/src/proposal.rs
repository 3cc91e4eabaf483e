//! The single governance slot: its configuration, the pending action and the
//! votes locked behind it.

use vstd::prelude::*;
use crate::address::Address;
use crate::error::ErrorCode;

verus! {

/// Which privileged action a proposal asks for.
#[derive(Clone, Copy, Debug, PartialEq, Eq, Structural)]
pub enum ProposalType {
    /// Replace a program's code with the contents of a buffer.
    UpgradeProgram,
    /// Hand a program's upgrade authority to someone else.
    SetAuthority,
}

impl Default for ProposalType {
    fn default() -> (t: ProposalType)
        ensures
            t == ProposalType::UpgradeProgram,
    {
        ProposalType::UpgradeProgram
    }
}

/// The governance slot. There is one per system; `proposal_id` tells its
/// successive proposals apart.
#[derive(Clone, Copy, Debug, PartialEq, Eq)]
pub struct Proposal {
    /// True from the moment a proposal is armed until it is ratified.
    pub is_active: bool,
    /// The generation: 0 before the first proposal, one more with each.
    pub proposal_id: u64,
    /// The weight locked behind the current generation.
    pub num_votes: u64,
    pub proposal_type: ProposalType,
    /// The program data that an upgrade writes to.
    pub target_buffer: Address,
    /// The buffer that an upgrade reads the new code from.
    pub source_buffer: Address,
    /// Who receives the authority in a `SetAuthority` proposal.
    pub new_authority: Address,
    /// The token that votes are counted in. Set once.
    pub governance_token_mint: Address,
    /// The weight at which the action may run. Set once.
    pub approval_threshold: u64,
    /// The least weight a proposer must lock. Set once.
    pub proposal_minimum: u64,
}

impl Proposal {
    /// Whether the three configuration fields of `self` and `other` agree.
    pub open spec fn same_config(self, other: Proposal) -> bool {
        &&& self.governance_token_mint == other.governance_token_mint
        &&& self.approval_threshold == other.approval_threshold
        &&& self.proposal_minimum == other.proposal_minimum
    }

    /// A slot right after initialization: generation 0, closed, no votes,
    /// no action recorded, all three targets zero.
    pub open spec fn fresh(
        governance_token_mint: Address,
        approval_threshold: u64,
        proposal_minimum: u64,
    ) -> Proposal {
        Proposal {
            is_active: false,
            proposal_id: 0,
            num_votes: 0,
            proposal_type: ProposalType::UpgradeProgram,
            target_buffer: Address::spec_zero(),
            source_buffer: Address::spec_zero(),
            new_authority: Address::spec_zero(),
            governance_token_mint,
            approval_threshold,
            proposal_minimum,
        }
    }

    /// The slot after a new proposal has taken it over: the next generation,
    /// open, backed by `initial_weight` alone. The configuration stays.
    pub open spec fn armed(
        self,
        proposal_type: ProposalType,
        target_buffer: Address,
        source_buffer: Address,
        new_authority: Address,
        initial_weight: u64,
    ) -> Proposal {
        Proposal {
            is_active: true,
            proposal_id: (self.proposal_id + 1) as u64,
            num_votes: initial_weight,
            proposal_type,
            target_buffer,
            source_buffer,
            new_authority,
            ..self
        }
    }

    /// The slot with `is_active` cleared and nothing else changed.
    pub open spec fn ratified(self) -> Proposal {
        Proposal { is_active: false, ..self }
    }

    /// The slot with its running total set to `num_votes`.
    pub open spec fn with_votes(self, num_votes: u64) -> Proposal {
        Proposal { num_votes, ..self }
    }

    /// The slot after a ballot of generation `proposal_id` and weight
    /// `weight` has been withdrawn: a ballot of the current generation takes
    /// its weight with it, a ballot of an earlier one takes nothing.
    pub open spec fn uncounted(self, proposal_id: u64, weight: u64) -> Proposal {
        if proposal_id == self.proposal_id {
            self.with_votes((self.num_votes - weight) as u64)
        } else {
            self
        }
    }

    /// Whether a ballot of generation `proposal_id` and weight `weight`
    /// claims more than the running total holds.
    pub open spec fn overdrawn_by(self, proposal_id: u64, weight: u64) -> bool {
        proposal_id == self.proposal_id && weight > self.num_votes
    }

    /// Creates the slot: generation 0, closed, no votes.
    pub fn new(
        governance_token_mint: Address,
        approval_threshold: u64,
        proposal_minimum: u64,
    ) -> (p: Proposal)
        ensures
            p == Proposal::fresh(governance_token_mint, approval_threshold, proposal_minimum),
    {
        Proposal {
            is_active: false,
            proposal_id: 0,
            num_votes: 0,
            proposal_type: ProposalType::UpgradeProgram,
            target_buffer: Address::zero(),
            source_buffer: Address::zero(),
            new_authority: Address::zero(),
            governance_token_mint,
            approval_threshold,
            proposal_minimum,
        }
    }

    /// Starts the next generation: records the action, opens the slot and
    /// sets the running total to `initial_weight`, dropping whatever the
    /// previous generation had collected. Fails with `Overflow`, and changes
    /// nothing, when the generation counter is exhausted.
    pub fn arm(
        &mut self,
        proposal_type: ProposalType,
        target_buffer: Address,
        source_buffer: Address,
        new_authority: Address,
        initial_weight: u64,
    ) -> (r: Result<(), ErrorCode>)
        ensures
            match r {
                Ok(_) => old(self).proposal_id < u64::MAX && *final(self) == old(self).armed(
                    proposal_type,
                    target_buffer,
                    source_buffer,
                    new_authority,
                    initial_weight,
                ),
                Err(e) => e == ErrorCode::Overflow && old(self).proposal_id == u64::MAX
                    && *final(self) == *old(self),
            },
    {
        match self.proposal_id.checked_add(1) {
            None => Err(ErrorCode::Overflow),
            Some(next) => {
                self.proposal_id = next;
                self.proposal_type = proposal_type;
                self.target_buffer = target_buffer;
                self.source_buffer = source_buffer;
                self.new_authority = new_authority;
                self.num_votes = initial_weight;
                self.is_active = true;
                Ok(())
            },
        }
    }

    /// Closes the slot after its action has run. The caller has checked
    /// that the slot is open.
    pub fn ratify(&mut self)
        requires
            old(self).is_active,
        ensures
            *final(self) == old(self).ratified(),
    {
        self.is_active = false;
    }

    /// Adds `amount` to the running total. Fails with `Overflow`, and
    /// changes nothing, when the total would not fit.
    pub fn credit(&mut self, amount: u64) -> (r: Result<(), ErrorCode>)
        ensures
            match r {
                Ok(_) => old(self).num_votes + amount <= u64::MAX
                    && *final(self) == old(self).with_votes(
                    (old(self).num_votes + amount) as u64,
                ),
                Err(e) => e == ErrorCode::Overflow && old(self).num_votes + amount > u64::MAX
                    && *final(self) == *old(self),
            },
    {
        match self.num_votes.checked_add(amount) {
            None => Err(ErrorCode::Overflow),
            Some(total) => {
                self.num_votes = total;
                Ok(())
            },
        }
    }

    /// Takes a withdrawn ballot out of the running total, but only a ballot
    /// of the current generation: the weight of an earlier one left the
    /// total when the slot was armed again. Fails with `Underflow`, and
    /// changes nothing, when a current ballot weighs more than the total.
    pub fn debit(&mut self, proposal_id: u64, weight: u64) -> (r: Result<(), ErrorCode>)
        ensures
            match r {
                Ok(_) => !old(self).overdrawn_by(proposal_id, weight)
                    && *final(self) == old(self).uncounted(proposal_id, weight),
                Err(e) => e == ErrorCode::Underflow && old(self).overdrawn_by(proposal_id, weight)
                    && *final(self) == *old(self),
            },
    {
        if proposal_id == self.proposal_id {
            match self.num_votes.checked_sub(weight) {
                None => Err(ErrorCode::Underflow),
                Some(rest) => {
                    self.num_votes = rest;
                    Ok(())
                },
            }
        } else {
            Ok(())
        }
    }
    /// Whether the slot is open.
    pub fn is_active(&self) -> (v: bool)
        ensures
            v == self.is_active,
    {
        self.is_active
    }

    /// The generation of the slot.
    pub fn proposal_id(&self) -> (v: u64)
        ensures
            v == self.proposal_id,
    {
        self.proposal_id
    }

    /// The weight locked behind the current generation.
    pub fn num_votes(&self) -> (v: u64)
        ensures
            v == self.num_votes,
    {
        self.num_votes
    }

    /// The kind of action that the slot records.
    pub fn proposal_type(&self) -> (v: ProposalType)
        ensures
            v == self.proposal_type,
    {
        self.proposal_type
    }

    /// The program data that an upgrade writes to.
    pub fn target_buffer(&self) -> (v: Address)
        ensures
            v == self.target_buffer,
    {
        self.target_buffer
    }

    /// The buffer that an upgrade reads the new code from.
    pub fn source_buffer(&self) -> (v: Address)
        ensures
            v == self.source_buffer,
    {
        self.source_buffer
    }

    /// Who receives the authority in a `SetAuthority` proposal.
    pub fn new_authority(&self) -> (v: Address)
        ensures
            v == self.new_authority,
    {
        self.new_authority
    }

    /// The token that votes are counted in.
    pub fn governance_token_mint(&self) -> (v: Address)
        ensures
            v == self.governance_token_mint,
    {
        self.governance_token_mint
    }

    /// The weight at which the action may run.
    pub fn approval_threshold(&self) -> (v: u64)
        ensures
            v == self.approval_threshold,
    {
        self.approval_threshold
    }

    /// The least weight a proposer must lock.
    pub fn proposal_minimum(&self) -> (v: u64)
        ensures
            v == self.proposal_minimum,
    {
        self.proposal_minimum
    }
}

} // verus!

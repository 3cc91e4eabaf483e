//! The governance controller: the slot, the ledger of ballots and the
//! vault's balance as one state, moved by one operation at a time.
//!
//! The controller never talks to the custody service or to the loader. An
//! operation that needs one of them takes the service's answer as an
//! argument, and the matching `admit_` function says beforehand whether
//! there is anything to ask for.

use vstd::prelude::*;
use crate::accountant::{
    admit_proposal, admit_vote, admit_withdrawal, ballot_for, count_vote, open_proposal,
    or_custody, proposal_admission, withdraw_and_uncount, vote_admission, withdrawal_admission,
};
use crate::address::Address;
use crate::authority::{find_authority, program_address, MULTISIG_PDA_SEED};
use crate::ballot::Ballot;
use crate::custody::TransferOutcome;
use crate::error::ErrorCode;
use crate::gate::{
    admission, admit_execution, execution_result, settle_execution, ActionOutcome,
    RequestedAction,
};
use crate::ledger::{
    backing, lemma_backing_close, lemma_backing_of_later_generation, lemma_backing_push,
    lemma_locked_bounds_slot, lemma_locked_close, lemma_locked_is_bounded, lemma_locked_push,
    locked, lookup, none_after, BallotHandle, VoteLedger,
};
use crate::proposal::{Proposal, ProposalType};

verus! {

/// The state of a governance system.
pub struct GovernanceState {
    /// The slot; `None` until `initialize`.
    pub store: Option<Proposal>,
    /// The ledger: one entry per handle, empty once the ballot is closed.
    pub ballots: Seq<Option<Ballot>>,
    /// The tokens that the vault holds. It is counted without a limit: a
    /// ledger cannot hold so many ballots that their sum would not fit the
    /// width the controller keeps it in.
    pub vault: nat,
    /// The address that the system acts under, with the bump seed that
    /// signs for it.
    pub authority: (Address, u8),
}

impl GovernanceState {
    /// What every reachable state satisfies: the vault holds exactly what
    /// the open ballots lock; the slot's running total is exactly the weight
    /// of the open ballots of its generation; no ballot is ahead of the slot;
    /// and there are no ballots before there is a slot.
    pub open spec fn wf(self) -> bool {
        &&& self.vault == locked(self.ballots)
        &&& match self.store {
            None => self.ballots.len() == 0,
            Some(proposal) => proposal.num_votes == backing(self.ballots, proposal.proposal_id)
                && none_after(self.ballots, proposal.proposal_id),
        }
    }

    /// What the check of the system's own authority comes to: it passes,
    /// with the bump seed that the system was made with.
    pub open spec fn signing(self) -> Result<u8, ErrorCode> {
        Ok(self.authority.1)
    }

    /// Why `initialize` is refused, if it is.
    pub open spec fn initialize_refusal(self) -> Option<ErrorCode> {
        if self.store is Some {
            Some(ErrorCode::AlreadyInitialized)
        } else {
            None
        }
    }

    /// The state after `initialize`.
    pub open spec fn after_initialize(
        self,
        governance_token_mint: Address,
        approval_threshold: u64,
        proposal_minimum: u64,
    ) -> GovernanceState {
        if self.initialize_refusal() is None {
            GovernanceState {
                store: Some(
                    Proposal::fresh(governance_token_mint, approval_threshold, proposal_minimum),
                ),
                ..self
            }
        } else {
            self
        }
    }

    /// Why `propose` is refused before any token moves, if it is: there
    /// is no slot, the amount is below the minimum, or the generation counter
    /// is exhausted.
    pub open spec fn propose_admission(self, amount: u64) -> Option<ErrorCode> {
        match self.store {
            None => Some(ErrorCode::NotInitialized),
            Some(proposal) => proposal_admission(proposal, amount),
        }
    }

    /// Why `propose` is refused, if it is.
    pub open spec fn propose_refusal(
        self,
        amount: u64,
        custody: TransferOutcome,
    ) -> Option<ErrorCode> {
        or_custody(self.propose_admission(amount), custody)
    }

    /// The state after `propose`: on success the slot has moved to the
    /// next generation, the proposer's ballot for it is the newest of the
    /// ledger, and the vault has grown by `amount`; on refusal, the state
    /// before.
    pub open spec fn after_propose(
        self,
        caller: Address,
        proposal_type: ProposalType,
        target_buffer: Address,
        source_buffer: Address,
        new_authority: Address,
        amount: u64,
        custody: TransferOutcome,
    ) -> GovernanceState {
        if self.propose_refusal(amount, custody) is None {
            let armed = self.store->0.armed(
                proposal_type,
                target_buffer,
                source_buffer,
                new_authority,
                amount,
            );
            GovernanceState {
                store: Some(armed),
                ballots: self.ballots.push(Some(ballot_for(caller, armed.proposal_id, amount))),
                vault: self.vault + amount as nat,
                ..self
            }
        } else {
            self
        }
    }

    /// Why `cast_ballot` is refused before any token moves, if it is:
    /// there is no slot, the proposal is closed, the ballot names another
    /// generation, or the running total would not fit.
    pub open spec fn cast_admission(self, proposal_id: u64, amount: u64) -> Option<ErrorCode> {
        match self.store {
            None => Some(ErrorCode::NotInitialized),
            Some(proposal) => vote_admission(proposal, proposal_id, amount),
        }
    }

    /// Why `cast_ballot` is refused, if it is.
    pub open spec fn cast_refusal(
        self,
        proposal_id: u64,
        amount: u64,
        custody: TransferOutcome,
    ) -> Option<ErrorCode> {
        or_custody(self.cast_admission(proposal_id, amount), custody)
    }

    /// The state after `cast_ballot`: on success the running total and the
    /// vault have grown by `amount` and the voter's ballot is the newest of
    /// the ledger; on refusal, the state before.
    pub open spec fn after_cast(
        self,
        caller: Address,
        proposal_id: u64,
        amount: u64,
        custody: TransferOutcome,
    ) -> GovernanceState {
        if self.cast_refusal(proposal_id, amount, custody) is None {
            GovernanceState {
                store: Some(
                    self.store->0.with_votes((self.store->0.num_votes + amount) as u64),
                ),
                ballots: self.ballots.push(Some(ballot_for(caller, proposal_id, amount))),
                vault: self.vault + amount as nat,
                ..self
            }
        } else {
            self
        }
    }

    /// Whether `caller` may take back the ballot under the handle with
    /// index `index`, before any token moves: the amount to refund, or the
    /// refusal.
    pub open spec fn close_admission(self, caller: Address, index: int) -> Result<u64, ErrorCode> {
        match self.store {
            None => Err(ErrorCode::NotInitialized),
            Some(proposal) => match lookup(self.ballots, index) {
                None => Err(ErrorCode::NotFound),
                Some(ballot) => match withdrawal_admission(
                    proposal,
                    ballot,
                    caller,
                    self.signing(),
                ) {
                    Err(e) => Err(e),
                    Ok(_) => Ok(ballot.num_votes),
                },
            },
        }
    }

    /// How `close_ballot` ends, and with what refund.
    pub open spec fn close_result(
        self,
        caller: Address,
        index: int,
        custody: TransferOutcome,
    ) -> Result<u64, ErrorCode> {
        match self.close_admission(caller, index) {
            Err(e) => Err(e),
            Ok(refund) => match custody.spec_refusal() {
                Some(e) => Err(e),
                None => Ok(refund),
            },
        }
    }

    /// The state after `close_ballot`: on success the handle is empty, the
    /// vault has shrunk by the ballot's weight, and the running total has
    /// shrunk by it if the ballot belonged to the slot's generation; on
    /// refusal, the state before.
    pub open spec fn after_close(
        self,
        caller: Address,
        index: int,
        custody: TransferOutcome,
    ) -> GovernanceState {
        if self.close_result(caller, index, custody) is Ok {
            let ballot = self.ballots[index]->0;
            GovernanceState {
                store: Some(self.store->0.uncounted(ballot.proposal_id, ballot.num_votes)),
                ballots: self.ballots.update(index, None),
                vault: (self.vault - ballot.num_votes) as nat,
                ..self
            }
        } else {
            self
        }
    }

    /// Whether `action` may be sent to the authority-management service,
    /// and with which bump seed it is signed.
    pub open spec fn execute_admission(self, action: RequestedAction) -> Result<u8, ErrorCode> {
        match self.store {
            None => Err(ErrorCode::NotInitialized),
            Some(proposal) => admission(proposal, action, self.signing()),
        }
    }

    /// How an execution of `action` ends.
    pub open spec fn execute_result(
        self,
        action: RequestedAction,
        outcome: ActionOutcome,
    ) -> Result<(), ErrorCode> {
        match self.store {
            None => Err(ErrorCode::NotInitialized),
            Some(proposal) => execution_result(proposal, action, self.signing(), outcome),
        }
    }

    /// The state after an execution of `action`: on success the slot is
    /// ratified; on refusal, the state before.
    pub open spec fn after_execute(
        self,
        action: RequestedAction,
        outcome: ActionOutcome,
    ) -> GovernanceState {
        if self.execute_result(action, outcome) is Ok {
            GovernanceState { store: Some(self.store->0.ratified()), ..self }
        } else {
            self
        }
    }

    /// `initialize` keeps the state well formed.
    pub proof fn lemma_initialize_preserves_wf(
        self,
        governance_token_mint: Address,
        approval_threshold: u64,
        proposal_minimum: u64,
    )
        requires
            self.wf(),
        ensures
            self.after_initialize(governance_token_mint, approval_threshold, proposal_minimum).wf(),
    {
    }

    /// `propose` keeps the state well formed.
    pub proof fn lemma_propose_preserves_wf(
        self,
        caller: Address,
        proposal_type: ProposalType,
        target_buffer: Address,
        source_buffer: Address,
        new_authority: Address,
        amount: u64,
        custody: TransferOutcome,
    )
        requires
            self.wf(),
        ensures
            self.after_propose(
                caller,
                proposal_type,
                target_buffer,
                source_buffer,
                new_authority,
                amount,
                custody,
            ).wf(),
    {
        if self.propose_refusal(amount, custody) is None {
            let before = self.store->0;
            let next = (before.proposal_id + 1) as u64;
            let slot = Some(ballot_for(caller, next, amount));
            lemma_locked_push(self.ballots, slot);
            lemma_backing_push(self.ballots, slot, next);
            lemma_backing_of_later_generation(self.ballots, before.proposal_id, next);
            let after = self.ballots.push(slot);
            assert forall|i: int| 0 <= i < after.len() implies (#[trigger] after[i] matches Some(
                ballot,
            ) ==> ballot.proposal_id <= next) by {
                if i < self.ballots.len() {
                    assert(after[i] == self.ballots[i]);
                }
            }
        }
    }

    /// `cast_ballot` keeps the state well formed.
    pub proof fn lemma_cast_preserves_wf(
        self,
        caller: Address,
        proposal_id: u64,
        amount: u64,
        custody: TransferOutcome,
    )
        requires
            self.wf(),
        ensures
            self.after_cast(caller, proposal_id, amount, custody).wf(),
    {
        if self.cast_refusal(proposal_id, amount, custody) is None {
            let slot = Some(ballot_for(caller, proposal_id, amount));
            lemma_locked_push(self.ballots, slot);
            lemma_backing_push(self.ballots, slot, proposal_id);
            let after = self.ballots.push(slot);
            assert forall|i: int| 0 <= i < after.len() implies (#[trigger] after[i] matches Some(
                ballot,
            ) ==> ballot.proposal_id <= proposal_id) by {
                if i < self.ballots.len() {
                    assert(after[i] == self.ballots[i]);
                }
            }
        }
    }

    /// `close_ballot` keeps the state well formed.
    pub proof fn lemma_close_preserves_wf(
        self,
        caller: Address,
        index: int,
        custody: TransferOutcome,
    )
        requires
            self.wf(),
        ensures
            self.after_close(caller, index, custody).wf(),
    {
        if self.close_result(caller, index, custody) is Ok {
            let proposal = self.store->0;
            lemma_locked_close(self.ballots, index);
            lemma_backing_close(self.ballots, index, proposal.proposal_id);
            let after = self.ballots.update(index, None);
            assert forall|i: int| 0 <= i < after.len() implies (#[trigger] after[i] matches Some(
                ballot,
            ) ==> ballot.proposal_id <= proposal.proposal_id) by {
                if i != index {
                    assert(after[i] == self.ballots[i]);
                }
            }
        }
    }

    /// An execution keeps the state well formed.
    pub proof fn lemma_execute_preserves_wf(self, action: RequestedAction, outcome: ActionOutcome)
        requires
            self.wf(),
        ensures
            self.after_execute(action, outcome).wf(),
    {
    }
}

/// A governance system: one slot, the ledger of its ballots and the
/// balance of its vault.
pub struct Governance {
    store: Option<Proposal>,
    ledger: VoteLedger,
    vault: u128,
    authority: (Address, u8),
}

impl View for Governance {
    type V = GovernanceState;

    closed spec fn view(&self) -> GovernanceState {
        GovernanceState {
            store: self.store,
            ballots: self.ledger@,
            vault: self.vault as nat,
            authority: self.authority,
        }
    }
}

impl Governance {
    /// Whether the system is in a state that its operations can reach.
    pub open spec fn wf(&self) -> bool {
        self@.wf()
    }

    /// A system for the program `program_id`, before `initialize`: no
    /// slot, no ballots, an empty vault. The address it acts under is the one
    /// derived from the program identifier; where none can be derived there
    /// is no system, and the answer is `InvalidAuthPda`.
    pub fn new(program_id: &Address) -> (r: Result<Governance, ErrorCode>)
        ensures
            match r {
                Ok(g) => {
                    &&& g.wf()
                    &&& g@.store is None
                    &&& g@.ballots == Seq::<Option<Ballot>>::empty()
                    &&& g@.vault == 0
                    &&& program_address(MULTISIG_PDA_SEED@, program_id@) == Some(
                        (g@.authority.0@, g@.authority.1),
                    )
                },
                Err(e) => {
                    &&& e == ErrorCode::InvalidAuthPda
                    &&& program_address(MULTISIG_PDA_SEED@, program_id@) is None
                },
            },
    {
        match find_authority(program_id) {
            None => Err(ErrorCode::InvalidAuthPda),
            Some(authority) => Ok(
                Governance { store: None, ledger: VoteLedger::new(), vault: 0, authority },
            ),
        }
    }

    /// The slot, once there is one.
    pub fn proposal(&self) -> (p: Option<Proposal>)
        ensures
            p == self@.store,
    {
        self.store
    }

    /// The tokens that the vault holds: the sum of all open ballots, which
    /// may pass what a single ballot can hold.
    pub fn vault_balance(&self) -> (v: u128)
        ensures
            v == self@.vault,
    {
        self.vault
    }

    /// The ballot under `handle`, if it is open.
    pub fn ballot(&self, handle: BallotHandle) -> (b: Option<Ballot>)
        ensures
            b == lookup(self@.ballots, handle.index as int),
    {
        self.ledger.get(handle)
    }

    /// The address that the system acts under and the bump seed that signs
    /// for it.
    pub fn authority(&self) -> (a: (Address, u8))
        ensures
            a == self@.authority,
    {
        self.authority
    }

    fn signing(&self) -> (r: Result<u8, ErrorCode>)
        ensures
            r == self@.signing(),
    {
        Ok(self.authority.1)
    }

    /// Creates the slot: generation 0, closed, no votes. Once only: fails
    /// with `AlreadyInitialized`, and changes nothing, when there is a slot.
    pub fn initialize(
        &mut self,
        governance_token_mint: Address,
        approval_threshold: u64,
        proposal_minimum: u64,
    ) -> (r: Result<(), ErrorCode>)
        requires
            old(self).wf(),
        ensures
            final(self).wf(),
            final(self)@ == old(self)@.after_initialize(
                governance_token_mint,
                approval_threshold,
                proposal_minimum,
            ),
            match r {
                Ok(_) => old(self)@.initialize_refusal() is None,
                Err(e) => old(self)@.initialize_refusal() == Some(e),
            },
    {
        if self.store.is_some() {
            return Err(ErrorCode::AlreadyInitialized);
        }
        self.store = Some(
            Proposal::new(governance_token_mint, approval_threshold, proposal_minimum),
        );
        Ok(())
    }

    /// Says whether `propose` with `amount` has a transfer to ask for:
    /// refuses exactly when `propose` would refuse whatever the custody
    /// service answered.
    pub fn admit_propose(&self, amount: u64) -> (r: Result<(), ErrorCode>)
        ensures
            match r {
                Ok(_) => self@.propose_admission(amount) is None,
                Err(e) => self@.propose_admission(amount) == Some(e),
            },
    {
        match self.store {
            None => Err(ErrorCode::NotInitialized),
            Some(proposal) => admit_proposal(&proposal, amount),
        }
    }

    /// Starts a new proposal that `caller` backs with `amount`, and
    /// returns the handle of the proposer's ballot. `custody` is the answer
    /// to the transfer of `amount` from `caller` into the vault. On any
    /// refusal nothing changes: no ballot, no vote, nothing in the vault.
    pub fn propose(
        &mut self,
        caller: Address,
        proposal_type: ProposalType,
        target_buffer: Address,
        source_buffer: Address,
        new_authority: Address,
        amount: u64,
        custody: TransferOutcome,
    ) -> (r: Result<BallotHandle, ErrorCode>)
        requires
            old(self).wf(),
        ensures
            final(self).wf(),
            final(self)@ == old(self)@.after_propose(
                caller,
                proposal_type,
                target_buffer,
                source_buffer,
                new_authority,
                amount,
                custody,
            ),
            match r {
                Ok(handle) => old(self)@.propose_refusal(amount, custody) is None && handle.index
                    == old(self)@.ballots.len(),
                Err(e) => old(self)@.propose_refusal(amount, custody) == Some(e),
            },
    {
        proof {
            old(self)@.lemma_propose_preserves_wf(
                caller,
                proposal_type,
                target_buffer,
                source_buffer,
                new_authority,
                amount,
                custody,
            );
        }
        self.admit_propose(amount)?;
        let mut proposal = match self.store {
            None => {
                return Err(ErrorCode::NotInitialized);
            },
            Some(proposal) => proposal,
        };
        let ballot = open_proposal(
            &mut proposal,
            caller,
            proposal_type,
            target_buffer,
            source_buffer,
            new_authority,
            amount,
            custody,
        )?;
        let handle = self.ledger.open(ballot.voter_address, ballot.proposal_id, ballot.num_votes);
        proof {
            self.ledger.lemma_len_fits();
            lemma_locked_is_bounded(old(self)@.ballots);
        }
        self.store = Some(proposal);
        self.vault = self.vault + amount as u128;
        Ok(handle)
    }

    /// Says whether `cast_ballot` has a transfer to ask for: refuses
    /// exactly when `cast_ballot` would refuse whatever the custody service
    /// answered.
    pub fn admit_ballot(&self, proposal_id: u64, amount: u64) -> (r: Result<(), ErrorCode>)
        ensures
            match r {
                Ok(_) => self@.cast_admission(proposal_id, amount) is None,
                Err(e) => self@.cast_admission(proposal_id, amount) == Some(e),
            },
    {
        match self.store {
            None => Err(ErrorCode::NotInitialized),
            Some(proposal) => admit_vote(&proposal, proposal_id, amount),
        }
    }

    /// Locks `amount` of `caller`'s stake behind the current proposal,
    /// which the caller names by its generation, and returns the handle of
    /// the new ballot. `custody` is the answer to the transfer of `amount`
    /// from `caller` into the vault. On any refusal nothing changes.
    pub fn cast_ballot(
        &mut self,
        caller: Address,
        proposal_id: u64,
        amount: u64,
        custody: TransferOutcome,
    ) -> (r: Result<BallotHandle, ErrorCode>)
        requires
            old(self).wf(),
        ensures
            final(self).wf(),
            final(self)@ == old(self)@.after_cast(caller, proposal_id, amount, custody),
            match r {
                Ok(handle) => old(self)@.cast_refusal(proposal_id, amount, custody) is None
                    && handle.index == old(self)@.ballots.len(),
                Err(e) => old(self)@.cast_refusal(proposal_id, amount, custody) == Some(e),
            },
    {
        proof {
            old(self)@.lemma_cast_preserves_wf(caller, proposal_id, amount, custody);
        }
        self.admit_ballot(proposal_id, amount)?;
        let mut proposal = match self.store {
            None => {
                return Err(ErrorCode::NotInitialized);
            },
            Some(proposal) => proposal,
        };
        let ballot = count_vote(&mut proposal, caller, proposal_id, amount, custody)?;
        let handle = self.ledger.open(ballot.voter_address, ballot.proposal_id, ballot.num_votes);
        proof {
            self.ledger.lemma_len_fits();
            lemma_locked_is_bounded(old(self)@.ballots);
        }
        self.store = Some(proposal);
        self.vault = self.vault + amount as u128;
        Ok(handle)
    }

    /// Says whether `close_ballot` has a refund to ask for, and how much:
    /// refuses exactly when `close_ballot` would refuse whatever the custody
    /// service answered.
    pub fn admit_close(
        &self,
        caller: &Address,
        handle: BallotHandle,
    ) -> (r: Result<u64, ErrorCode>)
        ensures
            r == self@.close_admission(*caller, handle.index as int),
    {
        match self.store {
            None => Err(ErrorCode::NotInitialized),
            Some(proposal) => match self.ledger.get(handle) {
                None => Err(ErrorCode::NotFound),
                Some(ballot) => {
                    admit_withdrawal(&proposal, &ballot, caller, self.signing())?;
                    Ok(ballot.num_votes)
                },
            },
        }
    }

    /// Gives `caller` the stake of the ballot under `handle` back, in
    /// full, and returns the amount. The running total loses the ballot's
    /// weight only if the ballot belongs to the slot's generation. This works
    /// whether the proposal is open or not. `custody` is the answer to the
    /// transfer of the refund out of the vault. On any refusal nothing
    /// changes.
    pub fn close_ballot(
        &mut self,
        caller: &Address,
        handle: BallotHandle,
        custody: TransferOutcome,
    ) -> (r: Result<u64, ErrorCode>)
        requires
            old(self).wf(),
        ensures
            final(self).wf(),
            final(self)@ == old(self)@.after_close(*caller, handle.index as int, custody),
            r == old(self)@.close_result(*caller, handle.index as int, custody),
    {
        proof {
            old(self)@.lemma_close_preserves_wf(*caller, handle.index as int, custody);
        }
        self.admit_close(caller, handle)?;
        let mut proposal = match self.store {
            None => {
                return Err(ErrorCode::NotInitialized);
            },
            Some(proposal) => proposal,
        };
        let ballot = match self.ledger.get(handle) {
            None => {
                return Err(ErrorCode::NotFound);
            },
            Some(ballot) => ballot,
        };
        let refund = withdraw_and_uncount(&mut proposal, &ballot, caller, self.signing(), custody)?;
        proof {
            lemma_locked_bounds_slot(self.ledger@, handle.index as int);
        }
        match self.ledger.close(handle, caller) {
            Err(e) => Err(e),
            Ok(_) => {
                self.store = Some(proposal);
                self.vault = self.vault - refund as u128;
                Ok(refund)
            },
        }
    }

    /// Says whether `action` may be sent to the authority-management
    /// service, and with which bump seed it is signed: refuses exactly when
    /// `execute` would refuse whatever the service answered.
    pub fn admit_execute(&self, action: &RequestedAction) -> (r: Result<u8, ErrorCode>)
        ensures
            r == self@.execute_admission(*action),
    {
        match self.store {
            None => Err(ErrorCode::NotInitialized),
            Some(proposal) => admit_execution(&proposal, action, self.signing()),
        }
    }

    /// Concludes the execution of `action`: ratifies the proposal if the
    /// action is admitted and the service performed it. `outcome`
    /// is the service's answer. On any refusal nothing changes, and the
    /// proposal can be executed again.
    pub fn execute(
        &mut self,
        action: &RequestedAction,
        outcome: ActionOutcome,
    ) -> (r: Result<(), ErrorCode>)
        requires
            old(self).wf(),
        ensures
            final(self).wf(),
            final(self)@ == old(self)@.after_execute(*action, outcome),
            r == old(self)@.execute_result(*action, outcome),
    {
        let mut proposal = match self.store {
            None => {
                return Err(ErrorCode::NotInitialized);
            },
            Some(proposal) => proposal,
        };
        settle_execution(&mut proposal, action, self.signing(), outcome)?;
        self.store = Some(proposal);
        Ok(())
    }

    /// Hands the upgrade authority over the code behind `target_buffer`
    /// to `new_authority`, if the proposal asks for exactly that and has the
    /// votes. See `execute`.
    pub fn execute_set_authority(
        &mut self,
        target_buffer: Address,
        new_authority: Address,
        outcome: ActionOutcome,
    ) -> (r: Result<(), ErrorCode>)
        requires
            old(self).wf(),
        ensures
            final(self).wf(),
            final(self)@ == old(self)@.after_execute(
                RequestedAction::SetAuthority { target_buffer, new_authority },
                outcome,
            ),
            r == old(self)@.execute_result(
                RequestedAction::SetAuthority { target_buffer, new_authority },
                outcome,
            ),
    {
        self.execute(&RequestedAction::SetAuthority { target_buffer, new_authority }, outcome)
    }

    /// Replaces the code behind `target_buffer` with what `source_buffer`
    /// holds, if the proposal asks for that and has the votes. See `execute`.
    pub fn execute_upgrade_program(
        &mut self,
        target_buffer: Address,
        source_buffer: Address,
        outcome: ActionOutcome,
    ) -> (r: Result<(), ErrorCode>)
        requires
            old(self).wf(),
        ensures
            final(self).wf(),
            final(self)@ == old(self)@.after_execute(
                RequestedAction::UpgradeProgram { target_buffer, source_buffer },
                outcome,
            ),
            r == old(self)@.execute_result(
                RequestedAction::UpgradeProgram { target_buffer, source_buffer },
                outcome,
            ),
    {
        self.execute(&RequestedAction::UpgradeProgram { target_buffer, source_buffer }, outcome)
    }
}

} // verus!

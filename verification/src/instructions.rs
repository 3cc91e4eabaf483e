//! The six instructions of the governance program, on plain values.
//!
//! Each instruction that needs an outside service comes as a pair. The
//! `plan_` function looks at the accounts and says what to ask of the
//! service, or why the instruction is refused before anything is asked. The
//! instruction itself takes the service's answer and moves the records to
//! their next state, or leaves them untouched.

use vstd::prelude::*;
use crate::accountant::{
    admit_proposal, admit_vote, admit_withdrawal, ballot_for, count_vote, open_proposal,
    or_custody, proposal_admission, withdraw_and_uncount, vote_admission, withdrawal_admission,
};
use crate::address::Address;
use crate::authority::{
    authority_verdict, check_authority, program_address, MULTISIG_PDA_SEED,
};
use crate::ballot::Ballot;
use crate::custody::{transfer_tokens, SignedTransfer, Transfer, TransferOutcome};
use crate::error::ErrorCode;
use crate::gate::{
    admission, admit_execution, execution_result, settle_execution, ActionOutcome,
    RequestedAction,
};
use crate::loader::{
    loader_id, loader_payload, set_authority_accounts, set_authority_instruction,
    upgrade_accounts, upgrade_instruction, Instruction,
};
use crate::proposal::{Proposal, ProposalType};

verus! {

/// What an instruction is called with: the program it runs under and the
/// accounts it was given.
#[derive(Debug, PartialEq, Eq)]
pub struct Context<T> {
    pub program_id: Address,
    pub accounts: T,
}

impl<T: Copy> Clone for Context<T> {
    fn clone(&self) -> (c: Self)
        ensures
            c == *self,
    {
        *self
    }
}

impl<T: Copy> Copy for Context<T> {

}

/// The account that stands for the governance authority. It holds no data.
#[derive(Clone, Copy, Debug, Default, PartialEq, Eq)]
pub struct AuthAccount {

}

/// The accounts of `initialize`.
#[derive(Clone, Copy, Debug, PartialEq, Eq)]
pub struct Initialize {
    /// The governance slot; `None` while it has not been created.
    pub proposal: Option<Proposal>,
    /// The token that votes will be counted in.
    pub gigs_mint: Address,
}

/// The accounts of `propose`.
#[derive(Clone, Copy, Debug, PartialEq, Eq)]
pub struct Propose {
    pub signer: Address,
    pub proposal: Proposal,
    /// Where the proposer's ballot goes; `None` while it has not been created.
    pub ballot: Option<Ballot>,
    /// The token account that holds all locked stake.
    pub gigs_vault: Address,
    /// The proposer's token account.
    pub sender_gigs_ata: Address,
}

/// The accounts of `cast_ballot`.
#[derive(Clone, Copy, Debug, PartialEq, Eq)]
pub struct CastBallot {
    pub signer: Address,
    /// Where the ballot goes; `None` while it has not been created.
    pub ballot: Option<Ballot>,
    pub proposal: Proposal,
    /// The token account that holds all locked stake.
    pub gigs_vault: Address,
    /// The voter's token account.
    pub sender_gigs_ata: Address,
}

/// The accounts of `close_ballot`.
#[derive(Clone, Copy, Debug, PartialEq, Eq)]
pub struct CloseBallot {
    pub signer: Address,
    /// The account offered as the vault's authority.
    pub multisig_pda: Address,
    /// The ballot to close; `None` when there is none at the address given.
    pub ballot: Option<Ballot>,
    pub proposal: Proposal,
    /// The token account that holds all locked stake.
    pub gigs_vault: Address,
    /// The token account that receives the refund.
    pub sender_gigs_ata: Address,
}

/// The accounts of `execute_set_authority`.
#[derive(Clone, Copy, Debug, PartialEq, Eq)]
pub struct ExecuteSetAuthority {
    /// The program data whose upgrade authority changes.
    pub target_program_buffer: Address,
    /// The account offered as the present authority.
    pub multisig_pda: Address,
    pub proposal: Proposal,
    pub new_authority: Address,
}

/// The accounts of `execute_upgrade_program`.
#[derive(Clone, Copy, Debug, PartialEq, Eq)]
pub struct ExecuteUpgradeProgram {
    /// The program data that the upgrade writes to.
    pub target_program_buffer: Address,
    pub target_program: Address,
    /// The buffer that holds the new code.
    pub source_buffer: Address,
    /// The caller, who receives the funds that the buffer held.
    pub signer: Address,
    /// The account offered as the upgrade authority.
    pub multisig_pda: Address,
    pub proposal: Proposal,
}

/// An instruction for the loader that the governance authority signs with
/// the seeds it was derived from, `bump_seed` being the last.
#[derive(Debug, PartialEq, Eq)]
pub struct SignedInstruction {
    pub instruction: Instruction,
    pub bump_seed: u8,
}

impl ExecuteSetAuthority {
    /// The action that these accounts ask for.
    pub open spec fn action(self) -> RequestedAction {
        RequestedAction::SetAuthority {
            target_buffer: self.target_program_buffer,
            new_authority: self.new_authority,
        }
    }
}

impl ExecuteUpgradeProgram {
    /// The action that these accounts ask for.
    pub open spec fn action(self) -> RequestedAction {
        RequestedAction::UpgradeProgram {
            target_buffer: self.target_program_buffer,
            source_buffer: self.source_buffer,
        }
    }
}

/// What the check of `offered` as the governance authority of `program_id`
/// comes to.
pub open spec fn authority_of(program_id: Address, offered: Address) -> Result<u8, ErrorCode> {
    authority_verdict(program_address(MULTISIG_PDA_SEED@, program_id@), offered@)
}

/// Creates the governance slot: generation 0, closed, no votes, with the
/// given threshold and minimum and the mint among the accounts as its
/// token. Fails with `AlreadyInitialized`, and changes nothing, when the
/// slot exists.
pub fn initialize(
    ctx: &mut Context<Initialize>,
    approval_threshold: u64,
    proposal_minimum: u64,
) -> (r: Result<(), ErrorCode>)
    ensures
        final(ctx).program_id == old(ctx).program_id,
        final(ctx).accounts.gigs_mint == old(ctx).accounts.gigs_mint,
        match r {
            Ok(_) => old(ctx).accounts.proposal is None && final(ctx).accounts.proposal == Some(
                Proposal::fresh(old(ctx).accounts.gigs_mint, approval_threshold, proposal_minimum),
            ),
            Err(e) => e == ErrorCode::AlreadyInitialized && old(ctx).accounts.proposal is Some
                && final(ctx).accounts.proposal == old(ctx).accounts.proposal,
        },
{
    if ctx.accounts.proposal.is_some() {
        return Err(ErrorCode::AlreadyInitialized);
    }
    ctx.accounts.proposal = Some(
        Proposal::new(ctx.accounts.gigs_mint, approval_threshold, proposal_minimum),
    );
    Ok(())
}

/// Why `propose` is refused before any token moves: there is a ballot at
/// the address given for the new one, the amount is below the minimum, or
/// the generation counter is exhausted.
pub open spec fn propose_admission(accounts: Propose, amount: u64) -> Option<ErrorCode> {
    if accounts.ballot is Some {
        Some(ErrorCode::DuplicateBallot)
    } else {
        proposal_admission(accounts.proposal, amount)
    }
}

/// Says which transfer `propose` needs: `amount` from the proposer's token
/// account into the vault, on the proposer's word. Refuses, so that nothing
/// is transferred, exactly when `propose` would refuse whatever the custody
/// service answered.
pub fn plan_propose(ctx: &Context<Propose>, amount: u64) -> (r: Result<Transfer, ErrorCode>)
    ensures
        match r {
            Ok(t) => propose_admission(ctx.accounts, amount) is None && t == (Transfer {
                from: ctx.accounts.sender_gigs_ata,
                to: ctx.accounts.gigs_vault,
                authority: ctx.accounts.signer,
                amount,
            }),
            Err(e) => propose_admission(ctx.accounts, amount) == Some(e),
        },
{
    if ctx.accounts.ballot.is_some() {
        return Err(ErrorCode::DuplicateBallot);
    }
    admit_proposal(&ctx.accounts.proposal, amount)?;
    Ok(
        transfer_tokens(
            &ctx.accounts.signer,
            ctx.accounts.sender_gigs_ata,
            ctx.accounts.gigs_vault,
            amount,
        ),
    )
}

/// Starts a new proposal, backed by `amount` of the signer's stake. On
/// success the slot holds the next generation, open, with the action
/// recorded and `amount` as its whole backing, and the ballot account holds
/// the signer's ballot for that generation. `custody` is the answer to the
/// transfer that `plan_propose` asked for. On any refusal all accounts stay
/// as they were.
pub fn propose(
    ctx: &mut Context<Propose>,
    proposal_type: ProposalType,
    target_buffer: Address,
    source_buffer: Address,
    new_authority: Address,
    amount: u64,
    custody: TransferOutcome,
) -> (r: Result<(), ErrorCode>)
    ensures
        match r {
            Ok(_) => or_custody(propose_admission(old(ctx).accounts, amount), custody) is None
                && *final(ctx) == (Context {
                program_id: old(ctx).program_id,
                accounts: Propose {
                    proposal: old(ctx).accounts.proposal.armed(
                        proposal_type,
                        target_buffer,
                        source_buffer,
                        new_authority,
                        amount,
                    ),
                    ballot: Some(
                        ballot_for(
                            old(ctx).accounts.signer,
                            (old(ctx).accounts.proposal.proposal_id + 1) as u64,
                            amount,
                        ),
                    ),
                    ..old(ctx).accounts
                },
            }),
            Err(e) => or_custody(propose_admission(old(ctx).accounts, amount), custody) == Some(e)
                && *final(ctx) == *old(ctx),
        },
{
    if ctx.accounts.ballot.is_some() {
        return Err(ErrorCode::DuplicateBallot);
    }
    let mut proposal = ctx.accounts.proposal;
    let ballot = open_proposal(
        &mut proposal,
        ctx.accounts.signer,
        proposal_type,
        target_buffer,
        source_buffer,
        new_authority,
        amount,
        custody,
    )?;
    ctx.accounts.proposal = proposal;
    ctx.accounts.ballot = Some(ballot);
    Ok(())
}

/// Why `cast_ballot` is refused before any token moves: there is a ballot
/// at the address given for the new one, the proposal is closed, the ballot
/// names another generation, or the running total would not fit.
pub open spec fn cast_admission(
    accounts: CastBallot,
    proposal_id: u64,
    amount: u64,
) -> Option<ErrorCode> {
    if accounts.ballot is Some {
        Some(ErrorCode::DuplicateBallot)
    } else {
        vote_admission(accounts.proposal, proposal_id, amount)
    }
}

/// Says which transfer `cast_ballot` needs: `amount` from the voter's
/// token account into the vault, on the voter's word. Refuses, so that
/// nothing is transferred, exactly when `cast_ballot` would refuse whatever
/// the custody service answered.
pub fn plan_cast_ballot(
    ctx: &Context<CastBallot>,
    proposal_id: u64,
    amount: u64,
) -> (r: Result<Transfer, ErrorCode>)
    ensures
        match r {
            Ok(t) => cast_admission(ctx.accounts, proposal_id, amount) is None && t == (Transfer {
                from: ctx.accounts.sender_gigs_ata,
                to: ctx.accounts.gigs_vault,
                authority: ctx.accounts.signer,
                amount,
            }),
            Err(e) => cast_admission(ctx.accounts, proposal_id, amount) == Some(e),
        },
{
    if ctx.accounts.ballot.is_some() {
        return Err(ErrorCode::DuplicateBallot);
    }
    admit_vote(&ctx.accounts.proposal, proposal_id, amount)?;
    Ok(
        transfer_tokens(
            &ctx.accounts.signer,
            ctx.accounts.sender_gigs_ata,
            ctx.accounts.gigs_vault,
            amount,
        ),
    )
}

/// Locks `amount` of the signer's stake behind the current proposal. On
/// success the running total has grown by `amount` and the ballot account
/// holds the signer's ballot for generation `proposal_id`. `custody` is the
/// answer to the transfer that `plan_cast_ballot` asked for. On any refusal
/// all accounts stay as they were.
pub fn cast_ballot(
    ctx: &mut Context<CastBallot>,
    proposal_id: u64,
    amount: u64,
    custody: TransferOutcome,
) -> (r: Result<(), ErrorCode>)
    ensures
        match r {
            Ok(_) => or_custody(cast_admission(old(ctx).accounts, proposal_id, amount), custody)
                is None && *final(ctx) == (Context {
                program_id: old(ctx).program_id,
                accounts: CastBallot {
                    proposal: old(ctx).accounts.proposal.with_votes(
                        (old(ctx).accounts.proposal.num_votes + amount) as u64,
                    ),
                    ballot: Some(ballot_for(old(ctx).accounts.signer, proposal_id, amount)),
                    ..old(ctx).accounts
                },
            }),
            Err(e) => or_custody(cast_admission(old(ctx).accounts, proposal_id, amount), custody)
                == Some(e) && *final(ctx) == *old(ctx),
        },
{
    if ctx.accounts.ballot.is_some() {
        return Err(ErrorCode::DuplicateBallot);
    }
    let mut proposal = ctx.accounts.proposal;
    let ballot = count_vote(&mut proposal, ctx.accounts.signer, proposal_id, amount, custody)?;
    ctx.accounts.proposal = proposal;
    ctx.accounts.ballot = Some(ballot);
    Ok(())
}

/// Whether `close_ballot` may ask for the refund, and with which bump seed
/// the vault's authority signs it. It is refused with `NotFound` when there
/// is no ballot, with `Unauthorized` when the signer does not own it, with
/// `Underflow` when it claims more than the running total holds, and with
/// `InvalidAuthPda` when `authority`, the check of the account offered as
/// the vault's authority, failed.
pub open spec fn close_admission(
    accounts: CloseBallot,
    authority: Result<u8, ErrorCode>,
) -> Result<u8, ErrorCode> {
    match accounts.ballot {
        None => Err(ErrorCode::NotFound),
        Some(ballot) => withdrawal_admission(
            accounts.proposal,
            ballot,
            accounts.signer,
            authority,
        ),
    }
}

/// How `close_ballot` ends, and with what refund.
pub open spec fn close_result(
    accounts: CloseBallot,
    authority: Result<u8, ErrorCode>,
    custody: TransferOutcome,
) -> Result<u64, ErrorCode> {
    match close_admission(accounts, authority) {
        Err(e) => Err(e),
        Ok(_) => match custody.spec_refusal() {
            Some(e) => Err(e),
            None => Ok(accounts.ballot->0.num_votes),
        },
    }
}

/// The accounts after `close_ballot` has gone through: the ballot is gone,
/// and its weight has left the running total if it belonged to the current
/// generation.
pub open spec fn closed(accounts: CloseBallot) -> CloseBallot {
    CloseBallot {
        ballot: None,
        proposal: accounts.proposal.uncounted(
            accounts.ballot->0.proposal_id,
            accounts.ballot->0.num_votes,
        ),
        ..accounts
    }
}

/// Says which transfer `close_ballot` needs: the ballot's whole weight out
/// of the vault into the signer's token account, signed by the vault's
/// authority. Refuses, so that nothing is transferred, exactly when
/// `close_ballot` would refuse whatever the custody service answered.
pub fn plan_close_ballot(ctx: &Context<CloseBallot>) -> (r: Result<SignedTransfer, ErrorCode>)
    ensures
        match r {
            Ok(t) => close_admission(
                ctx.accounts,
                authority_of(ctx.program_id, ctx.accounts.multisig_pda),
            ) == Ok::<u8, ErrorCode>(t.bump_seed) && t.transfer == (Transfer {
                from: ctx.accounts.gigs_vault,
                to: ctx.accounts.sender_gigs_ata,
                authority: ctx.accounts.multisig_pda,
                amount: ctx.accounts.ballot->0.num_votes,
            }),
            Err(e) => close_admission(
                ctx.accounts,
                authority_of(ctx.program_id, ctx.accounts.multisig_pda),
            ) == Err::<u8, ErrorCode>(e),
        },
{
    match ctx.accounts.ballot {
        None => Err(ErrorCode::NotFound),
        Some(ballot) => {
            let authority = check_authority(&ctx.accounts.multisig_pda, &ctx.program_id);
            let bump_seed = admit_withdrawal(
                &ctx.accounts.proposal,
                &ballot,
                &ctx.accounts.signer,
                authority,
            )?;
            Ok(
                SignedTransfer {
                    transfer: transfer_tokens(
                        &ctx.accounts.multisig_pda,
                        ctx.accounts.gigs_vault,
                        ctx.accounts.sender_gigs_ata,
                        ballot.num_votes,
                    ),
                    bump_seed,
                },
            )
        },
    }
}

/// Closes a ballot, given what the check of the vault's authority came
/// to. See `close_ballot`, which makes that check itself.
pub fn close_ballot_checked(
    ctx: &mut Context<CloseBallot>,
    authority: Result<u8, ErrorCode>,
    custody: TransferOutcome,
) -> (r: Result<u64, ErrorCode>)
    ensures
        r == close_result(old(ctx).accounts, authority, custody),
        final(ctx).program_id == old(ctx).program_id,
        r is Ok ==> final(ctx).accounts == closed(old(ctx).accounts),
        r is Err ==> final(ctx).accounts == old(ctx).accounts,
{
    match ctx.accounts.ballot {
        None => Err(ErrorCode::NotFound),
        Some(ballot) => {
            let mut proposal = ctx.accounts.proposal;
            let refund = withdraw_and_uncount(
                &mut proposal,
                &ballot,
                &ctx.accounts.signer,
                authority,
                custody,
            )?;
            ctx.accounts.proposal = proposal;
            ctx.accounts.ballot = None;
            Ok(refund)
        },
    }
}

/// Gives the signer's stake back. On success the ballot is gone, its
/// whole weight is refunded, and the running total has lost that weight if,
/// and only if, the ballot belonged to the current generation. This works
/// whether the proposal is open or not. `custody` is the answer to the
/// transfer that `plan_close_ballot` asked for. Returns the amount refunded.
/// On any refusal all accounts stay as they were.
pub fn close_ballot(
    ctx: &mut Context<CloseBallot>,
    custody: TransferOutcome,
) -> (r: Result<u64, ErrorCode>)
    ensures
        r == close_result(
            old(ctx).accounts,
            authority_of(old(ctx).program_id, old(ctx).accounts.multisig_pda),
            custody,
        ),
        final(ctx).program_id == old(ctx).program_id,
        r is Ok ==> final(ctx).accounts == closed(old(ctx).accounts),
        r is Err ==> final(ctx).accounts == old(ctx).accounts,
{
    let authority = check_authority(&ctx.accounts.multisig_pda, &ctx.program_id);
    close_ballot_checked(ctx, authority, custody)
}

/// Says which instruction `execute_set_authority` needs the loader to
/// run, and with which bump seed the governance authority signs it.
/// Refuses, so that nothing is sent, exactly when `execute_set_authority`
/// would refuse whatever the loader answered.
pub fn plan_set_authority(
    ctx: &Context<ExecuteSetAuthority>,
) -> (r: Result<SignedInstruction, ErrorCode>)
    ensures
        match r {
            Ok(signed) => admission(
                ctx.accounts.proposal,
                ctx.accounts.action(),
                authority_of(ctx.program_id, ctx.accounts.multisig_pda),
            ) == Ok::<u8, ErrorCode>(signed.bump_seed) && signed.instruction@.program_id
                == loader_id() && signed.instruction@.accounts == set_authority_accounts(
                ctx.accounts.target_program_buffer@,
                ctx.accounts.multisig_pda@,
                ctx.accounts.new_authority@,
            ) && signed.instruction@.data == loader_payload(ProposalType::SetAuthority),
            Err(e) => admission(
                ctx.accounts.proposal,
                ctx.accounts.action(),
                authority_of(ctx.program_id, ctx.accounts.multisig_pda),
            ) == Err::<u8, ErrorCode>(e),
        },
{
    let action = RequestedAction::SetAuthority {
        target_buffer: ctx.accounts.target_program_buffer,
        new_authority: ctx.accounts.new_authority,
    };
    let authority = check_authority(&ctx.accounts.multisig_pda, &ctx.program_id);
    let bump_seed = admit_execution(&ctx.accounts.proposal, &action, authority)?;
    Ok(
        SignedInstruction {
            instruction: set_authority_instruction(
                &ctx.accounts.target_program_buffer,
                &ctx.accounts.multisig_pda,
                &ctx.accounts.new_authority,
            ),
            bump_seed,
        },
    )
}

/// Hands the upgrade authority over the program data that the proposal
/// names to the account that the proposal names; with any other program
/// data or any other account among the accounts it is refused with
/// `InvalidProposalParams`. On success the proposal is ratified: closed,
/// with nothing else changed.
/// `outcome` is the loader's answer to the instruction that
/// `plan_set_authority` asked for. On any refusal, a failure of the loader
/// included, the proposal stays open and all accounts stay as they were.
pub fn execute_set_authority(
    ctx: &mut Context<ExecuteSetAuthority>,
    outcome: ActionOutcome,
) -> (r: Result<(), ErrorCode>)
    ensures
        r == execution_result(
            old(ctx).accounts.proposal,
            old(ctx).accounts.action(),
            authority_of(old(ctx).program_id, old(ctx).accounts.multisig_pda),
            outcome,
        ),
        r is Ok ==> *final(ctx) == (Context {
            program_id: old(ctx).program_id,
            accounts: ExecuteSetAuthority {
                proposal: old(ctx).accounts.proposal.ratified(),
                ..old(ctx).accounts
            },
        }),
        r is Err ==> *final(ctx) == *old(ctx),
{
    let action = RequestedAction::SetAuthority {
        target_buffer: ctx.accounts.target_program_buffer,
        new_authority: ctx.accounts.new_authority,
    };
    let authority = check_authority(&ctx.accounts.multisig_pda, &ctx.program_id);
    let mut proposal = ctx.accounts.proposal;
    settle_execution(&mut proposal, &action, authority, outcome)?;
    ctx.accounts.proposal = proposal;
    Ok(())
}

/// Says which instruction `execute_upgrade_program` needs the loader to
/// run, and with which bump seed the governance authority signs it.
/// Refuses, so that nothing is sent, exactly when `execute_upgrade_program`
/// would refuse whatever the loader answered.
pub fn plan_upgrade_program(
    ctx: &Context<ExecuteUpgradeProgram>,
) -> (r: Result<SignedInstruction, ErrorCode>)
    ensures
        match r {
            Ok(signed) => admission(
                ctx.accounts.proposal,
                ctx.accounts.action(),
                authority_of(ctx.program_id, ctx.accounts.multisig_pda),
            ) == Ok::<u8, ErrorCode>(signed.bump_seed) && signed.instruction@.program_id
                == loader_id() && signed.instruction@.accounts == upgrade_accounts(
                ctx.accounts.target_program_buffer@,
                ctx.accounts.target_program@,
                ctx.accounts.source_buffer@,
                ctx.accounts.signer@,
                ctx.accounts.multisig_pda@,
            ) && signed.instruction@.data == loader_payload(ProposalType::UpgradeProgram),
            Err(e) => admission(
                ctx.accounts.proposal,
                ctx.accounts.action(),
                authority_of(ctx.program_id, ctx.accounts.multisig_pda),
            ) == Err::<u8, ErrorCode>(e),
        },
{
    let action = RequestedAction::UpgradeProgram {
        target_buffer: ctx.accounts.target_program_buffer,
        source_buffer: ctx.accounts.source_buffer,
    };
    let authority = check_authority(&ctx.accounts.multisig_pda, &ctx.program_id);
    let bump_seed = admit_execution(&ctx.accounts.proposal, &action, authority)?;
    Ok(
        SignedInstruction {
            instruction: upgrade_instruction(
                &ctx.accounts.target_program_buffer,
                &ctx.accounts.target_program,
                &ctx.accounts.source_buffer,
                &ctx.accounts.signer,
                &ctx.accounts.multisig_pda,
            ),
            bump_seed,
        },
    )
}

/// Replaces the program's code with the buffer that the proposal names.
/// On success the proposal is ratified: closed, with nothing else changed.
/// `outcome` is the loader's answer to the instruction that
/// `plan_upgrade_program` asked for. On any refusal, a failure of the loader
/// included, the proposal stays open and all accounts stay as they were.
pub fn execute_upgrade_program(
    ctx: &mut Context<ExecuteUpgradeProgram>,
    outcome: ActionOutcome,
) -> (r: Result<(), ErrorCode>)
    ensures
        r == execution_result(
            old(ctx).accounts.proposal,
            old(ctx).accounts.action(),
            authority_of(old(ctx).program_id, old(ctx).accounts.multisig_pda),
            outcome,
        ),
        r is Ok ==> *final(ctx) == (Context {
            program_id: old(ctx).program_id,
            accounts: ExecuteUpgradeProgram {
                proposal: old(ctx).accounts.proposal.ratified(),
                ..old(ctx).accounts
            },
        }),
        r is Err ==> *final(ctx) == *old(ctx),
{
    let action = RequestedAction::UpgradeProgram {
        target_buffer: ctx.accounts.target_program_buffer,
        source_buffer: ctx.accounts.source_buffer,
    };
    let authority = check_authority(&ctx.accounts.multisig_pda, &ctx.program_id);
    let mut proposal = ctx.accounts.proposal;
    settle_execution(&mut proposal, &action, authority, outcome)?;
    ctx.accounts.proposal = proposal;
    Ok(())
}

} // verus!

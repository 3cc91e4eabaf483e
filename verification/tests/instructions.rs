use gdupgrader::address::Address;
use gdupgrader::authority::{check_authority, find_authority, match_authority, MULTISIG_PDA_SEED};
use gdupgrader::ballot::Ballot;
use gdupgrader::custody::{SignedTransfer, Transfer, TransferOutcome};
use gdupgrader::error::ErrorCode;
use gdupgrader::gate::ActionOutcome;
use gdupgrader::instructions::{
    cast_ballot, close_ballot, close_ballot_checked, execute_set_authority,
    execute_upgrade_program, initialize, plan_cast_ballot, plan_close_ballot, plan_propose,
    plan_set_authority, plan_upgrade_program, propose, AuthAccount, CastBallot, CloseBallot,
    Context, ExecuteSetAuthority, ExecuteUpgradeProgram, Initialize, Propose,
};
use gdupgrader::loader::{set_authority_instruction, upgrade_instruction, AccountMeta};
use gdupgrader::proposal::{Proposal, ProposalType};
use solana_program::bpf_loader_upgradeable;
use solana_program::instruction::{AccountMeta as ChainMeta, Instruction as ChainInstruction};
use solana_program::loader_upgradeable_instruction::UpgradeableLoaderInstruction;
use solana_program::pubkey::Pubkey;
use solana_program::sysvar;

const PROGRAM: u8 = 77;
const MINT: u8 = 1;
const VAULT: u8 = 2;

fn a(n: u8) -> Address {
    Address { bytes: [n; 32] }
}

fn chain(address: &Address) -> Pubkey {
    Pubkey::new_from_array(address.bytes)
}

fn authority() -> (Address, u8) {
    find_authority(&a(PROGRAM)).unwrap()
}

fn armed(kind: ProposalType, votes: u64) -> Proposal {
    let mut p = Proposal::new(a(MINT), 100, 10);
    p.arm(kind, a(20), a(21), a(22), votes).unwrap();
    p
}

fn propose_accounts(proposal: Proposal) -> Context<Propose> {
    Context {
        program_id: a(PROGRAM),
        accounts: Propose {
            signer: a(10),
            proposal,
            ballot: None,
            gigs_vault: a(VAULT),
            sender_gigs_ata: a(11),
        },
    }
}

fn close_accounts(proposal: Proposal, ballot: Option<Ballot>, signer: u8) -> Context<CloseBallot> {
    Context {
        program_id: a(PROGRAM),
        accounts: CloseBallot {
            signer: a(signer),
            multisig_pda: authority().0,
            ballot,
            proposal,
            gigs_vault: a(VAULT),
            sender_gigs_ata: a(11),
        },
    }
}

fn set_authority_accounts(proposal: Proposal) -> Context<ExecuteSetAuthority> {
    Context {
        program_id: a(PROGRAM),
        accounts: ExecuteSetAuthority {
            target_program_buffer: a(20),
            multisig_pda: authority().0,
            proposal,
            new_authority: a(22),
        },
    }
}

fn upgrade_accounts(proposal: Proposal) -> Context<ExecuteUpgradeProgram> {
    Context {
        program_id: a(PROGRAM),
        accounts: ExecuteUpgradeProgram {
            target_program_buffer: a(20),
            target_program: a(31),
            source_buffer: a(21),
            signer: a(10),
            multisig_pda: authority().0,
            proposal,
        },
    }
}

#[test]
fn authority_is_the_program_derived_address_of_the_seed() {
    let program = a(PROGRAM);
    let (expected, bump) = Pubkey::find_program_address(&[b"multisig_pda_seed"], &chain(&program));
    assert_eq!(find_authority(&program), Some((Address { bytes: expected.to_bytes() }, bump)));
    assert_ne!(find_authority(&program).unwrap().0, program);
    assert_ne!(find_authority(&a(78)), find_authority(&program));
    assert_eq!(&MULTISIG_PDA_SEED[..], &b"multisig_pda_seed"[..]);
    assert_eq!(
        Pubkey::create_program_address(&[&MULTISIG_PDA_SEED[..], &[bump]], &chain(&program)),
        Ok(expected)
    );
}

#[test]
fn authority_check_accepts_only_the_derived_address() {
    let (address, bump) = authority();
    assert_eq!(check_authority(&address, &a(PROGRAM)), Ok(bump));
    assert_eq!(check_authority(&a(PROGRAM), &a(PROGRAM)), Err(ErrorCode::InvalidAuthPda));
    assert_eq!(check_authority(&address, &a(78)), Err(ErrorCode::InvalidAuthPda));
    let mut near = address;
    near.bytes[31] ^= 1;
    assert_eq!(check_authority(&near, &a(PROGRAM)), Err(ErrorCode::InvalidAuthPda));
    assert_eq!(match_authority(Some((a(5), 250)), &a(5)), Ok(250));
    assert_eq!(match_authority(Some((a(5), 250)), &a(6)), Err(ErrorCode::InvalidAuthPda));
    assert_eq!(match_authority(None, &a(5)), Err(ErrorCode::InvalidAuthPda));
}

#[test]
fn initialize_creates_the_slot_once() {
    let mut ctx =
        Context { program_id: a(PROGRAM), accounts: Initialize { proposal: None, gigs_mint: a(MINT) } };
    assert_eq!(initialize(&mut ctx, 100, 10), Ok(()));
    let created = ctx.accounts.proposal.unwrap();
    assert_eq!(
        created,
        Proposal {
            is_active: false,
            proposal_id: 0,
            num_votes: 0,
            proposal_type: ProposalType::UpgradeProgram,
            target_buffer: a(0),
            source_buffer: a(0),
            new_authority: a(0),
            governance_token_mint: a(MINT),
            approval_threshold: 100,
            proposal_minimum: 10,
        }
    );
    assert_eq!(initialize(&mut ctx, 1, 1), Err(ErrorCode::AlreadyInitialized));
    assert_eq!(ctx.accounts.proposal, Some(created));
    assert_eq!(AuthAccount::default(), AuthAccount {});
}

#[test]
fn propose_then_cast_then_execute_then_close_on_accounts() {
    let mut init =
        Context { program_id: a(PROGRAM), accounts: Initialize { proposal: None, gigs_mint: a(MINT) } };
    initialize(&mut init, 100, 10).unwrap();

    let mut p = propose_accounts(init.accounts.proposal.unwrap());
    assert_eq!(
        plan_propose(&p, 10),
        Ok(Transfer { from: a(11), to: a(VAULT), authority: a(10), amount: 10 })
    );
    assert_eq!(
        propose(
            &mut p,
            ProposalType::UpgradeProgram,
            a(20),
            a(21),
            a(0),
            10,
            TransferOutcome::Completed
        ),
        Ok(())
    );
    assert_eq!(p.accounts.proposal.num_votes, 10);
    assert!(p.accounts.proposal.is_active);
    assert_eq!(p.accounts.proposal.proposal_id, 1);
    assert_eq!(
        p.accounts.ballot,
        Some(Ballot { proposal_id: 1, num_votes: 10, voter_address: a(10) })
    );

    let mut c = Context {
        program_id: a(PROGRAM),
        accounts: CastBallot {
            signer: a(12),
            ballot: None,
            proposal: p.accounts.proposal,
            gigs_vault: a(VAULT),
            sender_gigs_ata: a(13),
        },
    };
    assert_eq!(
        plan_cast_ballot(&c, 1, 95),
        Ok(Transfer { from: a(13), to: a(VAULT), authority: a(12), amount: 95 })
    );
    assert_eq!(cast_ballot(&mut c, 1, 95, TransferOutcome::Completed), Ok(()));
    assert_eq!(c.accounts.proposal.num_votes, 105);
    let cast = c.accounts.ballot.unwrap();
    assert_eq!(cast, Ballot { proposal_id: 1, num_votes: 95, voter_address: a(12) });

    let mut e = upgrade_accounts(c.accounts.proposal);
    assert!(plan_upgrade_program(&e).is_ok());
    assert_eq!(execute_upgrade_program(&mut e, ActionOutcome::Performed), Ok(()));
    assert!(!e.accounts.proposal.is_active);
    assert_eq!(e.accounts.proposal.num_votes, 105);

    let mut x = close_accounts(e.accounts.proposal, Some(cast), 12);
    assert_eq!(close_ballot(&mut x, TransferOutcome::Completed), Ok(95));
    assert_eq!(x.accounts.proposal.num_votes, 10);
    assert!(!x.accounts.proposal.is_active);
    assert_eq!(x.accounts.ballot, None);
}

#[test]
fn propose_is_refused_below_the_minimum_and_on_a_used_ballot_account() {
    let fresh = Proposal::new(a(MINT), 100, 10);
    let mut p = propose_accounts(fresh);
    let before = p;
    assert_eq!(plan_propose(&p, 9), Err(ErrorCode::InsufficientAmount));
    assert_eq!(
        propose(&mut p, ProposalType::SetAuthority, a(0), a(0), a(3), 9, TransferOutcome::Completed),
        Err(ErrorCode::InsufficientAmount)
    );
    assert_eq!(p, before);
    assert_eq!(
        propose(&mut p, ProposalType::SetAuthority, a(0), a(0), a(3), 10, TransferOutcome::Rejected),
        Err(ErrorCode::TransferFailed)
    );
    assert_eq!(p, before);
    p.accounts.ballot = Some(Ballot { proposal_id: 0, num_votes: 0, voter_address: a(10) });
    assert_eq!(plan_propose(&p, 10), Err(ErrorCode::DuplicateBallot));
    assert_eq!(
        propose(&mut p, ProposalType::SetAuthority, a(0), a(0), a(3), 10, TransferOutcome::Completed),
        Err(ErrorCode::DuplicateBallot)
    );
    assert_eq!(p.accounts.proposal, fresh);
}

#[test]
fn cast_ballot_checks_activity_then_generation() {
    let mut c = Context {
        program_id: a(PROGRAM),
        accounts: CastBallot {
            signer: a(12),
            ballot: None,
            proposal: Proposal::new(a(MINT), 100, 10),
            gigs_vault: a(VAULT),
            sender_gigs_ata: a(13),
        },
    };
    assert_eq!(plan_cast_ballot(&c, 5, 1), Err(ErrorCode::ProposalNotActive));
    assert_eq!(
        cast_ballot(&mut c, 5, 1, TransferOutcome::Completed),
        Err(ErrorCode::ProposalNotActive)
    );
    c.accounts.proposal = armed(ProposalType::SetAuthority, 10);
    c.accounts.proposal.arm(ProposalType::SetAuthority, a(20), a(21), a(22), 10).unwrap();
    let before = c;
    assert_eq!(
        cast_ballot(&mut c, 1, 1, TransferOutcome::Completed),
        Err(ErrorCode::InvalidProposalId)
    );
    assert_eq!(
        cast_ballot(&mut c, 2, 1, TransferOutcome::InsufficientFunds),
        Err(ErrorCode::InsufficientFunds)
    );
    assert_eq!(c, before);
    assert_eq!(cast_ballot(&mut c, 2, 1, TransferOutcome::Completed), Ok(()));
    assert_eq!(c.accounts.proposal.num_votes, 11);
    assert_eq!(cast_ballot(&mut c, 2, 1, TransferOutcome::Completed), Err(ErrorCode::DuplicateBallot));
}

#[test]
fn close_ballot_plans_a_refund_signed_by_the_authority() {
    let ballot = Ballot { proposal_id: 1, num_votes: 95, voter_address: a(12) };
    let x = close_accounts(armed(ProposalType::SetAuthority, 105), Some(ballot), 12);
    let (address, bump) = authority();
    assert_eq!(
        plan_close_ballot(&x),
        Ok(SignedTransfer {
            transfer: Transfer { from: a(VAULT), to: a(11), authority: address, amount: 95 },
            bump_seed: bump,
        })
    );
}

#[test]
fn close_ballot_refusals_leave_the_accounts_alone() {
    let ballot = Ballot { proposal_id: 1, num_votes: 95, voter_address: a(12) };
    let open = armed(ProposalType::SetAuthority, 105);

    let mut x = close_accounts(open, None, 12);
    assert_eq!(plan_close_ballot(&x), Err(ErrorCode::NotFound));
    assert_eq!(close_ballot(&mut x, TransferOutcome::Completed), Err(ErrorCode::NotFound));

    let mut x = close_accounts(open, Some(ballot), 13);
    let before = x;
    assert_eq!(plan_close_ballot(&x), Err(ErrorCode::Unauthorized));
    assert_eq!(close_ballot(&mut x, TransferOutcome::Completed), Err(ErrorCode::Unauthorized));
    assert_eq!(x, before);

    let mut x = close_accounts(open, Some(ballot), 12);
    x.accounts.multisig_pda = a(99);
    let before = x;
    assert_eq!(plan_close_ballot(&x), Err(ErrorCode::InvalidAuthPda));
    assert_eq!(close_ballot(&mut x, TransferOutcome::Completed), Err(ErrorCode::InvalidAuthPda));
    assert_eq!(x, before);

    let mut x = close_accounts(open, Some(Ballot { num_votes: 106, ..ballot }), 12);
    assert_eq!(close_ballot(&mut x, TransferOutcome::Completed), Err(ErrorCode::Underflow));

    let mut x = close_accounts(open, Some(ballot), 12);
    let before = x;
    assert_eq!(close_ballot(&mut x, TransferOutcome::Rejected), Err(ErrorCode::TransferFailed));
    assert_eq!(x, before);
    assert_eq!(
        close_ballot_checked(&mut x, Err(ErrorCode::InvalidAuthPda), TransferOutcome::Completed),
        Err(ErrorCode::InvalidAuthPda)
    );
    assert_eq!(close_ballot_checked(&mut x, Ok(1), TransferOutcome::Completed), Ok(95));
    assert_eq!(x.accounts.proposal.num_votes, 10);
}

#[test]
fn close_ballot_of_an_earlier_generation_keeps_the_total() {
    let stale = Ballot { proposal_id: 1, num_votes: 95, voter_address: a(12) };
    let mut newer = armed(ProposalType::SetAuthority, 105);
    newer.arm(ProposalType::UpgradeProgram, a(20), a(21), a(22), 30).unwrap();
    let mut x = close_accounts(newer, Some(stale), 12);
    assert_eq!(close_ballot(&mut x, TransferOutcome::Completed), Ok(95));
    assert_eq!(x.accounts.proposal, newer);
    assert_eq!(x.accounts.ballot, None);
}

#[test]
fn execute_set_authority_checks_then_ratifies() {
    let mut e = set_authority_accounts(armed(ProposalType::SetAuthority, 99));
    assert_eq!(
        execute_set_authority(&mut e, ActionOutcome::Performed),
        Err(ErrorCode::InsufficientApprovalVotes)
    );
    assert_eq!(plan_set_authority(&e).map(|_| ()), Err(ErrorCode::InsufficientApprovalVotes));

    let mut e = set_authority_accounts(armed(ProposalType::SetAuthority, 100));
    e.accounts.new_authority = a(23);
    assert_eq!(
        execute_set_authority(&mut e, ActionOutcome::Performed),
        Err(ErrorCode::InvalidProposalParams)
    );

    let mut e = set_authority_accounts(armed(ProposalType::SetAuthority, 100));
    e.accounts.target_program_buffer = a(30);
    let before = e;
    assert_eq!(plan_set_authority(&e).map(|_| ()), Err(ErrorCode::InvalidProposalParams));
    assert_eq!(
        execute_set_authority(&mut e, ActionOutcome::Performed),
        Err(ErrorCode::InvalidProposalParams)
    );
    assert_eq!(e, before);
    assert!(e.accounts.proposal.is_active);

    let mut e = set_authority_accounts(armed(ProposalType::UpgradeProgram, 100));
    assert_eq!(
        execute_set_authority(&mut e, ActionOutcome::Performed),
        Err(ErrorCode::InvalidProposalType)
    );

    let mut e = set_authority_accounts(armed(ProposalType::SetAuthority, 100));
    e.accounts.multisig_pda = a(99);
    assert_eq!(
        execute_set_authority(&mut e, ActionOutcome::Performed),
        Err(ErrorCode::InvalidAuthPda)
    );
    assert_eq!(plan_set_authority(&e).map(|_| ()), Err(ErrorCode::InvalidAuthPda));

    let mut e = set_authority_accounts(armed(ProposalType::SetAuthority, 100));
    let before = e;
    assert_eq!(
        execute_set_authority(&mut e, ActionOutcome::Failed),
        Err(ErrorCode::ExternalActionFailed)
    );
    assert_eq!(e, before);
    assert_eq!(execute_set_authority(&mut e, ActionOutcome::Performed), Ok(()));
    assert_eq!(e.accounts.proposal, Proposal { is_active: false, ..before.accounts.proposal });
    assert_eq!(
        execute_set_authority(&mut e, ActionOutcome::Performed),
        Err(ErrorCode::ProposalNotActive)
    );
}

#[test]
fn execute_upgrade_program_compares_both_buffers() {
    let mut e = upgrade_accounts(armed(ProposalType::UpgradeProgram, 100));
    e.accounts.source_buffer = a(9);
    assert_eq!(
        execute_upgrade_program(&mut e, ActionOutcome::Performed),
        Err(ErrorCode::InvalidProposalParams)
    );
    let mut e = upgrade_accounts(armed(ProposalType::UpgradeProgram, 100));
    e.accounts.target_program_buffer = a(9);
    assert_eq!(
        execute_upgrade_program(&mut e, ActionOutcome::Performed),
        Err(ErrorCode::InvalidProposalParams)
    );
    let mut e = upgrade_accounts(armed(ProposalType::SetAuthority, 100));
    assert_eq!(
        execute_upgrade_program(&mut e, ActionOutcome::Performed),
        Err(ErrorCode::InvalidProposalType)
    );
    let mut e = upgrade_accounts(armed(ProposalType::UpgradeProgram, 99));
    assert_eq!(
        execute_upgrade_program(&mut e, ActionOutcome::Performed),
        Err(ErrorCode::InsufficientApprovalVotes)
    );
    let mut e = upgrade_accounts(armed(ProposalType::UpgradeProgram, 100));
    assert_eq!(execute_upgrade_program(&mut e, ActionOutcome::Performed), Ok(()));
    assert!(!e.accounts.proposal.is_active);
}

fn as_chain(accounts: &[AccountMeta]) -> Vec<ChainMeta> {
    accounts
        .iter()
        .map(|m| ChainMeta {
            pubkey: chain(&m.pubkey),
            is_signer: m.is_signer,
            is_writable: m.is_writable,
        })
        .collect()
}

#[test]
fn set_authority_instruction_is_what_the_loader_expects() {
    let (pda, bump) = authority();
    let e = set_authority_accounts(armed(ProposalType::SetAuthority, 100));
    let signed = plan_set_authority(&e).unwrap();
    assert_eq!(signed.bump_seed, bump);
    assert_eq!(signed.instruction, set_authority_instruction(&a(20), &pda, &a(22)));
    let expected = ChainInstruction::new_with_bincode(
        bpf_loader_upgradeable::id(),
        &UpgradeableLoaderInstruction::SetAuthority,
        vec![
            ChainMeta::new(chain(&a(20)), false),
            ChainMeta::new_readonly(chain(&pda), true),
            ChainMeta::new_readonly(chain(&a(22)), true),
        ],
    );
    assert_eq!(chain(&signed.instruction.program_id), expected.program_id);
    assert_eq!(as_chain(&signed.instruction.accounts), expected.accounts);
    assert_eq!(signed.instruction.data, expected.data);
    assert_eq!(signed.instruction.data, vec![4, 0, 0, 0]);
}

#[test]
fn upgrade_instruction_is_what_the_loader_expects() {
    let (pda, bump) = authority();
    let e = upgrade_accounts(armed(ProposalType::UpgradeProgram, 100));
    let signed = plan_upgrade_program(&e).unwrap();
    assert_eq!(signed.bump_seed, bump);
    assert_eq!(signed.instruction, upgrade_instruction(&a(20), &a(31), &a(21), &a(10), &pda));
    let expected = ChainInstruction::new_with_bincode(
        bpf_loader_upgradeable::id(),
        &UpgradeableLoaderInstruction::Upgrade,
        vec![
            ChainMeta::new(chain(&a(20)), false),
            ChainMeta::new(chain(&a(31)), false),
            ChainMeta::new(chain(&a(21)), false),
            ChainMeta::new(chain(&a(10)), false),
            ChainMeta::new_readonly(sysvar::rent::id(), false),
            ChainMeta::new_readonly(sysvar::clock::id(), false),
            ChainMeta::new_readonly(chain(&pda), true),
        ],
    );
    assert_eq!(chain(&signed.instruction.program_id), expected.program_id);
    assert_eq!(as_chain(&signed.instruction.accounts), expected.accounts);
    assert_eq!(signed.instruction.data, expected.data);
    assert_eq!(signed.instruction.data, vec![3, 0, 0, 0]);
}

#[test]
fn well_known_addresses_have_the_bytes_of_their_names() {
    let ix = upgrade_instruction(&a(20), &a(31), &a(21), &a(10), &a(40));
    assert_eq!(
        ix.program_id.bytes,
        [
            2, 168, 246, 145, 78, 136, 161, 176, 226, 16, 21, 62, 247, 99, 174, 43, 0, 194, 185,
            61, 22, 193, 36, 210, 192, 83, 122, 16, 4, 128, 0, 0
        ]
    );
    assert_eq!(
        ix.accounts[4].pubkey.bytes,
        [
            6, 167, 213, 23, 25, 44, 92, 81, 33, 140, 201, 76, 61, 74, 241, 127, 88, 218, 238, 8,
            155, 161, 253, 68, 227, 219, 217, 138, 0, 0, 0, 0
        ]
    );
    assert_eq!(
        ix.accounts[5].pubkey.bytes,
        [
            6, 167, 213, 23, 24, 199, 116, 201, 40, 86, 99, 152, 105, 29, 94, 182, 139, 94, 184,
            163, 155, 75, 109, 92, 115, 85, 91, 33, 0, 0, 0, 0
        ]
    );
    assert_eq!(chain(&ix.program_id).to_string(), "BPFLoaderUpgradeab1e11111111111111111111111");
    assert_eq!(chain(&ix.accounts[4].pubkey).to_string(), "SysvarRent111111111111111111111111111111111");
    assert_eq!(chain(&ix.accounts[5].pubkey).to_string(), "SysvarC1ock11111111111111111111111111111111");
    assert_eq!(AccountMeta::new(a(1), true), AccountMeta { pubkey: a(1), is_signer: true, is_writable: true });
    assert_eq!(
        AccountMeta::new_readonly(a(1), false),
        AccountMeta { pubkey: a(1), is_signer: false, is_writable: false }
    );
}

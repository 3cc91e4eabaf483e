use gdupgrader::address::Address;
use gdupgrader::authority::find_authority;
use gdupgrader::custody::TransferOutcome;
use gdupgrader::error::ErrorCode;
use gdupgrader::gate::{ActionOutcome, RequestedAction};
use gdupgrader::governance::Governance;
use gdupgrader::ledger::{BallotHandle, VoteLedger};
use gdupgrader::proposal::{Proposal, ProposalType};

fn id(n: u8) -> Address {
    Address { bytes: [n; 32] }
}

fn started(approval_threshold: u64, proposal_minimum: u64) -> Governance {
    let mut g = Governance::new(&id(200)).unwrap();
    g.initialize(id(1), approval_threshold, proposal_minimum).unwrap();
    g
}

#[test]
fn new_system_has_no_slot_and_an_empty_vault() {
    let g = Governance::new(&id(200)).unwrap();
    assert_eq!(g.proposal(), None);
    assert_eq!(g.vault_balance(), 0);
    assert_eq!(g.ballot(BallotHandle { index: 0 }), None);
    assert_eq!(Some(g.authority()), find_authority(&id(200)));
    assert_ne!(g.authority().0, id(200));
}

#[test]
fn initialize_sets_generation_zero_and_refuses_a_second_call() {
    let mut g = Governance::new(&id(200)).unwrap();
    assert_eq!(g.initialize(id(1), 100, 10), Ok(()));
    let expected = Proposal {
        is_active: false,
        proposal_id: 0,
        num_votes: 0,
        proposal_type: ProposalType::UpgradeProgram,
        target_buffer: id(0),
        source_buffer: id(0),
        new_authority: id(0),
        governance_token_mint: id(1),
        approval_threshold: 100,
        proposal_minimum: 10,
    };
    assert_eq!(g.proposal(), Some(expected));
    assert_eq!(g.initialize(id(2), 5, 1), Err(ErrorCode::AlreadyInitialized));
    assert_eq!(g.proposal(), Some(expected));
}

#[test]
fn operations_before_initialize_are_refused() {
    let mut g = Governance::new(&id(200)).unwrap();
    assert_eq!(g.admit_propose(10), Err(ErrorCode::NotInitialized));
    assert_eq!(
        g.propose(
            id(10),
            ProposalType::SetAuthority,
            id(0),
            id(0),
            id(3),
            10,
            TransferOutcome::Completed
        ),
        Err(ErrorCode::NotInitialized)
    );
    assert_eq!(
        g.cast_ballot(id(10), 0, 10, TransferOutcome::Completed),
        Err(ErrorCode::NotInitialized)
    );
    assert_eq!(
        g.close_ballot(&id(10), BallotHandle { index: 0 }, TransferOutcome::Completed),
        Err(ErrorCode::NotInitialized)
    );
    assert_eq!(
        g.execute_set_authority(id(0), id(3), ActionOutcome::Performed),
        Err(ErrorCode::NotInitialized)
    );
    assert_eq!(g.vault_balance(), 0);
}

#[test]
fn propose_overwrites_the_action_and_keeps_the_configuration() {
    let mut g = started(100, 10);
    g.propose(
        id(10),
        ProposalType::UpgradeProgram,
        id(20),
        id(21),
        id(22),
        60,
        TransferOutcome::Completed,
    )
    .unwrap();
    g.propose(id(11), ProposalType::SetAuthority, id(30), id(31), id(32), 12, TransferOutcome::Completed)
        .unwrap();
    assert_eq!(
        g.proposal(),
        Some(Proposal {
            is_active: true,
            proposal_id: 2,
            num_votes: 12,
            proposal_type: ProposalType::SetAuthority,
            target_buffer: id(30),
            source_buffer: id(31),
            new_authority: id(32),
            governance_token_mint: id(1),
            approval_threshold: 100,
            proposal_minimum: 10,
        })
    );
    assert_eq!(g.vault_balance(), 72);
}

#[test]
fn cast_ballot_needs_an_open_proposal() {
    let mut g = started(100, 10);
    assert_eq!(g.admit_ballot(0, 5), Err(ErrorCode::ProposalNotActive));
    assert_eq!(
        g.cast_ballot(id(10), 0, 5, TransferOutcome::Completed),
        Err(ErrorCode::ProposalNotActive)
    );
    assert_eq!(g.vault_balance(), 0);
}

#[test]
fn custody_failures_are_passed_on_and_change_nothing() {
    let mut g = started(100, 10);
    assert_eq!(
        g.propose(
            id(10),
            ProposalType::SetAuthority,
            id(0),
            id(0),
            id(3),
            10,
            TransferOutcome::InsufficientFunds
        ),
        Err(ErrorCode::InsufficientFunds)
    );
    assert_eq!(
        g.propose(
            id(10),
            ProposalType::SetAuthority,
            id(0),
            id(0),
            id(3),
            10,
            TransferOutcome::Rejected
        ),
        Err(ErrorCode::TransferFailed)
    );
    assert_eq!(g.proposal().unwrap().proposal_id, 0);
    assert_eq!(g.vault_balance(), 0);
    let h = g
        .propose(id(10), ProposalType::SetAuthority, id(0), id(0), id(3), 10, TransferOutcome::Completed)
        .unwrap();
    assert_eq!(
        g.cast_ballot(id(11), 1, 4, TransferOutcome::Rejected),
        Err(ErrorCode::TransferFailed)
    );
    assert_eq!(
        g.close_ballot(&id(10), h, TransferOutcome::InsufficientFunds),
        Err(ErrorCode::InsufficientFunds)
    );
    assert_eq!(g.proposal().unwrap().num_votes, 10);
    assert_eq!(g.vault_balance(), 10);
    assert!(g.ballot(h).is_some());
}

#[test]
fn only_the_owner_closes_a_ballot_and_only_once() {
    let mut g = started(100, 10);
    let h = g
        .propose(id(10), ProposalType::SetAuthority, id(0), id(0), id(3), 10, TransferOutcome::Completed)
        .unwrap();
    assert_eq!(g.admit_close(&id(11), h), Err(ErrorCode::Unauthorized));
    assert_eq!(
        g.close_ballot(&id(11), h, TransferOutcome::Completed),
        Err(ErrorCode::Unauthorized)
    );
    assert_eq!(g.vault_balance(), 10);
    assert_eq!(g.admit_close(&id(10), h), Ok(10));
    assert_eq!(g.close_ballot(&id(10), h, TransferOutcome::Completed), Ok(10));
    assert_eq!(g.close_ballot(&id(10), h, TransferOutcome::Completed), Err(ErrorCode::NotFound));
    assert_eq!(
        g.close_ballot(&id(10), BallotHandle { index: 77 }, TransferOutcome::Completed),
        Err(ErrorCode::NotFound)
    );
    assert_eq!(g.vault_balance(), 0);
}

#[test]
fn running_total_overflow_is_refused_and_the_vault_counts_on() {
    let mut g = started(100, 10);
    g.propose(
        id(10),
        ProposalType::SetAuthority,
        id(0),
        id(0),
        id(3),
        u64::MAX - 5,
        TransferOutcome::Completed,
    )
    .unwrap();
    assert_eq!(g.admit_ballot(1, 6), Err(ErrorCode::Overflow));
    assert_eq!(g.cast_ballot(id(11), 1, 6, TransferOutcome::Completed), Err(ErrorCode::Overflow));
    assert_eq!(g.vault_balance(), u128::from(u64::MAX) - 5);
    assert_eq!(g.cast_ballot(id(11), 1, 5, TransferOutcome::Completed).map(|h| h.index), Ok(1));
    assert_eq!(g.vault_balance(), u128::from(u64::MAX));
    assert_eq!(g.proposal().unwrap().num_votes, u64::MAX);
    assert_eq!(g.admit_propose(10), Ok(()));
    assert_eq!(
        g.propose(id(12), ProposalType::SetAuthority, id(0), id(0), id(3), 10, TransferOutcome::Completed)
            .map(|h| h.index),
        Ok(2)
    );
    assert_eq!(g.vault_balance(), u128::from(u64::MAX) + 10);
    assert_eq!(g.proposal().unwrap().num_votes, 10);
    assert_eq!(g.close_ballot(&id(10), BallotHandle { index: 0 }, TransferOutcome::Completed), Ok(u64::MAX - 5));
    assert_eq!(g.vault_balance(), 15);
    assert_eq!(g.proposal().unwrap().num_votes, 10);
}

#[test]
fn execution_is_checked_in_the_order_closed_kind_targets_votes() {
    let mut g = started(100, 10);
    let set = RequestedAction::SetAuthority { target_buffer: id(2), new_authority: id(3) };
    assert_eq!(g.admit_execute(&set), Err(ErrorCode::ProposalNotActive));
    g.propose(id(10), ProposalType::SetAuthority, id(2), id(0), id(3), 10, TransferOutcome::Completed)
        .unwrap();
    assert_eq!(
        g.execute_upgrade_program(id(2), id(0), ActionOutcome::Performed),
        Err(ErrorCode::InvalidProposalType)
    );
    assert_eq!(
        g.execute_set_authority(id(2), id(4), ActionOutcome::Performed),
        Err(ErrorCode::InvalidProposalParams)
    );
    assert_eq!(g.admit_execute(&set), Err(ErrorCode::InsufficientApprovalVotes));
    g.cast_ballot(id(11), 1, 90, TransferOutcome::Completed).unwrap();
    let bump = g.authority().1;
    assert_eq!(g.admit_execute(&set), Ok(bump));
    assert_eq!(
        g.admit_execute(&RequestedAction::SetAuthority { target_buffer: id(5), new_authority: id(3) }),
        Err(ErrorCode::InvalidProposalParams)
    );
    assert_eq!(g.execute(&set, ActionOutcome::Performed), Ok(()));
}

#[test]
fn set_authority_on_another_target_than_the_approved_one_is_refused() {
    let mut g = started(100, 10);
    g.propose(id(10), ProposalType::SetAuthority, id(2), id(0), id(3), 500, TransferOutcome::Completed)
        .unwrap();
    let before = g.proposal();
    assert_eq!(
        g.execute_set_authority(id(5), id(3), ActionOutcome::Performed),
        Err(ErrorCode::InvalidProposalParams)
    );
    assert_eq!(
        g.execute_set_authority(id(0), id(3), ActionOutcome::Performed),
        Err(ErrorCode::InvalidProposalParams)
    );
    assert_eq!(g.proposal(), before);
    assert!(g.proposal().unwrap().is_active);
    assert_eq!(g.execute_set_authority(id(2), id(3), ActionOutcome::Performed), Ok(()));
    assert!(!g.proposal().unwrap().is_active);
}

#[test]
fn ledger_hands_out_fresh_handles_and_keeps_closed_ones_empty() {
    let mut ledger = VoteLedger::new();
    assert_eq!(ledger.len(), 0);
    let a = ledger.open(id(1), 3, 40);
    let b = ledger.open(id(2), 3, 2);
    assert_eq!((a.index, b.index), (0, 1));
    assert_eq!(ledger.get(b).unwrap().voter_address, id(2));
    assert_eq!(ledger.close(a, &id(2)), Err(ErrorCode::Unauthorized));
    let closed = ledger.close(a, &id(1)).unwrap();
    assert_eq!((closed.proposal_id, closed.num_votes, closed.voter_address), (3, 40, id(1)));
    assert_eq!(ledger.get(a), None);
    assert_eq!(ledger.close(a, &id(1)), Err(ErrorCode::NotFound));
    let c = ledger.open(id(1), 4, 1);
    assert_eq!(c.index, 2);
    assert_eq!(ledger.len(), 3);
}

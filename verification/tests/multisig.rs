use multisig::action::{Action, CallData, EsdtCallData, MultisigError, PerformOutcome, Role};
use multisig::multisig_propose::MultisigProposeModule;
use multisig::multisig_state::Multisig;

const ALICE: u64 = 1;
const BOB: u64 = 2;
const CAROL: u64 = 3;
const DAVID: u64 = 4;

fn engine(quorum: usize, board: &[u64]) -> Multisig {
    Multisig::new(quorum, board.to_vec()).expect("board and quorum are consistent")
}

#[test]
fn new_rejects_zero_quorum() {
    assert_eq!(
        Multisig::new(0, vec![ALICE, BOB]).err(),
        Some(MultisigError::InvalidQuorum)
    );
}

#[test]
fn new_rejects_quorum_beyond_board() {
    assert_eq!(
        Multisig::new(3, vec![ALICE, BOB]).err(),
        Some(MultisigError::InvalidQuorum)
    );
}

#[test]
fn new_collapses_duplicate_board_members() {
    assert_eq!(
        Multisig::new(2, vec![ALICE, ALICE]).err(),
        Some(MultisigError::InvalidQuorum)
    );
    let m = engine(1, &[ALICE, ALICE]);
    assert_eq!(m.get_board_member_count(), 1);
    assert_eq!(m.get_role(ALICE), Role::BoardMember);
}

#[test]
fn new_registers_initial_board() {
    let m = engine(2, &[ALICE, BOB]);
    assert_eq!(m.get_role(ALICE), Role::BoardMember);
    assert_eq!(m.get_role(BOB), Role::BoardMember);
    assert_eq!(m.get_role(CAROL), Role::NoRole);
    assert_eq!(m.get_board_member_count(), 2);
    assert_eq!(m.get_quorum(), 2);
    assert_eq!(m.get_action_count(), 0);
}

#[test]
fn stranger_cannot_propose() {
    let mut m = engine(2, &[ALICE, BOB]);
    assert_eq!(
        m.propose_add_board_member(CAROL, DAVID),
        Err(MultisigError::PermissionDenied)
    );
    assert_eq!(m.get_action_count(), 0);
}

#[test]
fn removed_user_cannot_propose() {
    let mut m = engine(1, &[ALICE, BOB]);
    let id = m.propose_remove_user(ALICE, BOB).unwrap();
    m.perform_action(id).unwrap();
    assert_eq!(m.get_role(BOB), Role::NoRole);
    assert_eq!(
        m.propose_change_quorum(BOB, 1),
        Err(MultisigError::PermissionDenied)
    );
}

#[test]
fn board_member_proposal_is_self_signed() {
    let mut m = engine(2, &[ALICE, BOB]);
    let id = m.propose_add_proposer(ALICE, CAROL).unwrap();
    assert_eq!(id, 1);
    assert!(m.signed(ALICE, id));
    assert!(!m.signed(BOB, id));
}

#[test]
fn proposer_proposal_has_empty_signer_set() {
    let mut m = engine(1, &[ALICE]);
    let grant = m.propose_add_proposer(ALICE, BOB).unwrap();
    m.perform_action(grant).unwrap();
    assert_eq!(m.get_role(BOB), Role::Proposer);
    let id = m.propose_change_quorum(BOB, 1).unwrap();
    assert!(!m.signed(BOB, id));
    assert!(!m.signed(ALICE, id));
}

#[test]
fn proposer_cannot_sign() {
    let mut m = engine(1, &[ALICE]);
    let grant = m.propose_add_proposer(ALICE, BOB).unwrap();
    m.perform_action(grant).unwrap();
    let id = m.propose_change_quorum(BOB, 1).unwrap();
    assert_eq!(m.sign(BOB, id), Err(MultisigError::PermissionDenied));
}

#[test]
fn sign_unknown_action_fails() {
    let mut m = engine(2, &[ALICE, BOB]);
    assert_eq!(m.sign(ALICE, 1), Err(MultisigError::ActionNotFound));
    assert_eq!(m.sign(ALICE, 0), Err(MultisigError::ActionNotFound));
}

#[test]
fn sign_is_idempotent() {
    let mut m = engine(2, &[ALICE, BOB]);
    let id = m.propose_add_proposer(ALICE, CAROL).unwrap();
    assert_eq!(m.sign(BOB, id), Ok(()));
    assert_eq!(m.sign(BOB, id), Ok(()));
    assert!(m.signed(BOB, id));
    assert!(m.is_quorum_reached(id));
}

#[test]
fn unsign_is_idempotent() {
    let mut m = engine(2, &[ALICE, BOB]);
    let id = m.propose_add_proposer(ALICE, CAROL).unwrap();
    m.sign(BOB, id).unwrap();
    assert_eq!(m.unsign(BOB, id), Ok(()));
    assert_eq!(m.unsign(BOB, id), Ok(()));
    assert!(!m.signed(BOB, id));
    assert!(!m.is_quorum_reached(id));
}

#[test]
fn unsign_withdraws_approval() {
    let mut m = engine(2, &[ALICE, BOB]);
    let id = m.propose_add_proposer(ALICE, CAROL).unwrap();
    m.sign(BOB, id).unwrap();
    assert!(m.is_quorum_reached(id));
    m.unsign(ALICE, id).unwrap();
    assert!(!m.is_quorum_reached(id));
    assert_eq!(m.perform_action(id), Err(MultisigError::QuorumNotReached));
}

#[test]
fn quorum_revalidates_roles_of_signers() {
    let mut m = engine(2, &[ALICE, BOB, CAROL]);
    let id = m.propose_change_quorum(ALICE, 2).unwrap();
    m.sign(BOB, id).unwrap();
    assert!(m.is_quorum_reached(id));

    let removal = m.propose_remove_user(BOB, ALICE).unwrap();
    m.sign(CAROL, removal).unwrap();
    m.perform_action(removal).unwrap();
    assert_eq!(m.get_role(ALICE), Role::NoRole);

    // Alice stays recorded as a signer, but no longer counts.
    assert!(m.signed(ALICE, id));
    assert!(!m.is_quorum_reached(id));
    assert_eq!(m.perform_action(id), Err(MultisigError::QuorumNotReached));
}

#[test]
fn perform_retires_the_record() {
    let mut m = engine(2, &[ALICE, BOB]);
    let id = m.propose_add_proposer(ALICE, CAROL).unwrap();
    m.sign(BOB, id).unwrap();
    assert!(m.get_pending_action(id).is_some());
    assert_eq!(m.perform_action(id), Ok(PerformOutcome::Applied));
    assert!(m.get_pending_action(id).is_none());
    assert_eq!(m.perform_action(id), Err(MultisigError::ActionNotFound));
    // The id is never reused.
    let next = m.propose_add_proposer(BOB, DAVID).unwrap();
    assert_eq!(next, 2);
}

#[test]
fn perform_without_quorum_fails() {
    let mut m = engine(2, &[ALICE, BOB]);
    let id = m.propose_add_proposer(ALICE, CAROL).unwrap();
    assert_eq!(m.perform_action(id), Err(MultisigError::QuorumNotReached));
    // The record stays for a later retry.
    assert!(m.get_pending_action(id).is_some());
    m.sign(BOB, id).unwrap();
    assert_eq!(m.perform_action(id), Ok(PerformOutcome::Applied));
}

#[test]
fn change_quorum_bounds() {
    let mut m = engine(1, &[ALICE, BOB]);
    let zero = m.propose_change_quorum(ALICE, 0).unwrap();
    assert_eq!(m.perform_action(zero), Err(MultisigError::InvalidQuorum));
    let too_big = m.propose_change_quorum(ALICE, 3).unwrap();
    assert_eq!(m.perform_action(too_big), Err(MultisigError::InvalidQuorum));
    // Exactly the board count is allowed.
    let exact = m.propose_change_quorum(ALICE, 2).unwrap();
    assert_eq!(m.perform_action(exact), Ok(PerformOutcome::Applied));
    assert_eq!(m.get_quorum(), 2);
}

#[test]
fn remove_user_guards_the_quorum() {
    let mut m = engine(2, &[ALICE, BOB]);
    let id = m.propose_remove_user(ALICE, BOB).unwrap();
    m.sign(BOB, id).unwrap();
    assert_eq!(m.perform_action(id), Err(MultisigError::LastBoardMemberError));
    // The failed attempt keeps the record and the registry.
    assert_eq!(m.get_role(BOB), Role::BoardMember);
    assert!(m.get_pending_action(id).is_some());
}

#[test]
fn remove_proposer_leaves_board_intact() {
    let mut m = engine(2, &[ALICE, BOB]);
    let grant = m.propose_add_proposer(ALICE, CAROL).unwrap();
    m.sign(BOB, grant).unwrap();
    m.perform_action(grant).unwrap();
    let id = m.propose_remove_user(ALICE, CAROL).unwrap();
    m.sign(BOB, id).unwrap();
    assert_eq!(m.perform_action(id), Ok(PerformOutcome::Applied));
    assert_eq!(m.get_role(CAROL), Role::NoRole);
    assert_eq!(m.get_board_member_count(), 2);
}

#[test]
fn demotion_to_proposer_guards_the_quorum() {
    let mut m = engine(2, &[ALICE, BOB]);
    let id = m.propose_add_proposer(ALICE, BOB).unwrap();
    m.sign(BOB, id).unwrap();
    assert_eq!(m.perform_action(id), Err(MultisigError::LastBoardMemberError));
    assert_eq!(m.get_role(BOB), Role::BoardMember);
}

#[test]
fn promotion_to_board_member() {
    let mut m = engine(1, &[ALICE]);
    let grant = m.propose_add_proposer(ALICE, BOB).unwrap();
    m.perform_action(grant).unwrap();
    let promote = m.propose_add_board_member(ALICE, BOB).unwrap();
    m.perform_action(promote).unwrap();
    assert_eq!(m.get_role(BOB), Role::BoardMember);
    assert_eq!(m.get_board_member_count(), 2);
}

#[test]
fn add_proposer_then_sign_then_perform() {
    // Quorum 2, board {Alice, Bob}: Alice proposes AddProposer(Carol),
    // which is auto-signed; Bob signs; execution succeeds.
    let mut m = engine(2, &[ALICE, BOB]);
    let id = m.propose_add_proposer(ALICE, CAROL).unwrap();
    assert!(m.signed(ALICE, id));
    m.sign(BOB, id).unwrap();
    assert_eq!(m.perform_action(id), Ok(PerformOutcome::Applied));
    assert_eq!(m.get_role(CAROL), Role::Proposer);
    assert!(m.get_pending_action(id).is_none());
}

#[test]
fn change_quorum_beyond_board_fails_despite_full_approval() {
    // Quorum 2, board {Alice, Bob}: even with both signatures, a quorum of 3
    // cannot be installed while only 2 board members exist.
    let mut m = engine(2, &[ALICE, BOB]);
    let id = m.propose_change_quorum(ALICE, 3).unwrap();
    m.sign(BOB, id).unwrap();
    assert_eq!(m.perform_action(id), Err(MultisigError::InvalidQuorum));
    assert_eq!(m.get_quorum(), 2);
    assert!(m.get_pending_action(id).is_some());
}

#[test]
fn transfer_execute_outcome_carries_the_payload() {
    let mut m = engine(1, &[ALICE]);
    let id = m
        .propose_transfer_execute(
            ALICE,
            DAVID,
            vec![0x01, 0x00],
            Some(b"deposit".to_vec()),
            vec![b"arg1".to_vec(), b"arg2".to_vec()],
        )
        .unwrap();
    let outcome = m.perform_action(id).unwrap();
    let expected = CallData {
        to: DAVID,
        egld_amount: vec![0x01, 0x00],
        endpoint_name: b"deposit".to_vec(),
        arguments: vec![b"arg1".to_vec(), b"arg2".to_vec()],
    };
    assert_eq!(outcome, PerformOutcome::Transfer(expected));
    assert!(m.get_pending_action(id).is_none());
}

#[test]
fn bare_transfer_has_empty_endpoint_name() {
    let mut m = engine(1, &[ALICE]);
    let id = m
        .propose_transfer_execute(ALICE, BOB, vec![0x2a], None, vec![])
        .unwrap();
    match m.perform_action(id).unwrap() {
        PerformOutcome::Transfer(data) => {
            assert!(data.endpoint_name.is_empty());
            assert!(data.arguments.is_empty());
            assert_eq!(data.egld_amount, vec![0x2a]);
        }
        other => panic!("expected a transfer outcome, got {:?}", other),
    }
}

#[test]
fn esdt_transfer_execute_outcome_carries_the_payload() {
    let mut m = engine(1, &[ALICE]);
    let id = m
        .propose_esdt_transfer_execute(
            ALICE,
            CAROL,
            b"TOKEN-123456".to_vec(),
            vec![0xff],
            Some(b"stake".to_vec()),
            vec![b"x".to_vec()],
        )
        .unwrap();
    let outcome = m.perform_action(id).unwrap();
    let expected = EsdtCallData {
        to: CAROL,
        token: b"TOKEN-123456".to_vec(),
        amount: vec![0xff],
        endpoint_name: b"stake".to_vec(),
        arguments: vec![b"x".to_vec()],
    };
    assert_eq!(outcome, PerformOutcome::EsdtTransfer(expected));
}

#[test]
fn prepare_call_data_builds_the_payload() {
    let m = engine(1, &[ALICE]);
    let data = m.prepare_call_data(BOB, vec![1, 2], None, vec![vec![3]]);
    assert_eq!(data.to, BOB);
    assert_eq!(data.egld_amount, vec![1, 2]);
    assert!(data.endpoint_name.is_empty());
    assert_eq!(data.arguments, vec![vec![3]]);
    let esdt = m.prepare_transfer_esdt_data(
        BOB,
        b"TKN-abcdef".to_vec(),
        vec![9],
        Some(b"call".to_vec()),
        vec![],
    );
    assert_eq!(esdt.token, b"TKN-abcdef".to_vec());
    assert_eq!(esdt.endpoint_name, b"call".to_vec());
}

#[test]
fn propose_action_directly() {
    let mut m = engine(2, &[ALICE, BOB]);
    let id = m
        .propose_action(ALICE, Action::AddBoardMember(CAROL))
        .unwrap();
    m.sign(BOB, id).unwrap();
    m.perform_action(id).unwrap();
    assert_eq!(m.get_role(CAROL), Role::BoardMember);
    assert_eq!(m.get_board_member_count(), 3);
}

#[test]
fn error_messages_are_stable() {
    assert_eq!(MultisigError::PermissionDenied.message(), "permission denied");
    assert_eq!(MultisigError::ActionNotFound.message(), "action does not exist");
    assert_eq!(
        MultisigError::QuorumNotReached.message(),
        "quorum has not been reached"
    );
    assert_eq!(MultisigError::InvalidQuorum.message(), "invalid quorum");
    assert_eq!(
        MultisigError::LastBoardMemberError.message(),
        "quorum cannot exceed board size"
    );
}

use smart_wallet::{
    append_transaction, approve, create_smart_wallet, execute_transaction, propose, unapprove,
    ErrorCode, Progress, Pubkey, SmartWallet, TXAccountMeta, TXInstruction, Transaction,
};

fn key(n: u8) -> Pubkey {
    Pubkey::new_from_array([n; 32])
}

fn wallet_of_three(threshold: u64, minimum_delay: i64) -> SmartWallet {
    create_smart_wallet(
        key(100),
        key(101),
        254,
        5,
        vec![key(1), key(2), key(3)],
        threshold,
        minimum_delay,
    )
    .unwrap()
}

fn instruction(n: u8) -> TXInstruction {
    TXInstruction {
        program_id: key(50),
        keys: vec![TXAccountMeta { pubkey: key(51), is_signer: true, is_writable: n % 2 == 0 }],
        data: vec![n, n, n],
    }
}

fn blank() -> TXInstruction {
    TXInstruction { program_id: key(0), keys: vec![], data: vec![] }
}

#[test]
fn proposed_transaction_holds_what_it_was_given() {
    let mut wallet = wallet_of_three(2, 0);
    let tx = propose(&mut wallet, key(2), vec![instruction(1), instruction(2)], None, 1_000)
        .unwrap();
    assert_eq!(
        tx,
        Transaction {
            smart_wallet: key(100),
            index: 0,
            proposer: key(2),
            instructions: vec![instruction(1), instruction(2)],
            signers: vec![false, true, false],
            owner_set_seqno: 0,
            eta: None,
            executor: None,
            executed_at: None,
        }
    );
    assert_eq!(wallet.num_transactions, 1);
    assert_eq!(tx.tally(), 1);
}

#[test]
fn proposals_take_consecutive_indices() {
    let mut wallet = wallet_of_three(2, 0);
    for expected in 0..5u64 {
        let tx = propose(&mut wallet, key(3), vec![], None, 10).unwrap();
        assert_eq!(tx.index, expected);
        assert_eq!(wallet.num_transactions, expected + 1);
        assert_eq!(tx.signers, vec![false, false, true]);
    }
}

#[test]
fn proposal_remembers_the_owner_set_seqno() {
    let mut wallet = wallet_of_three(2, 0);
    wallet.change_threshold(3).unwrap();
    wallet.set_owners(vec![key(1), key(2), key(3), key(4)]).unwrap();
    let tx = propose(&mut wallet, key(4), vec![], None, 10).unwrap();
    assert_eq!(tx.owner_set_seqno, 2);
    assert_eq!(tx.signers, vec![false, false, false, true]);
}

#[test]
fn propose_rejects_a_stranger() {
    let mut wallet = wallet_of_three(2, 0);
    let before = wallet.clone();
    assert_eq!(
        propose(&mut wallet, key(9), vec![instruction(1)], None, 1_000),
        Err(ErrorCode::InvalidOwner)
    );
    assert_eq!(wallet, before);
    assert_eq!(
        propose(&mut wallet, key(9), vec![instruction(1)], Some(5), 1_000),
        Err(ErrorCode::InvalidOwner)
    );
    assert_eq!(wallet, before);
}

#[test]
fn propose_checks_eta_against_minimum_delay() {
    let mut wallet = wallet_of_three(2, 3_600);
    assert_eq!(
        propose(&mut wallet, key(1), vec![], Some(4_000), 1_000),
        Err(ErrorCode::InvalidETA)
    );
    assert_eq!(
        propose(&mut wallet, key(1), vec![], Some(4_599), 1_000),
        Err(ErrorCode::InvalidETA)
    );
    assert_eq!(wallet.num_transactions, 0);
    let tx = propose(&mut wallet, key(1), vec![], Some(4_600), 1_000).unwrap();
    assert_eq!(tx.eta, Some(4_600));
    assert_eq!(wallet.num_transactions, 1);
}

#[test]
fn propose_checks_eta_against_maximum_delay() {
    let mut wallet = wallet_of_three(2, 0);
    assert!(propose(&mut wallet, key(1), vec![], Some(1_000 + 31_536_000), 1_000).is_ok());
    assert_eq!(
        propose(&mut wallet, key(1), vec![], Some(1_000 + 31_536_001), 1_000),
        Err(ErrorCode::InvalidETA)
    );
    assert_eq!(
        propose(&mut wallet, key(1), vec![], Some(i64::MAX), 1_000),
        Err(ErrorCode::InvalidETA)
    );
    assert!(propose(&mut wallet, key(1), vec![], Some(1_000), 1_000).is_ok());
    assert_eq!(
        propose(&mut wallet, key(1), vec![], Some(999), 1_000),
        Err(ErrorCode::InvalidETA)
    );
}

#[test]
fn propose_checks_eta_without_overflow() {
    let mut wallet = wallet_of_three(2, 3_600);
    assert_eq!(
        propose(&mut wallet, key(1), vec![], Some(i64::MAX), i64::MAX),
        Err(ErrorCode::InvalidETA)
    );
    assert_eq!(
        propose(&mut wallet, key(1), vec![], Some(i64::MIN), i64::MAX),
        Err(ErrorCode::InvalidETA)
    );
    assert!(propose(&mut wallet, key(1), vec![], Some(i64::MAX), i64::MAX - 3_600).is_ok());
    assert!(propose(&mut wallet, key(1), vec![], Some(i64::MIN + 3_600), i64::MIN).is_ok());
}

#[test]
fn propose_without_eta_needs_a_wallet_without_delay() {
    let mut delayed = wallet_of_three(2, 1);
    assert_eq!(
        propose(&mut delayed, key(1), vec![], None, 1_000),
        Err(ErrorCode::InvalidETA)
    );
    let mut prompt = wallet_of_three(2, 0);
    let tx = propose(&mut prompt, key(1), vec![], None, 1_000).unwrap();
    assert_eq!(tx.eta, None);
}

#[test]
fn propose_rejects_when_the_index_would_overflow() {
    let mut wallet = wallet_of_three(2, 0);
    wallet.num_transactions = u64::MAX;
    assert_eq!(
        propose(&mut wallet, key(1), vec![], None, 1_000),
        Err(ErrorCode::IntegerOverflow)
    );
    assert_eq!(wallet.num_transactions, u64::MAX);
    wallet.num_transactions = u64::MAX - 1;
    let tx = propose(&mut wallet, key(1), vec![], None, 1_000).unwrap();
    assert_eq!(tx.index, u64::MAX - 1);
    assert_eq!(wallet.num_transactions, u64::MAX);
}

#[test]
fn propose_judges_owner_then_eta_then_index() {
    let mut wallet = wallet_of_three(2, 3_600);
    wallet.num_transactions = u64::MAX;
    assert_eq!(propose(&mut wallet, key(9), vec![], None, 0), Err(ErrorCode::InvalidOwner));
    assert_eq!(propose(&mut wallet, key(1), vec![], None, 0), Err(ErrorCode::InvalidETA));
    assert_eq!(
        propose(&mut wallet, key(1), vec![], Some(3_600), 0),
        Err(ErrorCode::IntegerOverflow)
    );
}

#[test]
fn approve_sets_the_owners_ballot() {
    let mut wallet = wallet_of_three(2, 0);
    let mut tx = propose(&mut wallet, key(1), vec![], None, 0).unwrap();
    assert_eq!(approve(&mut tx, &wallet, key(3)), Ok(()));
    assert_eq!(tx.signers, vec![true, false, true]);
    assert_eq!(tx.tally(), 2);
    assert_eq!(approve(&mut tx, &wallet, key(2)), Ok(()));
    assert_eq!(tx.signers, vec![true, true, true]);
    assert_eq!(tx.tally(), 3);
}

#[test]
fn approve_twice_is_approve_once() {
    let mut wallet = wallet_of_three(2, 0);
    let mut tx = propose(&mut wallet, key(1), vec![instruction(1)], None, 0).unwrap();
    assert_eq!(approve(&mut tx, &wallet, key(2)), Ok(()));
    let once = tx.clone();
    assert_eq!(approve(&mut tx, &wallet, key(2)), Ok(()));
    assert_eq!(tx, once);
    assert_eq!(approve(&mut tx, &wallet, key(1)), Ok(()));
    assert_eq!(tx, once);
    assert_eq!(tx.tally(), 2);
}

#[test]
fn unapprove_clears_the_owners_ballot() {
    let mut wallet = wallet_of_three(2, 0);
    let mut tx = propose(&mut wallet, key(1), vec![], None, 0).unwrap();
    approve(&mut tx, &wallet, key(2)).unwrap();
    assert_eq!(unapprove(&mut tx, &wallet, key(1)), Ok(()));
    assert_eq!(tx.signers, vec![false, true, false]);
    assert_eq!(tx.tally(), 1);
    let once = tx.clone();
    assert_eq!(unapprove(&mut tx, &wallet, key(1)), Ok(()));
    assert_eq!(tx, once);
    assert_eq!(unapprove(&mut tx, &wallet, key(3)), Ok(()));
    assert_eq!(tx, once);
    assert_eq!(unapprove(&mut tx, &wallet, key(2)), Ok(()));
    assert_eq!(tx.tally(), 0);
}

#[test]
fn a_ballot_moves_the_tally_by_at_most_one() {
    let mut wallet = wallet_of_three(2, 0);
    let mut tx = propose(&mut wallet, key(1), vec![], None, 0).unwrap();
    let voters = [key(1), key(2), key(3), key(2), key(9), key(3), key(1)];
    for voter in voters.iter() {
        let before = tx.tally();
        let _ = approve(&mut tx, &wallet, *voter);
        assert!(before <= tx.tally() && tx.tally() <= before + 1);
    }
    for voter in voters.iter() {
        let before = tx.tally();
        let _ = unapprove(&mut tx, &wallet, *voter);
        assert!(tx.tally() <= before && before <= tx.tally() + 1);
    }
    assert_eq!(tx.tally(), 0);
}

#[test]
fn ballots_of_a_stranger_are_rejected() {
    let mut wallet = wallet_of_three(2, 0);
    let mut tx = propose(&mut wallet, key(1), vec![], None, 0).unwrap();
    let before = tx.clone();
    assert_eq!(approve(&mut tx, &wallet, key(9)), Err(ErrorCode::InvalidOwner));
    assert_eq!(unapprove(&mut tx, &wallet, key(9)), Err(ErrorCode::InvalidOwner));
    assert_eq!(tx, before);
}

#[test]
fn ballots_count_only_with_the_wallet_of_the_transaction() {
    let mut wallet = wallet_of_three(2, 0);
    let mut tx = propose(&mut wallet, key(1), vec![], None, 0).unwrap();
    let before = tx.clone();
    let other =
        create_smart_wallet(key(200), key(201), 1, 5, vec![key(7), key(8)], 1, 0).unwrap();
    assert_eq!(approve(&mut tx, &other, key(8)), Err(ErrorCode::InvalidOwner));
    assert_eq!(unapprove(&mut tx, &other, key(7)), Err(ErrorCode::InvalidOwner));
    let namesake =
        create_smart_wallet(key(200), key(101), 254, 5, vec![key(1), key(2)], 1, 0).unwrap();
    assert_eq!(approve(&mut tx, &namesake, key(2)), Err(ErrorCode::InvalidOwner));
    assert_eq!(tx, before);
}

#[test]
fn ballots_may_be_cast_after_the_eta() {
    let mut wallet = wallet_of_three(2, 0);
    let mut tx = propose(&mut wallet, key(1), vec![], Some(100), 50).unwrap();
    assert_eq!(approve(&mut tx, &wallet, key(2)), Ok(()));
    assert_eq!(unapprove(&mut tx, &wallet, key(1)), Ok(()));
    assert_eq!(tx.signers, vec![false, true, false]);
}

#[test]
fn ballots_leave_an_executed_transaction_as_it_is() {
    let mut wallet = wallet_of_three(1, 0);
    let mut tx = propose(&mut wallet, key(1), vec![], None, 0).unwrap();
    assert_eq!(execute_transaction(&mut tx, &wallet, key(1), 5), Progress::Executed);
    let sealed = tx.clone();
    assert_eq!(approve(&mut tx, &wallet, key(2)), Ok(()));
    assert_eq!(tx, sealed);
    assert_eq!(unapprove(&mut tx, &wallet, key(1)), Ok(()));
    assert_eq!(tx, sealed);
    assert_eq!(approve(&mut tx, &wallet, key(9)), Err(ErrorCode::InvalidOwner));
    assert_eq!(tx, sealed);
}

#[test]
fn ballot_of_an_owner_without_a_slot_is_rejected() {
    let mut wallet = wallet_of_three(2, 0);
    let mut tx = propose(&mut wallet, key(1), vec![], None, 0).unwrap();
    wallet.set_owners(vec![key(1), key(2), key(3), key(4)]).unwrap();
    let before = tx.clone();
    assert_eq!(approve(&mut tx, &wallet, key(4)), Err(ErrorCode::OwnerSetChanged));
    assert_eq!(unapprove(&mut tx, &wallet, key(4)), Err(ErrorCode::OwnerSetChanged));
    assert_eq!(tx, before);
    assert_eq!(approve(&mut tx, &wallet, key(3)), Ok(()));
    assert_eq!(tx.signers, vec![true, false, true]);
}

#[test]
fn tally_counts_approvals() {
    let mut wallet = wallet_of_three(2, 0);
    let mut tx = propose(&mut wallet, key(1), vec![], None, 0).unwrap();
    tx.signers = vec![];
    assert_eq!(tx.tally(), 0);
    tx.signers = vec![false, false, false];
    assert_eq!(tx.tally(), 0);
    tx.signers = vec![true, false, true, true, false, true];
    assert_eq!(tx.tally(), 4);
    tx.signers = vec![true; 300];
    assert_eq!(tx.tally(), 300);
}

#[test]
fn append_fills_a_slot_of_the_instructions() {
    let mut wallet = wallet_of_three(2, 0);
    let mut tx =
        propose(&mut wallet, key(1), vec![blank(), blank(), blank()], None, 0).unwrap();
    assert_eq!(append_transaction(&mut tx, &wallet, key(1), 1, instruction(5)), Ok(()));
    assert_eq!(tx.instructions, vec![blank(), instruction(5), blank()]);
    assert_eq!(append_transaction(&mut tx, &wallet, key(2), 0, instruction(4)), Ok(()));
    assert_eq!(append_transaction(&mut tx, &wallet, key(3), 2, instruction(6)), Ok(()));
    assert_eq!(tx.instructions, vec![instruction(4), instruction(5), instruction(6)]);
    assert_eq!(append_transaction(&mut tx, &wallet, key(1), 1, instruction(7)), Ok(()));
    assert_eq!(tx.instructions, vec![instruction(4), instruction(7), instruction(6)]);
    assert_eq!(tx.signers, vec![true, false, false]);
}

#[test]
fn append_rejects_and_leaves_the_transaction_as_it_was() {
    let mut wallet = wallet_of_three(1, 0);
    let mut tx = propose(&mut wallet, key(1), vec![blank()], None, 0).unwrap();
    let before = tx.clone();
    assert_eq!(
        append_transaction(&mut tx, &wallet, key(9), 0, instruction(1)),
        Err(ErrorCode::InvalidOwner)
    );
    assert_eq!(
        append_transaction(&mut tx, &wallet, key(1), 1, instruction(1)),
        Err(ErrorCode::CapacityExceeded)
    );
    assert_eq!(
        append_transaction(&mut tx, &wallet, key(1), usize::MAX, instruction(1)),
        Err(ErrorCode::CapacityExceeded)
    );
    let other =
        create_smart_wallet(key(200), key(201), 1, 5, vec![key(1), key(8)], 1, 0).unwrap();
    assert_eq!(
        append_transaction(&mut tx, &other, key(1), 0, instruction(1)),
        Err(ErrorCode::InvalidOwner)
    );
    assert_eq!(tx, before);

    let dispatch = match execute_transaction(&mut tx, &wallet, key(1), 5) {
        Progress::Invoke { dispatch, .. } => dispatch,
        other => panic!("{:?}", other),
    };
    assert_eq!(smart_wallet::resume(&mut tx, &wallet, dispatch, true), Progress::Executed);
    let sealed = tx.clone();
    assert_eq!(
        append_transaction(&mut tx, &wallet, key(1), 0, instruction(1)),
        Err(ErrorCode::AlreadyExecuted)
    );
    assert_eq!(tx, sealed);
}

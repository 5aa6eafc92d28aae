use smart_wallet::{
    create_smart_wallet, ErrorCode, Pubkey, SmartWallet, DEFAULT_GRACE_PERIOD,
    MAX_DELAY_SECONDS, SECONDS_PER_DAY,
};

fn key(n: u8) -> Pubkey {
    Pubkey::new_from_array([n; 32])
}

fn create(
    max_owners: u8,
    owners: Vec<Pubkey>,
    threshold: u64,
    minimum_delay: i64,
) -> Result<SmartWallet, ErrorCode> {
    create_smart_wallet(key(100), key(101), 254, max_owners, owners, threshold, minimum_delay)
}

fn abc() -> Vec<Pubkey> {
    vec![key(1), key(2), key(3)]
}

#[test]
fn constants_are_in_seconds() {
    assert_eq!(SECONDS_PER_DAY, 60 * 60 * 24);
    assert_eq!(MAX_DELAY_SECONDS, 365 * SECONDS_PER_DAY);
    assert_eq!(DEFAULT_GRACE_PERIOD, 14 * SECONDS_PER_DAY);
}

#[test]
fn keys_are_equal_when_their_bytes_are() {
    let mut bytes = [7u8; 32];
    assert_eq!(Pubkey::new_from_array(bytes), key(7));
    bytes[31] = 8;
    assert_ne!(Pubkey::new_from_array(bytes), key(7));
    bytes[31] = 7;
    bytes[0] = 6;
    assert_ne!(Pubkey::new_from_array(bytes), key(7));
    assert_eq!(key(7).to_bytes(), [7u8; 32]);
}

#[test]
fn created_wallet_holds_what_it_was_given() {
    let wallet = create(5, abc(), 2, 3_600).unwrap();
    assert_eq!(
        wallet,
        SmartWallet {
            key: key(100),
            base: key(101),
            bump: 254,
            max_owners: 5,
            threshold: 2,
            minimum_delay: 3_600,
            grace_period: 1_209_600,
            owner_set_seqno: 0,
            num_transactions: 0,
            owners: abc(),
        }
    );
}

#[test]
fn create_rejects_negative_delay() {
    assert_eq!(create(5, abc(), 2, -1), Err(ErrorCode::InvalidDelay));
    assert_eq!(create(5, abc(), 2, i64::MIN), Err(ErrorCode::InvalidDelay));
}

#[test]
fn create_rejects_delay_of_a_year_or_more() {
    assert_eq!(create(5, abc(), 2, 31_536_000), Err(ErrorCode::InvalidDelay));
    assert_eq!(create(5, abc(), 2, i64::MAX), Err(ErrorCode::InvalidDelay));
    assert!(create(5, abc(), 2, 31_535_999).is_ok());
    assert!(create(5, abc(), 2, 0).is_ok());
}

#[test]
fn create_rejects_more_owners_than_room() {
    assert_eq!(create(2, abc(), 2, 0), Err(ErrorCode::CapacityExceeded));
    assert_eq!(create(0, abc(), 2, 0), Err(ErrorCode::CapacityExceeded));
    assert!(create(3, abc(), 2, 0).is_ok());
}

#[test]
fn create_rejects_threshold_out_of_range() {
    assert_eq!(create(5, abc(), 0, 0), Err(ErrorCode::InvalidThreshold));
    assert_eq!(create(5, abc(), 4, 0), Err(ErrorCode::InvalidThreshold));
    assert_eq!(create(5, abc(), u64::MAX, 0), Err(ErrorCode::InvalidThreshold));
    assert_eq!(create(5, vec![], 1, 0), Err(ErrorCode::InvalidThreshold));
    assert_eq!(create(5, vec![], 0, 0), Err(ErrorCode::InvalidThreshold));
    assert!(create(5, abc(), 1, 0).is_ok());
    assert!(create(5, abc(), 3, 0).is_ok());
}

#[test]
fn create_rejects_an_owner_listed_twice() {
    assert_eq!(create(5, vec![key(1), key(2), key(1)], 2, 0), Err(ErrorCode::DuplicateOwner));
    assert_eq!(create(5, vec![key(1), key(1)], 1, 0), Err(ErrorCode::DuplicateOwner));
    assert_eq!(create(5, vec![key(2), key(3), key(3)], 3, 0), Err(ErrorCode::DuplicateOwner));
}

#[test]
fn create_judges_delay_then_room_then_threshold_then_duplicates() {
    let twice = vec![key(1), key(1), key(1)];
    assert_eq!(create(2, twice.clone(), 9, -5), Err(ErrorCode::InvalidDelay));
    assert_eq!(create(2, twice.clone(), 9, 0), Err(ErrorCode::CapacityExceeded));
    assert_eq!(create(3, twice.clone(), 9, 0), Err(ErrorCode::InvalidThreshold));
    assert_eq!(create(3, twice, 3, 0), Err(ErrorCode::DuplicateOwner));
}

#[test]
fn owner_index_finds_each_owner_at_its_slot() {
    let wallet = create(5, abc(), 2, 0).unwrap();
    assert_eq!(wallet.owner_index(key(1)), Ok(0));
    assert_eq!(wallet.owner_index(key(2)), Ok(1));
    assert_eq!(wallet.owner_index(key(3)), Ok(2));
}

#[test]
fn owner_index_rejects_a_stranger() {
    let wallet = create(5, abc(), 2, 0).unwrap();
    assert_eq!(wallet.owner_index(key(4)), Err(ErrorCode::InvalidOwner));
    assert_eq!(wallet.owner_index(key(100)), Err(ErrorCode::InvalidOwner));
    let mut nearly = [1u8; 32];
    nearly[31] = 0;
    assert_eq!(
        wallet.owner_index(Pubkey::new_from_array(nearly)),
        Err(ErrorCode::InvalidOwner)
    );
}

#[test]
fn owner_index_gives_the_first_slot_of_a_key_that_stands_twice() {
    let mut wallet = create(5, abc(), 2, 0).unwrap();
    wallet.owners = vec![key(9), key(4), key(4)];
    assert_eq!(wallet.owner_index(key(4)), Ok(1));
}

#[test]
fn set_owners_replaces_owners_and_bumps_seqno_by_one() {
    let mut wallet = create(5, abc(), 2, 60).unwrap();
    assert_eq!(wallet.set_owners(vec![key(4), key(5)]), Ok(()));
    assert_eq!(wallet.owners, vec![key(4), key(5)]);
    assert_eq!(wallet.owner_set_seqno, 1);
    assert_eq!(wallet.threshold, 2);
    assert_eq!(wallet.minimum_delay, 60);
    assert_eq!(wallet.num_transactions, 0);
    assert_eq!(wallet.set_owners(vec![key(4), key(5), key(6), key(7), key(8)]), Ok(()));
    assert_eq!(wallet.owner_set_seqno, 2);
    assert!(wallet.threshold <= wallet.owners.len() as u64);
}

#[test]
fn set_owners_rejects_and_leaves_the_wallet_as_it_was() {
    let mut wallet = create(4, abc(), 2, 0).unwrap();
    let before = wallet.clone();
    assert_eq!(
        wallet.set_owners(vec![key(1), key(2), key(3), key(4), key(5)]),
        Err(ErrorCode::CapacityExceeded)
    );
    assert_eq!(wallet, before);
    assert_eq!(wallet.set_owners(vec![key(1)]), Err(ErrorCode::InvalidThreshold));
    assert_eq!(wallet, before);
    assert_eq!(wallet.set_owners(vec![]), Err(ErrorCode::InvalidThreshold));
    assert_eq!(wallet, before);
    assert_eq!(wallet.set_owners(vec![key(5), key(6), key(5)]), Err(ErrorCode::DuplicateOwner));
    assert_eq!(wallet, before);
    wallet.owner_set_seqno = u32::MAX;
    assert_eq!(wallet.set_owners(vec![key(5), key(6)]), Err(ErrorCode::IntegerOverflow));
    assert_eq!(wallet.owner_set_seqno, u32::MAX);
    assert_eq!(wallet.owners, abc());
}

#[test]
fn change_threshold_sets_threshold_and_bumps_seqno_by_one() {
    let mut wallet = create(5, abc(), 2, 0).unwrap();
    assert_eq!(wallet.change_threshold(3), Ok(()));
    assert_eq!(wallet.threshold, 3);
    assert_eq!(wallet.owner_set_seqno, 1);
    assert_eq!(wallet.owners, abc());
    assert_eq!(wallet.change_threshold(1), Ok(()));
    assert_eq!(wallet.threshold, 1);
    assert_eq!(wallet.owner_set_seqno, 2);
    assert_eq!(wallet.change_threshold(1), Ok(()));
    assert_eq!(wallet.owner_set_seqno, 3);
}

#[test]
fn change_threshold_rejects_and_leaves_the_wallet_as_it_was() {
    let mut wallet = create(5, abc(), 2, 0).unwrap();
    let before = wallet.clone();
    assert_eq!(wallet.change_threshold(0), Err(ErrorCode::InvalidThreshold));
    assert_eq!(wallet, before);
    assert_eq!(wallet.change_threshold(4), Err(ErrorCode::InvalidThreshold));
    assert_eq!(wallet, before);
    wallet.owner_set_seqno = u32::MAX;
    assert_eq!(wallet.change_threshold(3), Err(ErrorCode::IntegerOverflow));
    assert_eq!(wallet.threshold, 2);
    assert_eq!(wallet.owner_set_seqno, u32::MAX);
}

#[test]
fn threshold_stays_within_owners_through_changes() {
    let mut wallet = create(5, abc(), 3, 0).unwrap();
    let owner_lists = vec![
        vec![key(1)],
        vec![key(1), key(2)],
        vec![key(4), key(5), key(6), key(7)],
        vec![],
        vec![key(1), key(2), key(3), key(4), key(5), key(6)],
    ];
    for threshold in 0..7u64 {
        for owners in owner_lists.iter() {
            let _ = wallet.change_threshold(threshold);
            assert!(1 <= wallet.threshold && wallet.threshold <= wallet.owners.len() as u64);
            let _ = wallet.set_owners(owners.clone());
            assert!(1 <= wallet.threshold && wallet.threshold <= wallet.owners.len() as u64);
            assert!(wallet.owners.len() <= wallet.max_owners as usize);
        }
    }
}

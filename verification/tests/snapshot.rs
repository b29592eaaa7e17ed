use kubchain::snapshot::KubSnapshot;
use kubchain::types::{Address, SystemContracts, B256};

fn test_validators() -> Vec<Address> {
    vec![
        Address::repeat_byte(0x01),
        Address::repeat_byte(0x02),
        Address::repeat_byte(0x03),
    ]
}

#[test]
fn test_new_snapshot() {
    let validators = test_validators();
    let snap = KubSnapshot::new(
        100,
        B256::zero(),
        validators.clone(),
        SystemContracts::default(),
    );

    assert_eq!(snap.number, 100);
    assert_eq!(snap.validators.len(), 3);
    assert_eq!(snap.signers.len(), 3);
    assert!(snap.is_authorized(&validators[0]));
    assert!(!snap.is_authorized(&Address::repeat_byte(0xFF)));
}

#[test]
fn test_in_turn_signer() {
    let validators = test_validators();
    let snap = KubSnapshot::new(0, B256::zero(), validators.clone(), SystemContracts::default());

    assert_eq!(snap.in_turn_signer(0), Some(&validators[0]));
    assert_eq!(snap.in_turn_signer(1), Some(&validators[1]));
    assert_eq!(snap.in_turn_signer(2), Some(&validators[2]));
    assert_eq!(snap.in_turn_signer(3), Some(&validators[0]));
}

#[test]
fn test_recently_signed() {
    let validators = test_validators();
    let mut snap =
        KubSnapshot::new(0, B256::zero(), validators.clone(), SystemContracts::default());
    snap.recents.insert(10, validators[0]);

    // limit = 3/2 + 1 = 2
    // For block 11, check window [10, 11) → validator[0] at 10 is in window
    assert!(snap.is_recently_signed(&validators[0], 11));

    // For block 13, check window [12, 13) → validator[0] at 10 is out of window
    assert!(!snap.is_recently_signed(&validators[0], 13));
}

#[test]
fn test_apply_prunes_recents() {
    let validators = test_validators();
    let snap =
        KubSnapshot::new(0, B256::zero(), validators.clone(), SystemContracts::default());

    let snap = snap.apply(10, B256::repeat_byte(0x10), validators[0]);
    assert!(snap.recents.contains_key(&10));

    let snap = snap.apply(11, B256::repeat_byte(0x11), validators[1]);
    assert!(snap.recents.contains_key(&11));
    // block 10 should be pruned (limit = 2, prune_before = 11 - 2 = 9, 10 > 9 so kept)
    assert!(snap.recents.contains_key(&10));

    let snap = snap.apply(12, B256::repeat_byte(0x12), validators[2]);
    // block 10 should be pruned (limit = 2, prune_before = 12 - 2 = 10, 10 is NOT > 10)
    assert!(!snap.recents.contains_key(&10));
    assert!(snap.recents.contains_key(&11));
}

#[test]
fn duplicate_validators_counted_once() {
    let v = vec![
        Address::repeat_byte(0x01),
        Address::repeat_byte(0x02),
        Address::repeat_byte(0x01),
    ];
    let snap = KubSnapshot::new(5, B256::zero(), v, SystemContracts::default());
    assert_eq!(snap.num_signers(), 2);
    assert_eq!(snap.validators.len(), 3);
}

#[test]
fn in_turn_signer_empty_and_apply_then_recent() {
    let empty = KubSnapshot::new(0, B256::zero(), vec![], SystemContracts::default());
    assert_eq!(empty.in_turn_signer(7), None);
    assert!(!empty.is_recently_signed(&Address::repeat_byte(1), 5));

    let validators = test_validators();
    let snap = KubSnapshot::new(0, B256::zero(), validators.clone(), SystemContracts::default());
    let snap = snap.apply(20, B256::repeat_byte(0x20), validators[1]);
    assert!(snap.is_recently_signed(&validators[1], 21));
    assert!(!snap.is_recently_signed(&validators[0], 21));
    assert_eq!(snap.number, 20);
    assert_eq!(snap.hash, B256::repeat_byte(0x20));
}

#[test]
fn update_validators_clears_recents() {
    let validators = test_validators();
    let snap = KubSnapshot::new(0, B256::zero(), validators.clone(), SystemContracts::default());
    let mut snap = snap.apply(3, B256::repeat_byte(3), validators[0]);
    snap.update_validators(vec![Address::repeat_byte(9)], SystemContracts::default());
    assert!(snap.recents.is_empty());
    assert_eq!(snap.num_signers(), 1);
    assert!(snap.is_authorized(&Address::repeat_byte(9)));
    assert!(!snap.is_authorized(&validators[0]));
}

#[test]
fn pruning_keeps_recency_checks() {
    let validators = test_validators();
    let snap = KubSnapshot::new(0, B256::zero(), validators.clone(), SystemContracts::default());
    let snap = snap.apply(10, B256::repeat_byte(0x10), validators[0]);
    let snap = snap.apply(11, B256::repeat_byte(0x11), validators[1]);
    let snap = snap.apply(12, B256::repeat_byte(0x12), validators[2]);
    // block 10 was forgotten, yet no later check could have seen it
    assert!(!snap.recents.contains_key(&10));
    assert!(!snap.is_recently_signed(&validators[0], 13));
    assert!(snap.is_recently_signed(&validators[2], 13));
    assert!(!snap.is_recently_signed(&validators[1], 14));
}

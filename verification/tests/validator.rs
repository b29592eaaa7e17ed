use kubchain::types::{Address, Validator, B256};
use kubchain::u256::U256;
use kubchain::validator::{binary_search, build_cumulative_weights, random_range, select_validators};

fn test_validators() -> Vec<Validator> {
    vec![
        Validator {
            address: Address::repeat_byte(0x01),
            voting_power: U256::from(100),
        },
        Validator {
            address: Address::repeat_byte(0x02),
            voting_power: U256::from(200),
        },
        Validator {
            address: Address::repeat_byte(0x03),
            voting_power: U256::from(300),
        },
    ]
}

#[test]
fn test_cumulative_weights() {
    let validators = test_validators();
    let weights = build_cumulative_weights(&validators);

    assert_eq!(weights.len(), 3);
    assert_eq!(weights[0], U256::from(100));
    assert_eq!(weights[1], U256::from(300));
    assert_eq!(weights[2], U256::from(600));
}

#[test]
fn test_binary_search() {
    let weights = vec![U256::from(100), U256::from(300), U256::from(600)];

    // Target 0-99 → index 0 (validator 1)
    assert_eq!(binary_search(&weights, U256::from(0)), 0);
    assert_eq!(binary_search(&weights, U256::from(99)), 0);

    // Target 100-299 → index 1 (validator 2)
    assert_eq!(binary_search(&weights, U256::from(100)), 1);
    assert_eq!(binary_search(&weights, U256::from(299)), 1);

    // Target 300-599 → index 2 (validator 3)
    assert_eq!(binary_search(&weights, U256::from(300)), 2);
    assert_eq!(binary_search(&weights, U256::from(599)), 2);
}

#[test]
fn test_select_validators() {
    let validators = test_validators();
    let seed = B256::repeat_byte(0x42);

    let selected = select_validators(&validators, seed, 2);
    assert_eq!(selected.len(), 2);

    // All selected should be from the eligible set
    for v in &selected {
        assert!(validators.iter().any(|orig| orig.address == v.address));
    }

    // No duplicates
    let addresses: Vec<_> = selected.iter().map(|v| v.address).collect();
    let unique: std::collections::HashSet<_> = addresses.iter().collect();
    assert_eq!(addresses.len(), unique.len());
}

#[test]
fn test_select_more_than_available() {
    let validators = test_validators();
    let seed = B256::repeat_byte(0x42);

    let selected = select_validators(&validators, seed, 10);
    assert_eq!(selected.len(), 3); // Can't select more than available
}

#[test]
fn test_deterministic_selection() {
    let validators = test_validators();
    let seed = B256::repeat_byte(0x42);

    let selected1 = select_validators(&validators, seed, 3);
    let selected2 = select_validators(&validators, seed, 3);

    // Same seed should produce same selection
    for (a, b) in selected1.iter().zip(selected2.iter()) {
        assert_eq!(a.address, b.address);
    }
}

#[test]
fn test_empty_validators() {
    let selected = select_validators(&[], B256::zero(), 5);
    assert!(selected.is_empty());
}

#[test]
fn binary_search_beyond_total_clamps_to_last() {
    let weights = vec![U256::from(100), U256::from(300), U256::from(600)];
    assert_eq!(binary_search(&weights, U256::from(600)), 2);
    assert_eq!(binary_search(&weights, U256::from(10_000)), 2);
}

#[test]
fn random_range_is_seed_modulo() {
    // seed = 0x00..0105 = 261
    let mut bytes = [0u8; 32];
    bytes[30] = 1;
    bytes[31] = 5;
    let r = random_range(B256 { bytes }, U256::from(100));
    assert_eq!(r, U256::from(61));
}

#[test]
fn first_pick_follows_weights() {
    // seed value 150 lies in validator 2's range [100, 300) of total 600
    let mut bytes = [0u8; 32];
    bytes[31] = 150;
    let selected = select_validators(&test_validators(), B256 { bytes }, 1);
    assert_eq!(selected.len(), 1);
    assert_eq!(selected[0].address, Address::repeat_byte(0x02));
}

#[test]
fn zero_weight_stops_selection() {
    let validators = vec![Validator {
        address: Address::repeat_byte(0x05),
        voting_power: U256::from(0),
    }];
    assert!(select_validators(&validators, B256::repeat_byte(1), 3).is_empty());
    assert!(select_validators(&test_validators(), B256::repeat_byte(1), 0).is_empty());
}

#[test]
fn cumulative_weights_wrap_around() {
    let max = U256 { limbs: [u64::MAX; 4] };
    let validators = vec![
        Validator { address: Address::repeat_byte(1), voting_power: max },
        Validator { address: Address::repeat_byte(2), voting_power: U256::from(2) },
    ];
    let weights = build_cumulative_weights(&validators);
    assert_eq!(weights[0], max);
    assert_eq!(weights[1], U256::from(1));
}

#[test]
fn zero_power_never_selected() {
    let validators = vec![
        Validator { address: Address::repeat_byte(0x0a), voting_power: U256::from(0) },
        Validator { address: Address::repeat_byte(0x0b), voting_power: U256::from(100) },
        Validator { address: Address::repeat_byte(0x0c), voting_power: U256::from(0) },
    ];
    for seed in 0u8..8 {
        let selected = select_validators(&validators, B256::repeat_byte(seed), 3);
        assert_eq!(selected.len(), 1);
        assert_eq!(selected[0].address, Address::repeat_byte(0x0b));
    }
}

#[test]
fn selection_length_counts_positive_power() {
    let validators = vec![
        Validator { address: Address::repeat_byte(0x0a), voting_power: U256::from(0) },
        Validator { address: Address::repeat_byte(0x0b), voting_power: U256::from(10) },
        Validator { address: Address::repeat_byte(0x0c), voting_power: U256::from(20) },
        Validator { address: Address::repeat_byte(0x0d), voting_power: U256::from(0) },
    ];
    assert_eq!(select_validators(&validators, B256::repeat_byte(3), 10).len(), 2);
    assert_eq!(select_validators(&validators, B256::repeat_byte(3), 1).len(), 1);
}

#[test]
fn selection_picks_distinct_positions_even_with_repeated_addresses() {
    let same = Address::repeat_byte(0x0e);
    let validators = vec![
        Validator { address: same, voting_power: U256::from(5) },
        Validator { address: same, voting_power: U256::from(5) },
    ];
    // both entries are picked once each, so the address appears twice
    let selected = select_validators(&validators, B256::repeat_byte(1), 2);
    assert_eq!(selected.len(), 2);
    assert!(selected.iter().all(|v| v.address == same));
}

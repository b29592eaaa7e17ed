use kubchain::rlp::encode_validators;
use alloy_sol_types::{sol_data, SolType};
use kubchain::system_tx::{
    build_commit_span_calldata, build_current_span_number_calldata,
    build_distribute_reward_calldata, build_get_eligible_validators_calldata,
    build_is_signer_slashed_calldata, build_slash_calldata, is_system_transaction, SYSTEM_TX_GAS,
};
use kubchain::types::{Address, Validator};
use kubchain::u256::U256;

fn selector(signature: &str) -> Vec<u8> {
    alloy_primitives::keccak256(signature.as_bytes())[..4].to_vec()
}

fn validator(byte: u8, power: u64) -> Validator {
    Validator { address: Address::repeat_byte(byte), voting_power: U256::from(power) }
}

#[test]
fn system_transactions_are_free_and_sent_by_coinbase() {
    let coinbase = Address::repeat_byte(0x11);
    assert!(is_system_transaction(0, coinbase, coinbase));
    assert!(!is_system_transaction(1, coinbase, coinbase));
    assert!(!is_system_transaction(0, Address::repeat_byte(0x12), coinbase));
    assert_eq!(SYSTEM_TX_GAS, u64::MAX / 2);
}

#[test]
fn slash_calldata_layout() {
    let signer = Address::repeat_byte(0x11);
    let data = build_slash_calldata(signer, U256::from(5u64));
    assert_eq!(data.len(), 4 + 32 + 32);
    assert_eq!(data[..4].to_vec(), selector("slash(address,uint256)"));
    assert!(data[4..16].iter().all(|b| *b == 0));
    assert!(data[16..36].iter().all(|b| *b == 0x11));
    assert!(data[36..67].iter().all(|b| *b == 0));
    assert_eq!(data[67], 5);
}

#[test]
fn distribute_reward_calldata_layout() {
    let data = build_distribute_reward_calldata(U256::from(0x0102u64), Address::repeat_byte(0x22));
    assert_eq!(data.len(), 68);
    assert_eq!(data[..4].to_vec(), selector("distributeReward(uint256,address)"));
    assert!(data[4..34].iter().all(|b| *b == 0));
    assert_eq!(data[34], 0x01);
    assert_eq!(data[35], 0x02);
    assert!(data[36..48].iter().all(|b| *b == 0));
    assert!(data[48..68].iter().all(|b| *b == 0x22));
}

#[test]
fn rlp_of_empty_validator_set() {
    assert_eq!(encode_validators(&vec![]), vec![0xc0]);
}

#[test]
fn rlp_of_one_validator() {
    let mut expected = vec![0xd7, 0xd6, 0x94];
    expected.extend(std::iter::repeat(0x01).take(20));
    expected.push(0x01);
    assert_eq!(encode_validators(&vec![validator(0x01, 1)]), expected);
}

#[test]
fn rlp_of_voting_powers() {
    // zero is the empty string
    let zero = encode_validators(&vec![validator(0x02, 0)]);
    assert_eq!(zero[..3].to_vec(), vec![0xd7, 0xd6, 0x94]);
    assert_eq!(zero[23], 0x80);
    // 0x80 needs a length prefix
    let high = encode_validators(&vec![validator(0x02, 0x80)]);
    assert_eq!(high[..2].to_vec(), vec![0xd8, 0xd7]);
    assert_eq!(high[23..].to_vec(), vec![0x81, 0x80]);
    // leading zero bytes are dropped
    let two = encode_validators(&vec![validator(0x02, 0x0100)]);
    assert_eq!(two[23..].to_vec(), vec![0x82, 0x01, 0x00]);
}

#[test]
fn rlp_of_long_validator_list() {
    let vs = vec![validator(1, 1), validator(2, 1), validator(3, 1)];
    let enc = encode_validators(&vs);
    // three items of 23 bytes: a 69-byte payload needs a long list header
    assert_eq!(enc[..2].to_vec(), vec![0xf8, 69]);
    assert_eq!(enc.len(), 71);
    assert_eq!(enc[2], 0xd6);
}

#[test]
fn commit_span_calldata_layout() {
    let data = build_commit_span_calldata(&vec![]);
    assert_eq!(data.len(), 4 + 32 + 32 + 32);
    assert_eq!(data[..4].to_vec(), selector("commitSpan(bytes)"));
    assert_eq!(data[35], 32);
    assert!(data[4..35].iter().all(|b| *b == 0));
    assert_eq!(data[67], 1);
    assert_eq!(data[68], 0xc0);
    assert!(data[69..].iter().all(|b| *b == 0));
}

fn encode_address_uint(a: Address, v: u64) -> Vec<u8> {
    <(sol_data::Address, sol_data::Uint<256>)>::abi_encode_params(&(
        alloy_primitives::Address::from(a.bytes),
        alloy_primitives::U256::from(v),
    ))
}

#[test]
fn query_calldata_is_selector_and_words() {
    assert_eq!(build_get_eligible_validators_calldata(), selector("getEligibleValidators()"));
    assert_eq!(build_current_span_number_calldata(), selector("currentSpanNumber()"));
    let signer = Address::repeat_byte(0x33);
    let mut expected = selector("isSignerSlashed(address,uint256)");
    expected.extend(encode_address_uint(signer, 9));
    assert_eq!(build_is_signer_slashed_calldata(signer, U256::from(9u64)), expected);
}

#[test]
fn slash_and_commit_span_match_abi_encoder() {
    let signer = Address::repeat_byte(0x44);
    let mut expected = selector("slash(address,uint256)");
    expected.extend(encode_address_uint(signer, 3));
    assert_eq!(build_slash_calldata(signer, U256::from(3u64)), expected);
    let vs = vec![validator(1, 1), validator(2, 0x100)];
    let rlp = encode_validators(&vs);
    let mut expected = selector("commitSpan(bytes)");
    expected.extend(<(sol_data::Bytes,)>::abi_encode_params(&(rlp.clone(),)));
    assert_eq!(build_commit_span_calldata(&vs), expected);
}

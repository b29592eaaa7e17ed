use std::sync::Arc;

use alloy_sol_types::{sol_data, SolType};
use kubchain::caller::{query_current_span, query_eligible_validators, query_is_signer_slashed};
use kubchain::chainspec::kub_dev_chain_spec;
use kubchain::evm::{KubEvmConfig, KubNextBlockEnvCtx};
use kubchain::snapshot::KubSnapshot;
use kubchain::types::B256;
use kubchain::execute::{
    is_official_or_super_node, BlockValidationError, FinishAction, FinishEvent, FinishInputs,
    FinishState, KubBlockExecutor,
};
use kubchain::migration::{apply_basel_hardfork, apply_lausanne_hardfork, deploy_bytecode, deployed_account};
use kubchain::types::{system_address, Address, SystemContracts, Validator};
use kubchain::u256::U256;

fn word(v: u64) -> Vec<u8> {
    let mut w = vec![0u8; 24];
    w.extend_from_slice(&v.to_be_bytes());
    w
}

fn executor() -> KubBlockExecutor<u8> {
    let config = KubEvmConfig::new(Arc::new(kub_dev_chain_spec()));
    let attrs = KubNextBlockEnvCtx {
        timestamp: 9,
        suggested_fee_recipient: Address::repeat_byte(7),
        gas_limit: 100,
    };
    let snapshot = KubSnapshot::new(2, B256::zero(), vec![Address::repeat_byte(7)], SystemContracts::default());
    config
        .block_executor_factory()
        .create_executor(config.context_for_next_block(B256::zero(), attrs, &snapshot))
}

fn inputs(posa_active: bool) -> FinishInputs {
    FinishInputs {
        posa_active,
        commitment_block: true,
        difficulty: 1,
        validator_contract: Address::repeat_byte(0xa0),
        coinbase: Address::repeat_byte(0xc0),
        slash_manager: Address::repeat_byte(0x50),
        stake_manager: Address::repeat_byte(0x5a),
        node_contract: Address::repeat_byte(0x0d),
    }
}

#[test]
fn gas_check_and_receipts() {
    let mut exec = executor();
    assert_eq!(
        exec.check_transaction_gas(100, 101),
        Err(BlockValidationError::TransactionGasLimitMoreThanAvailableBlockGas {
            transaction_gas_limit: 101,
            block_available_gas: 100,
        })
    );
    assert_eq!(exec.check_transaction_gas(100, 100), Ok(()));
    assert_eq!(exec.commit_transaction(2, true, 30, vec![1, 2]), 30);
    assert_eq!(exec.commit_transaction(0, false, 12, vec![]), 12);
    assert_eq!(
        exec.check_transaction_gas(100, 59),
        Err(BlockValidationError::TransactionGasLimitMoreThanAvailableBlockGas {
            transaction_gas_limit: 59,
            block_available_gas: 58,
        })
    );
    let (receipts, gas_used) = exec.into_result();
    assert_eq!(gas_used, 42);
    assert_eq!(receipts.len(), 2);
    assert_eq!(receipts[0].cumulative_gas_used, 30);
    assert_eq!(receipts[0].logs, vec![1, 2]);
    assert_eq!(receipts[1].cumulative_gas_used, 42);
    assert!(!receipts[1].success);
}

#[test]
fn pre_execution_changes_follow_the_schedule() {
    let exec = executor();
    let at_zero = exec.apply_pre_execution_changes(U256::from(0u64));
    assert!(at_zero.state_clear_flag && at_zero.apply_lausanne && at_zero.apply_basel);
    let later = exec.apply_pre_execution_changes(U256::from(1u64));
    assert!(later.state_clear_flag && !later.apply_lausanne && !later.apply_basel);
}

#[test]
fn finish_inputs_of_the_dev_chain() {
    let exec = executor();
    let inp = exec.finish_inputs(U256::from(101u64), U256::from(1u64));
    assert!(inp.posa_active);
    assert!(inp.commitment_block);
    assert_eq!(inp.difficulty, 1);
    assert_eq!(inp.coinbase, Address::repeat_byte(7));
    // with no contracts configured, nothing is called
    let (state, action) = KubBlockExecutor::<u8>::finish_step(&inp, FinishState::Begin, FinishEvent::Start);
    assert_eq!(state, FinishState::Done);
    assert!(matches!(action, FinishAction::Finish));
}

#[test]
fn finish_dialogue_full_block() {
    let inp = inputs(true);
    let step = |s, e| KubBlockExecutor::<u8>::finish_step(&inp, s, e);
    let (s, a) = step(FinishState::Begin, FinishEvent::Start);
    assert!(matches!(a, FinishAction::QueryEligibleValidators { contract } if contract == inp.validator_contract));
    let vs = vec![Validator { address: Address::repeat_byte(1), voting_power: U256::from(5u64) }];
    let (s, a) = step(s, FinishEvent::EligibleValidators(vs.clone()));
    assert!(matches!(&a, FinishAction::CommitSpan { caller, contract, validators }
        if *caller == inp.coinbase && *contract == inp.validator_contract && *validators == vs));
    assert_eq!(a.calldata().map(|c| c.len()), Some(4 + 32 + 32 + 32));
    let (s, a) = step(s, FinishEvent::Executed);
    assert!(matches!(a, FinishAction::QueryCurrentSpan { .. }));
    let (s, a) = step(s, FinishEvent::CurrentSpan(U256::from(7u64)));
    assert!(matches!(a, FinishAction::QueryIsSignerSlashed { contract, signer, span }
        if contract == inp.slash_manager && signer == inp.coinbase && span == U256::from(7u64)));
    let (s, a) = step(s, FinishEvent::SignerSlashed(false));
    assert!(matches!(a, FinishAction::QueryNodeStatus { contract, signer }
        if contract == inp.node_contract && signer == inp.coinbase));
    let (s, a) = step(s, FinishEvent::NodeStatus(true));
    assert!(matches!(a, FinishAction::Slash { signer, .. } if signer == inp.coinbase));
    assert_eq!(a.calldata().map(|c| c.len()), Some(68));
    let (s, a) = step(s, FinishEvent::Executed);
    assert!(matches!(a, FinishAction::ReadBalance { account } if account == system_address()));
    let (s, a) = step(s, FinishEvent::Balance(U256::from(5u64)));
    assert!(matches!(a, FinishAction::DistributeReward { caller, contract, amount, validator }
        if caller == system_address() && contract == inp.stake_manager
            && amount == U256::from(5u64) && validator == inp.coinbase));
    let (s, a) = step(s, FinishEvent::Executed);
    assert_eq!(s, FinishState::Done);
    assert!(matches!(a, FinishAction::Finish));
}

#[test]
fn finish_dialogue_skips_slashed_signer_and_rewards_empty_fees() {
    let inp = inputs(true);
    let span = U256::from(3u64);
    let (s, a) = KubBlockExecutor::<u8>::finish_step(
        &inp,
        FinishState::AwaitSignerSlashed { span },
        FinishEvent::SignerSlashed(true),
    );
    assert_eq!(s, FinishState::AwaitBalance);
    assert!(matches!(a, FinishAction::ReadBalance { .. }));
    // rewards are distributed every block, even with no fees collected
    let (s, a) = KubBlockExecutor::<u8>::finish_step(&inp, s, FinishEvent::Balance(U256::from(0u64)));
    assert_eq!(s, FinishState::AwaitReward);
    assert!(matches!(a, FinishAction::DistributeReward { amount, .. } if amount == U256::from(0u64)));
    assert_eq!(a.calldata().map(|c| c.len()), Some(68));
}

#[test]
fn only_official_or_super_nodes_are_slashed() {
    let inp = inputs(true);
    let span = U256::from(3u64);
    let (s, a) = KubBlockExecutor::<u8>::finish_step(
        &inp,
        FinishState::AwaitNodeStatus { span },
        FinishEvent::NodeStatus(false),
    );
    assert_eq!(s, FinishState::AwaitBalance);
    assert!(matches!(a, FinishAction::ReadBalance { .. }));
    // without a node contract nobody is known as an official or super node
    let no_node = FinishInputs { node_contract: Address::zero(), ..inp };
    let (s, _) = KubBlockExecutor::<u8>::finish_step(&no_node, FinishState::AwaitCommitSpan, FinishEvent::Executed);
    assert_eq!(s, FinishState::AwaitBalance);
}

#[test]
fn finish_dialogue_before_posa() {
    let (s, a) = KubBlockExecutor::<u8>::finish_step(&inputs(false), FinishState::Begin, FinishEvent::Start);
    assert_eq!(s, FinishState::Done);
    assert!(matches!(a, FinishAction::Finish));
}

#[test]
fn official_or_super_node_needs_a_node_contract() {
    assert!(!is_official_or_super_node(&Address::repeat_byte(1), &SystemContracts::default(), true));
    let contracts = SystemContracts {
        stake_manager: Address::zero(),
        slash_manager: Address::zero(),
        super_node: Address::repeat_byte(0x0d),
    };
    assert!(is_official_or_super_node(&Address::repeat_byte(1), &contracts, true));
    assert!(!is_official_or_super_node(&Address::repeat_byte(1), &contracts, false));
}

#[test]
fn query_answers_are_decoded() {
    assert!(query_current_span(None).is_err());
    assert_eq!(query_current_span(Some(word(7))).ok(), Some(U256::from(7u64)));
    assert_eq!(query_is_signer_slashed(Some(word(1))).ok(), Some(true));
    assert_eq!(query_is_signer_slashed(Some(word(0))).ok(), Some(false));
    let data = <(sol_data::Array<sol_data::Address>, sol_data::Array<sol_data::Uint<256>>)>::abi_encode_sequence(&(
        vec![alloy_primitives::Address::repeat_byte(1), alloy_primitives::Address::repeat_byte(2)],
        vec![alloy_primitives::U256::from(10u64)],
    ));
    let vs = query_eligible_validators(Some(data)).ok().unwrap();
    // the validators pair addresses with powers, as long as both last
    assert_eq!(vs, vec![Validator { address: Address::repeat_byte(1), voting_power: U256::from(10u64) }]);
}

#[test]
fn bytecode_deployment() {
    let at = Address::repeat_byte(9);
    assert!(matches!(deploy_bytecode(at, ""), Ok(None)));
    assert!(deploy_bytecode(at, "zz").is_err());
    let d = deploy_bytecode(at, "6001").ok().flatten().unwrap();
    assert_eq!(d.code, vec![0x60, 0x01]);
    assert_eq!(d.code_hash.bytes, alloy_primitives::keccak256([0x60u8, 0x01]).0);
    let account = deployed_account(None, d);
    assert_eq!(account.nonce, 0);
    assert_eq!(account.balance, U256::from(0u64));
    assert_eq!(account.code, Some(vec![0x60, 0x01]));
    let spec = kub_dev_chain_spec();
    assert_eq!(apply_lausanne_hardfork(&spec).ok().map(|v| v.len()), Some(0));
    assert_eq!(apply_basel_hardfork(&spec).ok().map(|v| v.len()), Some(0));
}

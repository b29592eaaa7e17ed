use std::sync::Arc;

use kubchain::chainspec::{kub_dev_chain_spec, ChainSpec, KubChainSpecParser};
use kubchain::consensus::{KubConsensus, KubConsensusBuilder, KubExecutorBuilder};
use kubchain::evm::{KubEvmConfig, KubNextBlockEnvCtx};
use kubchain::snapshot::KubSnapshot;
use kubchain::hardforks::{
    kub_dev_hardforks, EthereumHardfork, ForkCondition, Hardfork, KubHardfork,
};
use kubchain::header::{Header, EMPTY_OMMER_ROOT_HASH};
use kubchain::types::{is_span_commitment_block, is_span_first_block, Address, SystemContracts, B256};
use kubchain::u256::U256;
use kubchain::validation::ConsensusError;

fn sealed_header(number: u64, difficulty: u64, extra_len: usize) -> Header {
    Header {
        number,
        difficulty: U256::from(difficulty),
        extra_data: vec![0u8; extra_len],
        gas_limit: 30_000_000,
        gas_used: 5,
        timestamp: number * 3,
        ..Default::default()
    }
}

#[test]
fn consensus_validates_through_its_chain_spec() {
    let consensus = KubConsensus::new(Arc::new(kub_dev_chain_spec()));
    assert_eq!(consensus.chain_spec().chain_id(), 25925);
    assert_eq!(consensus.validate_header(&sealed_header(1, 2, 97)), Ok(()));
    assert_eq!(
        consensus.validate_header(&sealed_header(1, 2, 96)),
        Err(ConsensusError::ExtraDataExceedsMax { len: 96 })
    );
    assert_eq!(
        consensus.validate_block_pre_execution(&sealed_header(1, 3, 97)),
        Err(ConsensusError::TheMergeDifficultyIsNotZero)
    );
    let parent = sealed_header(1, 2, 97);
    assert_eq!(consensus.validate_header_against_parent(&sealed_header(2, 1, 97), &parent), Ok(()));
    assert_eq!(
        consensus.validate_header_against_parent(&sealed_header(3, 1, 97), &parent),
        Err(ConsensusError::ParentBlockNumberMismatch { parent_block_number: 1, block_number: 3 })
    );
}

#[test]
fn header_nonce_must_be_zero() {
    let consensus = KubConsensus::new(Arc::new(kub_dev_chain_spec()));
    let header = Header { nonce: 1, ..sealed_header(1, 1, 97) };
    assert_eq!(consensus.validate_header(&header), Err(ConsensusError::TheMergeNonceIsNotZero));
}

#[test]
fn huge_difficulty_is_rejected() {
    let consensus = KubConsensus::new(Arc::new(kub_dev_chain_spec()));
    // 2^64 + 2: its low limb alone would read as in-turn
    let header = Header { difficulty: U256 { limbs: [2, 1, 0, 0] }, ..sealed_header(1, 2, 97) };
    assert_eq!(consensus.validate_header(&header), Err(ConsensusError::TheMergeDifficultyIsNotZero));
}

#[test]
fn gas_limit_moves_less_than_a_1024th() {
    let consensus = KubConsensus::new(Arc::new(kub_dev_chain_spec()));
    let parent = Header { gas_limit: 1_024_000, ..sealed_header(1, 2, 97) };
    let child = |gas_limit| Header { gas_limit, ..sealed_header(2, 2, 97) };
    assert_eq!(consensus.validate_header_against_parent(&child(1_024_999), &parent), Ok(()));
    assert_eq!(consensus.validate_header_against_parent(&child(1_023_001), &parent), Ok(()));
    assert_eq!(
        consensus.validate_header_against_parent(&child(1_025_000), &parent),
        Err(ConsensusError::GasLimitInvalidIncrease { parent_gas_limit: 1_024_000, child_gas_limit: 1_025_000 })
    );
    assert_eq!(
        consensus.validate_header_against_parent(&child(1_023_000), &parent),
        Err(ConsensusError::GasLimitInvalidDecrease { parent_gas_limit: 1_024_000, child_gas_limit: 1_023_000 })
    );
    let small = Header { gas_limit: 1000, ..sealed_header(1, 2, 97) };
    assert_eq!(
        consensus.validate_header_against_parent(&Header { gas_limit: 1_000_000, ..sealed_header(2, 2, 97) }, &small),
        Err(ConsensusError::GasLimitInvalidIncrease { parent_gas_limit: 1000, child_gas_limit: 1_000_000 })
    );
}

#[test]
fn post_execution_checks_gas_receipts_bloom_and_state() {
    let consensus = KubConsensus::new(Arc::new(kub_dev_chain_spec()));
    let header = Header {
        gas_used: 21_000,
        receipts_root: B256::repeat_byte(1),
        logs_bloom: [2u8; 256],
        state_root: B256::repeat_byte(3),
        ..Default::default()
    };
    let check = |gas, receipts, bloom: [u8; 256], state| {
        consensus.validate_block_post_execution(&header, gas, receipts, &bloom, state)
    };
    assert_eq!(check(21_000, B256::repeat_byte(1), [2u8; 256], B256::repeat_byte(3)), Ok(()));
    assert_eq!(
        check(21_001, B256::repeat_byte(1), [2u8; 256], B256::repeat_byte(3)),
        Err(ConsensusError::BlockGasUsed { got: 21_001, expected: 21_000 })
    );
    assert_eq!(
        check(21_000, B256::repeat_byte(9), [2u8; 256], B256::repeat_byte(3)),
        Err(ConsensusError::BodyReceiptRootDiff { got: B256::repeat_byte(9), expected: B256::repeat_byte(1) })
    );
    assert_eq!(
        check(21_000, B256::repeat_byte(1), [0u8; 256], B256::repeat_byte(3)),
        Err(ConsensusError::BodyBloomLogDiff { got: [0u8; 256], expected: [2u8; 256] })
    );
    assert_eq!(
        check(21_000, B256::repeat_byte(1), [2u8; 256], B256::repeat_byte(4)),
        Err(ConsensusError::BodyStateRootDiff { got: B256::repeat_byte(4), expected: B256::repeat_byte(3) })
    );
}

#[test]
fn builders_share_the_chain_spec() {
    let spec = Arc::new(kub_dev_chain_spec());
    let consensus = KubConsensusBuilder.build_consensus(spec.clone());
    assert_eq!(consensus.chain_spec().period(), 5);
    let evm = KubExecutorBuilder.build_evm(spec);
    assert_eq!(evm.chain_spec().span(), 200);
    assert_eq!(evm.block_assembler().chain_spec.chain_id(), 25925);
    assert_eq!(evm.block_executor_factory().chain_spec().chain_id(), 25925);
}

#[test]
fn parser_builds_posa_defaults_over_genesis() {
    let inner = ChainSpec {
        chain_id: 96,
        hardforks: kub_dev_hardforks(),
        base_fee_params: kubchain::chainspec::BaseFeeParams::ethereum(),
    };
    let spec = KubChainSpecParser::parse(inner);
    assert_eq!(spec.chain_id(), 96);
    assert_eq!(spec.span(), 200);
    assert_eq!(spec.period(), 3);
    assert_eq!(spec.span_config.epoch, 30_000);
    assert!(spec.validator_contract.is_zero());
    assert_eq!(spec.fork(Hardfork::Kub(KubHardfork::Basel)), ForkCondition::Block(0));
    assert_eq!(
        spec.ethereum_fork_activation(EthereumHardfork::Cancun),
        ForkCondition::Never
    );
    assert_eq!(spec.base_fee_params_at_timestamp(123).max_change_denominator, 8);
}

#[test]
fn assembled_header_takes_env_and_context() {
    let config = KubEvmConfig::new(Arc::new(kub_dev_chain_spec()));
    let parent = Header {
        number: 7,
        parent_hash: B256::repeat_byte(9),
        base_fee_per_gas: Some(10),
        gas_limit: 100,
        gas_used: 50,
        ..Default::default()
    };
    let block = Header { number: 8, timestamp: 24, gas_limit: 100, difficulty: U256::from(2u64), beneficiary: Address::repeat_byte(5), base_fee_per_gas: Some(10), parent_hash: B256::repeat_byte(1), ..Default::default() };
    let env = config.evm_env(&block);
    let attrs = KubNextBlockEnvCtx {
        timestamp: 24,
        suggested_fee_recipient: Address::repeat_byte(5),
        gas_limit: 100,
    };
    let snapshot = KubSnapshot::new(7, B256::zero(), vec![Address::repeat_byte(5)], SystemContracts::default());
    let ctx = config.context_for_next_block(B256::repeat_byte(1), attrs, &snapshot);
    let header = config.block_assembler().assemble_block(
        &env,
        &ctx,
        42,
        B256::repeat_byte(0xaa),
        B256::repeat_byte(0xbb),
        B256::repeat_byte(0xcc),
        [7u8; 256],
    );
    assert_eq!(header.parent_hash, B256::repeat_byte(1));
    assert_eq!(header.ommers_hash.bytes, EMPTY_OMMER_ROOT_HASH);
    assert_eq!(
        EMPTY_OMMER_ROOT_HASH,
        alloy_primitives::keccak256([0xc0u8]).0
    );
    assert_eq!(header.number, 8);
    assert_eq!(header.timestamp, 24);
    assert_eq!(header.gas_used, 42);
    assert_eq!(header.difficulty, U256::from(2u64));
    assert_eq!(header.state_root, B256::repeat_byte(0xaa));
    assert_eq!(header.receipts_root, B256::repeat_byte(0xcc));
    assert_eq!(header.base_fee_per_gas, Some(10));
    assert!(header.extra_data.is_empty());
    assert_eq!(header.nonce, 0);
    // PoSA is active on the dev chain: the fees go to the system address
    assert_eq!(header.beneficiary, kubchain::types::system_address());
    let _ = parent;
}

#[test]
fn one_commitment_block_per_span() {
    let span = 200;
    let first = 400;
    assert!(is_span_first_block(span, first));
    let commits: Vec<u64> = (first..first + span).filter(|n| is_span_commitment_block(span, *n)).collect();
    assert_eq!(commits, vec![first + span / 2 + 1]);
    // a two-block span never commits
    assert!((0..20).all(|n| !is_span_commitment_block(2, n)));
}

#[test]
fn fork_activation_is_monotone() {
    let fork = ForkCondition::Block(5);
    assert!(!fork.active_at_block(4));
    assert!(fork.active_at_block(5) && fork.transitions_at_block(5));
    assert!(fork.active_at_block(6) && !fork.transitions_at_block(6));
    assert!(!ForkCondition::Timestamp(5).active_at_block(10));
    assert!(!ForkCondition::Never.transitions_at_block(0));
}

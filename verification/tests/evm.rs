use std::sync::Arc;

use kubchain::chainspec::{calc_next_block_base_fee, kub_dev_chain_spec, BaseFeeParams};
use kubchain::config::SpecId;
use kubchain::evm::{KubEvmConfig, KubNextBlockEnvCtx};
use kubchain::header::Header;
use kubchain::snapshot::KubSnapshot;
use kubchain::types::{system_address, Address, SystemContracts, B256};
use kubchain::u256::U256;

#[test]
fn test_kub_evm_config_creation() {
    let chain_spec = Arc::new(kub_dev_chain_spec());
    let config = KubEvmConfig::new(chain_spec.clone());
    assert_eq!(config.chain_spec().chain_id(), 25925);
}

#[test]
fn test_evm_env_with_system_address() {
    let chain_spec = Arc::new(kub_dev_chain_spec());
    let config = KubEvmConfig::new(chain_spec);

    // Dev chain has all forks at block 0, so Chaophraya is active.
    let header = Header {
        number: 100,
        ..Default::default()
    };
    let env = config.evm_env(&header);

    // Beneficiary should be SystemAddress when Chaophraya is active.
    assert_eq!(env.block_env.beneficiary, system_address());
}

#[test]
fn test_evm_env_spec_capped_at_london() {
    let chain_spec = Arc::new(kub_dev_chain_spec());
    let config = KubEvmConfig::new(chain_spec);

    let header = Header {
        number: 100,
        ..Default::default()
    };
    let env = config.evm_env(&header);

    // Spec should be capped at LONDON
    assert_eq!(env.cfg_env.spec, SpecId::LONDON);
}

#[test]
fn test_next_evm_env() {
    let chain_spec = Arc::new(kub_dev_chain_spec());
    let config = KubEvmConfig::new(chain_spec);

    let parent = Header {
        number: 99,
        gas_limit: 30_000_000,
        ..Default::default()
    };

    let attrs = KubNextBlockEnvCtx {
        timestamp: 100,
        suggested_fee_recipient: Address::zero(),
        gas_limit: 30_000_000,
    };

    let env = config.next_evm_env(&parent, &attrs);

    // Block number should be parent + 1
    assert_eq!(env.block_env.number, U256::from(100));
    // Beneficiary should be SystemAddress (Chaophraya active at block 0)
    assert_eq!(env.block_env.beneficiary, system_address());
    // Spec should be LONDON
    assert_eq!(env.cfg_env.spec, SpecId::LONDON);
}

#[test]
fn base_fee_follows_gas_target() {
    let p = BaseFeeParams::ethereum();
    // at target: unchanged
    assert_eq!(calc_next_block_base_fee(15_000_000, 30_000_000, 1_000_000_000, p), 1_000_000_000);
    // full block: +12.5%
    assert_eq!(calc_next_block_base_fee(30_000_000, 30_000_000, 1_000_000_000, p), 1_125_000_000);
    // empty block: -12.5%
    assert_eq!(calc_next_block_base_fee(0, 30_000_000, 1_000_000_000, p), 875_000_000);
    // tiny base fee still rises by at least 1
    assert_eq!(calc_next_block_base_fee(30_000_000, 30_000_000, 1, p), 2);
}

#[test]
fn next_evm_env_uses_parent_base_fee() {
    let config = KubEvmConfig::new(Arc::new(kub_dev_chain_spec()));
    let parent = Header {
        number: 9,
        gas_limit: 30_000_000,
        gas_used: 30_000_000,
        base_fee_per_gas: Some(1_000_000_000),
        ..Default::default()
    };
    let attrs = KubNextBlockEnvCtx {
        timestamp: 5,
        suggested_fee_recipient: Address::repeat_byte(4),
        gas_limit: 1,
    };
    let env = config.next_evm_env(&parent, &attrs);
    assert_eq!(env.block_env.basefee, 1_125_000_000);
    assert_eq!(env.block_env.difficulty, U256::from(0));
    assert_eq!(env.block_env.timestamp, U256::from(5));
    let contracts = SystemContracts {
        stake_manager: Address::repeat_byte(0x51),
        slash_manager: Address::repeat_byte(0x52),
        super_node: Address::repeat_byte(0x53),
    };
    let snapshot = KubSnapshot::new(9, B256::zero(), vec![Address::repeat_byte(4)], contracts);
    let ctx = config.context_for_next_block(parent.parent_hash, attrs, &snapshot);
    assert_eq!(ctx.signer, Address::repeat_byte(4));
    assert_eq!(ctx.system_contracts, contracts);
}

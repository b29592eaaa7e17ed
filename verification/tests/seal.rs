use std::sync::Arc;

use k256::ecdsa::SigningKey;
use kubchain::chainspec::kub_dev_chain_spec;
use kubchain::evm::KubEvmConfig;
use kubchain::header::Header;
use kubchain::seal::{recover_signer, seal_hash};
use kubchain::snapshot::KubSnapshot;
use kubchain::types::{Address, SystemContracts, B256};
use kubchain::u256::U256;
use kubchain::validation::KubConsensusError;

fn unsealed(extra_len: usize) -> Header {
    Header {
        parent_hash: B256::repeat_byte(1),
        number: 12,
        timestamp: 36,
        gas_limit: 30_000_000,
        difficulty: U256::from(2u64),
        extra_data: vec![0u8; extra_len],
        base_fee_per_gas: Some(7),
        ..Default::default()
    }
}

/// Signs the seal hash of `header` with `key` and writes the seal into its extra-data.
fn seal(mut header: Header, key: &SigningKey) -> Header {
    let hash = seal_hash(&header);
    let (sig, recid) = key.sign_prehash_recoverable(&hash.bytes).unwrap();
    let len = header.extra_data.len();
    header.extra_data[len - 65..len - 1].copy_from_slice(&sig.to_bytes());
    header.extra_data[len - 1] = recid.to_byte();
    header
}

fn address_of(key: &SigningKey) -> Address {
    Address { bytes: alloy_primitives::Address::from_public_key(key.verifying_key()).0 .0 }
}

#[test]
fn seal_recovers_its_signer() {
    let key = SigningKey::from_slice(&[0x11; 32]).unwrap();
    let header = seal(unsealed(97), &key);
    assert_eq!(recover_signer(&header), Ok(address_of(&key)));
    // the seal does not sign itself: resealing gives the same hash
    assert_eq!(seal_hash(&header), seal_hash(&unsealed(97)));
    // changing a sealed field changes the recovered signer
    let tampered = Header { gas_used: 1, ..header.clone() };
    assert_ne!(recover_signer(&tampered), Ok(address_of(&key)));
}

#[test]
fn seal_too_short_or_invalid() {
    assert_eq!(
        recover_signer(&unsealed(64)),
        Err(KubConsensusError::ExtraDataTooShort { length: 64, minimum: 65 })
    );
    let mut bad = unsealed(97);
    bad.extra_data[96] = 9;
    assert_eq!(recover_signer(&bad), Err(KubConsensusError::SignerRecoveryFailed));
}

#[test]
fn block_context_uses_seal_signer_and_snapshot_contracts() {
    let key = SigningKey::from_slice(&[0x22; 32]).unwrap();
    let header = seal(unsealed(97 + 40), &key);
    let contracts = SystemContracts {
        stake_manager: Address::repeat_byte(0x51),
        slash_manager: Address::repeat_byte(0x52),
        super_node: Address::repeat_byte(0x53),
    };
    let snapshot = KubSnapshot::new(11, B256::zero(), vec![address_of(&key)], contracts);
    let config = KubEvmConfig::new(Arc::new(kub_dev_chain_spec()));
    let ctx = config.context_for_block(&header, &snapshot).ok().unwrap();
    assert_eq!(ctx.signer, address_of(&key));
    assert_eq!(ctx.system_contracts, contracts);
    assert_eq!(ctx.parent_hash, B256::repeat_byte(1));
    assert!(config.context_for_block(&unsealed(10), &snapshot).is_err());
}

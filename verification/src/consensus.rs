//! The KubChain PoSA consensus engine and the builders that plug it, and the
//! EVM configuration, into a node.

use crate::chainspec::KubChainSpec;
use crate::evm::KubEvmConfig;
use crate::header::Header;
use crate::validation::{
    spec_validate_block_post_execution, spec_validate_header,
    spec_validate_header_against_parent, validate_block_post_execution,
    validate_block_pre_execution, validate_header, validate_header_against_parent,
    ConsensusError,
};
use crate::snapshot::KubSnapshot;
use crate::types::{Address, B256, INMEMORY_SIGNATURES, INMEMORY_SNAPSHOTS};
use std::hash::Hash;
use std::sync::Arc;
use vstd::prelude::*;

verus! {

/// A least-recently-used cache of the `lru` crate.
#[verifier::external_type_specification]
#[verifier::external_body]
#[verifier::reject_recursive_types(K)]
#[verifier::reject_recursive_types(V)]
#[verifier::reject_recursive_types(S)]
pub struct ExLruCache<K, V, S>(lru::LruCache<K, V, S>);

/// The default hash builder of `lru::LruCache`.
#[verifier::external_type_specification]
#[verifier::external_body]
pub struct ExLruDefaultHasher(lru::DefaultHasher);

/// The raw lock under `parking_lot::RwLock`.
#[verifier::external_type_specification]
#[verifier::external_body]
pub struct ExRawRwLock(parking_lot::RawRwLock);

/// A reader-writer lock of the `parking_lot` crate.
#[verifier::external_type_specification]
#[verifier::external_body]
#[verifier::reject_recursive_types(R)]
#[verifier::reject_recursive_types(T)]
pub struct ExRwLock<R, T: ?Sized>(parking_lot::lock_api::RwLock<R, T>);

/// An empty cache holding at most `cap` entries, made by `lru::LruCache::new`.
/// Nothing is stated of the cache: the library only creates it.
#[verifier::external_body]
fn new_lru_cache<K: Hash + Eq, V>(cap: usize) -> lru::LruCache<K, V>
    requires
        cap > 0,
{
    lru::LruCache::new(std::num::NonZeroUsize::new(cap).unwrap())
}

/// An unlocked lock around `value`, made by `parking_lot::RwLock::new`.
/// Nothing is stated of the lock: the library only creates it.
#[verifier::external_body]
fn new_rwlock<T>(value: T) -> parking_lot::RwLock<T> {
    parking_lot::RwLock::new(value)
}

/// KubChain PoSA consensus engine: the chain specification with caches of recent
/// snapshots and of recovered block signers.
#[derive(Debug)]
pub struct KubConsensus {
    /// KubChain chain specification.
    pub chain_spec: Arc<KubChainSpec>,
    /// Cache of recent validator snapshots, by block hash.
    pub snapshot_cache: parking_lot::RwLock<lru::LruCache<B256, KubSnapshot>>,
    /// Cache of recently recovered block signers, by block hash.
    pub signature_cache: parking_lot::RwLock<lru::LruCache<B256, Address>>,
}

impl KubConsensus {
    /// Creates a consensus engine with empty caches for 128 snapshots and 4096 signers.
    pub fn new(chain_spec: Arc<KubChainSpec>) -> (r: Self)
        ensures
            *r.chain_spec == *chain_spec,
    {
        KubConsensus {
            chain_spec,
            snapshot_cache: new_rwlock(new_lru_cache(INMEMORY_SNAPSHOTS)),
            signature_cache: new_rwlock(new_lru_cache(INMEMORY_SIGNATURES)),
        }
    }

    /// Returns the chain specification.
    pub fn chain_spec(&self) -> (r: &KubChainSpec)
        ensures
            *r == *self.chain_spec,
    {
        &self.chain_spec
    }

    /// Validates a header in isolation: extra-data length, difficulty, nonce and gas usage.
    pub fn validate_header(&self, header: &Header) -> (r: Result<(), ConsensusError>)
        ensures
            r == spec_validate_header(*header),
    {
        validate_header(header, &self.chain_spec)
    }

    /// Validates a header against its parent: block number, timestamp and gas limit.
    pub fn validate_header_against_parent(&self, header: &Header, parent: &Header) -> (r: Result<
        (),
        ConsensusError,
    >)
        requires
            parent.number < u64::MAX,
        ensures
            r == spec_validate_header_against_parent(*header, *parent),
    {
        validate_header_against_parent(header, parent, &self.chain_spec)
    }

    /// Validates a block, by its header, before execution.
    pub fn validate_block_pre_execution(&self, header: &Header) -> (r: Result<(), ConsensusError>)
        ensures
            r == spec_validate_header(*header),
    {
        validate_block_pre_execution(header, &self.chain_spec)
    }

    /// Validates a block after execution: gas used, receipts root, logs bloom and
    /// state root of the execution against the header.
    pub fn validate_block_post_execution(
        &self,
        header: &Header,
        gas_used: u64,
        receipts_root: B256,
        logs_bloom: &[u8; 256],
        state_root: B256,
    ) -> (r: Result<(), ConsensusError>)
        ensures
            r == spec_validate_block_post_execution(
                *header,
                gas_used,
                receipts_root,
                *logs_bloom,
                state_root,
            ),
    {
        validate_block_post_execution(
            header,
            gas_used,
            receipts_root,
            logs_bloom,
            state_root,
            &self.chain_spec,
        )
    }
}

/// KubChain node type.
#[derive(Clone, Copy, Debug, Default)]
pub struct KubNode;

/// Builds the [`KubConsensus`] of a KubChain node.
#[derive(Clone, Copy, Debug, Default)]
pub struct KubConsensusBuilder;

impl KubConsensusBuilder {
    /// The consensus engine for the node's chain.
    pub fn build_consensus(self, chain_spec: Arc<KubChainSpec>) -> (r: Arc<KubConsensus>)
        ensures
            *r.chain_spec == *chain_spec,
    {
        Arc::new(KubConsensus::new(chain_spec))
    }
}

/// Builds the [`KubEvmConfig`] of a KubChain node.
#[derive(Clone, Copy, Debug, Default)]
pub struct KubExecutorBuilder;

impl KubExecutorBuilder {
    /// The EVM configuration for the node's chain.
    pub fn build_evm(self, chain_spec: Arc<KubChainSpec>) -> (r: KubEvmConfig)
        ensures
            *r.chain_spec == *chain_spec,
    {
        KubEvmConfig::new(chain_spec)
    }
}

} // verus!

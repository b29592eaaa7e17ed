//! KubChain EVM configuration: the environment each block executes in.
//!
//! After the Chaophraya hardfork all gas fees are paid to the system address,
//! from which they are distributed at the end of the block; the EVM
//! specification is capped at London; there is no prevrandao.

use crate::chainspec::{base_fee_computable, spec_next_base_fee, KubChainSpec};
use crate::config::{kub_revm_spec, kub_revm_spec_by_block_number, spec_kub_revm_spec, SpecId};
use crate::execute::{KubBlockAssembler, KubBlockExecutionCtx, KubBlockExecutorFactory};
use crate::hardforks::{Hardfork, KubHardfork};
use crate::header::Header;
use crate::seal::{recover_signer, spec_recover_signer};
use crate::snapshot::KubSnapshot;
use crate::validation::KubConsensusError;
use crate::types::{spec_system_address_bytes, system_address, Address, SystemContracts, B256};
use crate::u256::U256;
use std::sync::Arc;
use vstd::prelude::*;

verus! {

/// Chain-level EVM configuration.
#[derive(Clone, Copy, Debug)]
pub struct CfgEnv {
    /// The chain id.
    pub chain_id: u64,
    /// The EVM specification.
    pub spec: SpecId,
}

/// Block-level EVM environment.
#[derive(Clone, Copy, Debug)]
pub struct BlockEnv {
    /// Block number.
    pub number: U256,
    /// Recipient of the gas fees.
    pub beneficiary: Address,
    /// Block timestamp.
    pub timestamp: U256,
    /// Block difficulty.
    pub difficulty: U256,
    /// Previous randao value (never set on KubChain).
    pub prevrandao: Option<B256>,
    /// Block gas limit.
    pub gas_limit: u64,
    /// Base fee per gas.
    pub basefee: u64,
}

/// The EVM environment of a block.
#[derive(Clone, Copy, Debug)]
pub struct EvmEnv {
    /// Chain-level configuration.
    pub cfg_env: CfgEnv,
    /// Block-level environment.
    pub block_env: BlockEnv,
}

/// Attributes for configuring the next KubChain block.
#[derive(Clone, Copy, Debug)]
pub struct KubNextBlockEnvCtx {
    /// Block timestamp.
    pub timestamp: u64,
    /// Block producer address (coinbase).
    pub suggested_fee_recipient: Address,
    /// Block gas limit.
    pub gas_limit: u64,
}

/// KubChain EVM configuration: block executor factory, block assembler and chain spec.
#[derive(Clone, Debug)]
pub struct KubEvmConfig {
    /// Block executor factory.
    pub executor_factory: KubBlockExecutorFactory,
    /// Block assembler.
    pub block_assembler: KubBlockAssembler,
    /// Chain specification.
    pub chain_spec: Arc<KubChainSpec>,
}

/// Is Chaophraya (PoSA) active at `block_number` under `spec`?
pub open spec fn posa_active(spec: KubChainSpec, block_number: u64) -> bool {
    spec.inner.hardforks.spec_fork(Hardfork::Kub(KubHardfork::Chaophraya)).spec_active_at_block(
        block_number,
    )
}

/// The fee recipient of a block: the system address once PoSA is active, else `coinbase`.
pub open spec fn fee_recipient(spec: KubChainSpec, block_number: u64, coinbase: Address) -> Seq<u8> {
    if posa_active(spec, block_number) {
        spec_system_address_bytes()
    } else {
        coinbase.bytes@
    }
}

/// Whether PoSA is active at `block_number`.
pub fn is_posa_active(chain_spec: &KubChainSpec, block_number: u64) -> (r: bool)
    ensures
        r == posa_active(*chain_spec, block_number),
{
    chain_spec.inner().fork(Hardfork::Kub(KubHardfork::Chaophraya)).active_at_block(block_number)
}

impl KubEvmConfig {
    /// Creates a configuration whose executor factory and block assembler share `chain_spec`.
    pub fn new(chain_spec: Arc<KubChainSpec>) -> (r: Self)
        ensures
            *r.spec() == *chain_spec,
            *r.executor_factory.spec() == *chain_spec,
            *r.block_assembler.chain_spec == *chain_spec,
    {
        Self::with_evm_factory(chain_spec)
    }

    /// Creates a configuration whose executor factory and block assembler share `chain_spec`.
    pub fn with_evm_factory(chain_spec: Arc<KubChainSpec>) -> (r: Self)
        ensures
            *r.spec() == *chain_spec,
            *r.executor_factory.spec() == *chain_spec,
            *r.block_assembler.chain_spec == *chain_spec,
    {
        KubEvmConfig {
            block_assembler: KubBlockAssembler::new(chain_spec.clone()),
            executor_factory: KubBlockExecutorFactory::new(chain_spec.clone()),
            chain_spec,
        }
    }

    /// The chain specification.
    pub open spec fn spec(&self) -> &Arc<KubChainSpec> {
        &self.chain_spec
    }

    /// Returns the chain specification.
    pub fn chain_spec(&self) -> (r: &Arc<KubChainSpec>)
        ensures
            r == self.spec(),
    {
        &self.chain_spec
    }

    /// Returns the block executor factory.
    pub fn block_executor_factory(&self) -> (r: &KubBlockExecutorFactory)
        ensures
            *r == self.executor_factory,
    {
        &self.executor_factory
    }

    /// Returns the block assembler.
    pub fn block_assembler(&self) -> (r: &KubBlockAssembler)
        ensures
            *r == self.block_assembler,
    {
        &self.block_assembler
    }

    /// The EVM environment of the block with header `header`.
    pub fn evm_env(&self, header: &Header) -> (r: EvmEnv)
        ensures
            r.cfg_env.chain_id == self.chain_spec.inner.chain_id,
            r.cfg_env.spec == spec_kub_revm_spec(self.chain_spec.inner.hardforks, header.number),
            r.block_env.number.value() == header.number,
            r.block_env.beneficiary.bytes@ == fee_recipient(
                *self.chain_spec,
                header.number,
                header.beneficiary,
            ),
            r.block_env.timestamp.value() == header.timestamp,
            r.block_env.difficulty == header.difficulty,
            r.block_env.prevrandao is None,
            r.block_env.gas_limit == header.gas_limit,
            r.block_env.basefee == match header.base_fee_per_gas {
                Some(b) => b,
                None => 0,
            },
    {
        let spec = kub_revm_spec(&self.chain_spec.inner().hardforks, header);
        let cfg_env = CfgEnv { chain_id: self.chain_spec.chain_id(), spec };
        let beneficiary = if is_posa_active(&self.chain_spec, header.number) {
            system_address()
        } else {
            header.beneficiary
        };
        let basefee = match header.base_fee_per_gas {
            Some(b) => b,
            None => 0,
        };
        let block_env = BlockEnv {
            number: U256::from_u64(header.number),
            beneficiary,
            timestamp: U256::from_u64(header.timestamp),
            difficulty: header.difficulty,
            prevrandao: None,
            gas_limit: header.gas_limit,
            basefee,
        };
        EvmEnv { cfg_env, block_env }
    }

    /// The EVM environment of the block following `parent`, built with `attributes`.
    /// The difficulty is left at zero for the consensus layer to set.
    pub fn next_evm_env(&self, parent: &Header, attributes: &KubNextBlockEnvCtx) -> (r: EvmEnv)
        requires
            parent.number < u64::MAX,
            parent.base_fee_per_gas matches Some(b) ==> base_fee_computable(
                parent.gas_used,
                parent.gas_limit,
                b,
                self.chain_spec.inner.base_fee_params,
            ),
        ensures
            r.cfg_env.chain_id == self.chain_spec.inner.chain_id,
            r.cfg_env.spec == spec_kub_revm_spec(
                self.chain_spec.inner.hardforks,
                (parent.number + 1) as u64,
            ),
            r.block_env.number.value() == parent.number + 1,
            r.block_env.beneficiary.bytes@ == fee_recipient(
                *self.chain_spec,
                (parent.number + 1) as u64,
                attributes.suggested_fee_recipient,
            ),
            r.block_env.timestamp.value() == attributes.timestamp,
            r.block_env.difficulty.value() == 0,
            r.block_env.prevrandao is None,
            r.block_env.gas_limit == attributes.gas_limit,
            r.block_env.basefee == match parent.base_fee_per_gas {
                Some(b) => spec_next_base_fee(
                    parent.gas_used,
                    parent.gas_limit,
                    b,
                    self.chain_spec.inner.base_fee_params,
                ),
                None => 0,
            },
    {
        let next_block_number = parent.number + 1;
        let spec = kub_revm_spec_by_block_number(&self.chain_spec.inner().hardforks, next_block_number);
        let cfg_env = CfgEnv { chain_id: self.chain_spec.chain_id(), spec };
        let beneficiary = if is_posa_active(&self.chain_spec, next_block_number) {
            system_address()
        } else {
            attributes.suggested_fee_recipient
        };
        let basefee = match self.chain_spec.inner().next_block_base_fee(parent, attributes.timestamp) {
            Some(b) => b,
            None => 0,
        };
        let block_env = BlockEnv {
            number: U256::from_u64(next_block_number),
            beneficiary,
            timestamp: U256::from_u64(attributes.timestamp),
            difficulty: U256::zero(),
            prevrandao: None,
            gas_limit: attributes.gas_limit,
            basefee,
        };
        EvmEnv { cfg_env, block_env }
    }

    /// The execution context of the block with header `header`, whose parent state has
    /// the validator snapshot `snapshot`: its parent hash, the chain spec, the signer
    /// recovered from its seal, and the snapshot's system contracts. An error when no
    /// signer recovers from the seal.
    pub fn context_for_block(&self, header: &Header, snapshot: &KubSnapshot) -> (r: Result<
        KubBlockExecutionCtx,
        KubConsensusError,
    >)
        ensures
            match spec_recover_signer(*header) {
                Ok(signer) => r matches Ok(ctx) && ctx.signer == signer && ctx.parent_hash
                    == header.parent_hash && *ctx.chain_spec == *self.chain_spec
                    && ctx.system_contracts == snapshot.system_contracts,
                Err(e) => r == Err::<KubBlockExecutionCtx, KubConsensusError>(e),
            },
    {
        let signer = recover_signer(header)?;
        Ok(
            KubBlockExecutionCtx {
                parent_hash: header.parent_hash,
                chain_spec: self.chain_spec.clone(),
                signer,
                system_contracts: snapshot.system_contracts,
            },
        )
    }

    /// The execution context of the block built on the parent with hash `parent_hash`,
    /// whose state has the validator snapshot `snapshot`: the block's producer, the
    /// suggested fee recipient, is its signer, with the snapshot's system contracts.
    pub fn context_for_next_block(
        &self,
        parent_hash: B256,
        attributes: KubNextBlockEnvCtx,
        snapshot: &KubSnapshot,
    ) -> (r: KubBlockExecutionCtx)
        ensures
            r.parent_hash == parent_hash,
            *r.chain_spec == *self.chain_spec,
            r.signer == attributes.suggested_fee_recipient,
            r.system_contracts == snapshot.system_contracts,
    {
        KubBlockExecutionCtx {
            parent_hash,
            chain_spec: self.chain_spec.clone(),
            signer: attributes.suggested_fee_recipient,
            system_contracts: snapshot.system_contracts,
        }
    }
}

} // verus!

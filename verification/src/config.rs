//! Mapping of the hardfork schedule to the EVM specification in force.
//! KubChain's EVM never goes beyond London.

use crate::hardforks::{ChainHardforks, EthereumHardfork};
use crate::header::Header;
use vstd::prelude::*;

verus! {

/// The EVM specifications KubChain runs, from Frontier up to London.
#[allow(non_camel_case_types)]
#[derive(Clone, Copy, Debug, PartialEq, Eq, Structural)]
pub enum SpecId {
    /// Frontier.
    FRONTIER,
    /// Homestead.
    HOMESTEAD,
    /// Tangerine Whistle.
    TANGERINE,
    /// Spurious Dragon.
    SPURIOUS_DRAGON,
    /// Byzantium.
    BYZANTIUM,
    /// Petersburg.
    PETERSBURG,
    /// Istanbul.
    ISTANBUL,
    /// Berlin.
    BERLIN,
    /// London.
    LONDON,
}

/// The specification at `block_number`: that of the latest of London, Berlin,
/// Istanbul, Petersburg, Byzantium, Spurious Dragon, Tangerine and Homestead
/// active there, else Frontier.
pub open spec fn spec_kub_revm_spec(forks: ChainHardforks, block_number: u64) -> SpecId {
    if forks.spec_ethereum_active(EthereumHardfork::London, block_number) {
        SpecId::LONDON
    } else if forks.spec_ethereum_active(EthereumHardfork::Berlin, block_number) {
        SpecId::BERLIN
    } else if forks.spec_ethereum_active(EthereumHardfork::Istanbul, block_number) {
        SpecId::ISTANBUL
    } else if forks.spec_ethereum_active(EthereumHardfork::Petersburg, block_number) {
        SpecId::PETERSBURG
    } else if forks.spec_ethereum_active(EthereumHardfork::Byzantium, block_number) {
        SpecId::BYZANTIUM
    } else if forks.spec_ethereum_active(EthereumHardfork::SpuriousDragon, block_number) {
        SpecId::SPURIOUS_DRAGON
    } else if forks.spec_ethereum_active(EthereumHardfork::Tangerine, block_number) {
        SpecId::TANGERINE
    } else if forks.spec_ethereum_active(EthereumHardfork::Homestead, block_number) {
        SpecId::HOMESTEAD
    } else {
        SpecId::FRONTIER
    }
}

/// The EVM specification in force at the header's block.
pub fn kub_revm_spec(chain_spec: &ChainHardforks, header: &Header) -> (r: SpecId)
    ensures
        r == spec_kub_revm_spec(*chain_spec, header.number),
{
    kub_revm_spec_by_block_number(chain_spec, header.number)
}

/// The EVM specification in force at `block_number`, capped at London.
pub fn kub_revm_spec_by_block_number(chain_spec: &ChainHardforks, block_number: u64) -> (r: SpecId)
    ensures
        r == spec_kub_revm_spec(*chain_spec, block_number),
{
    if chain_spec.is_ethereum_fork_active_at_block(EthereumHardfork::London, block_number) {
        SpecId::LONDON
    } else if chain_spec.is_ethereum_fork_active_at_block(EthereumHardfork::Berlin, block_number) {
        SpecId::BERLIN
    } else if chain_spec.is_ethereum_fork_active_at_block(EthereumHardfork::Istanbul, block_number) {
        SpecId::ISTANBUL
    } else if chain_spec.is_ethereum_fork_active_at_block(EthereumHardfork::Petersburg, block_number) {
        SpecId::PETERSBURG
    } else if chain_spec.is_ethereum_fork_active_at_block(EthereumHardfork::Byzantium, block_number) {
        SpecId::BYZANTIUM
    } else if chain_spec.is_ethereum_fork_active_at_block(
        EthereumHardfork::SpuriousDragon,
        block_number,
    ) {
        SpecId::SPURIOUS_DRAGON
    } else if chain_spec.is_ethereum_fork_active_at_block(EthereumHardfork::Tangerine, block_number) {
        SpecId::TANGERINE
    } else if chain_spec.is_ethereum_fork_active_at_block(EthereumHardfork::Homestead, block_number) {
        SpecId::HOMESTEAD
    } else {
        SpecId::FRONTIER
    }
}

} // verus!

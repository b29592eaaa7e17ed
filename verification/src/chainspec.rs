//! KubChain chain specification: chain id, hardfork schedule, base fee
//! parameters, span configuration and validator set contracts.

use crate::hardforks::{kub_dev_hardforks, ChainHardforks, EthereumHardfork, ForkCondition, Hardfork};
use crate::header::Header;
use crate::types::{Address, SpanConfig};
use std::sync::Arc;
use vstd::prelude::*;

verus! {

/// EIP-1559 base fee parameters.
#[derive(Clone, Copy, Debug, PartialEq, Eq, Structural)]
pub struct BaseFeeParams {
    /// Bound divisor of the base fee change.
    pub max_change_denominator: u128,
    /// Ratio of the gas limit to the gas target.
    pub elasticity_multiplier: u128,
}

impl BaseFeeParams {
    /// The Ethereum mainnet parameters: change denominator 8, elasticity 2.
    pub fn ethereum() -> (r: BaseFeeParams)
        ensures
            r.max_change_denominator == 8,
            r.elasticity_multiplier == 2,
    {
        BaseFeeParams { max_change_denominator: 8, elasticity_multiplier: 2 }
    }
}

/// The gas target of a block: its gas limit divided by the elasticity multiplier.
pub open spec fn gas_target(gas_limit: u64, params: BaseFeeParams) -> int {
    gas_limit as int / (params.elasticity_multiplier as u64) as int
}

/// The parameters and parent values on which the EIP-1559 computation does not panic:
/// a non-zero elasticity and denominator, a divisor that fits in 128 bits and is
/// non-zero where it is used, and an increased base fee that fits in 64 bits.
pub open spec fn base_fee_computable(gas_used: u64, gas_limit: u64, base_fee: u64, params: BaseFeeParams) -> bool {
    let target = gas_target(gas_limit, params);
    let divisor = target * params.max_change_denominator;
    &&& (params.elasticity_multiplier as u64) != 0
    &&& divisor <= u128::MAX
    &&& (gas_used != target ==> divisor != 0)
    &&& (gas_used > target ==> base_fee + spec_increase(gas_used, target, base_fee, divisor) <= u64::MAX)
}

/// The base fee increase for a block above its gas target (at least 1), truncated to 64 bits.
pub open spec fn spec_increase(gas_used: u64, target: int, base_fee: u64, divisor: int) -> u64 {
    let q = base_fee * (gas_used - target) / divisor;
    (if q < 1 { 1 } else { q }) as u64
}

/// The EIP-1559 base fee of the next block.
pub open spec fn spec_next_base_fee(gas_used: u64, gas_limit: u64, base_fee: u64, params: BaseFeeParams) -> u64 {
    let target = gas_target(gas_limit, params);
    let divisor = target * params.max_change_denominator;
    if gas_used == target {
        base_fee
    } else if gas_used > target {
        (base_fee + spec_increase(gas_used, target, base_fee, divisor)) as u64
    } else {
        let d = base_fee * (target - gas_used) / divisor;
        if d >= base_fee {
            0
        } else {
            (base_fee - d) as u64
        }
    }
}

/// The EIP-1559 base fee moves towards the gas target: it stays the same after a
/// block that used exactly its target, rises (by at least one) after a block above
/// it, and does not rise after a block below it. (A rise too large for 64 bits is
/// truncated by the computation, so those inputs are left out.)
pub proof fn lemma_base_fee_direction(gas_used: u64, gas_limit: u64, base_fee: u64, params: BaseFeeParams)
    requires
        base_fee_computable(gas_used, gas_limit, base_fee, params),
        gas_used > gas_target(gas_limit, params) ==> base_fee * (gas_used - gas_target(
            gas_limit,
            params,
        )) / (gas_target(gas_limit, params) * params.max_change_denominator) <= u64::MAX,
    ensures
        ({
            let target = gas_target(gas_limit, params);
            let next = spec_next_base_fee(gas_used, gas_limit, base_fee, params);
            &&& gas_used == target ==> next == base_fee
            &&& gas_used > target ==> next > base_fee
            &&& gas_used < target ==> next <= base_fee
        }),
{
}

/// Below its gas target, a block lowers the base fee in proportion to its shortfall:
/// the decrease is the base fee times the gas left unused under the target, divided by
/// the target times the change denominator (rounded down). It never exceeds the base fee.
pub proof fn lemma_base_fee_decrease(gas_used: u64, gas_limit: u64, base_fee: u64, params: BaseFeeParams)
    requires
        base_fee_computable(gas_used, gas_limit, base_fee, params),
        gas_used < gas_target(gas_limit, params),
    ensures
        ({
            let target = gas_target(gas_limit, params);
            let decrease = base_fee * (target - gas_used) / (target * params.max_change_denominator);
            &&& decrease <= base_fee
            &&& spec_next_base_fee(gas_used, gas_limit, base_fee, params) == base_fee - decrease
        }),
{
    let target = gas_target(gas_limit, params);
    let divisor = target * params.max_change_denominator;
    let num = base_fee * (target - gas_used);
    assert(num <= base_fee * target) by (nonlinear_arith)
        requires
            num == base_fee * (target - gas_used),
            gas_used >= 0,
            base_fee >= 0,
    ;
    assert(params.max_change_denominator >= 1) by (nonlinear_arith)
        requires
            divisor == target * params.max_change_denominator,
            divisor != 0,
    ;
    assert(base_fee * target <= base_fee * divisor) by (nonlinear_arith)
        requires
            divisor == target * params.max_change_denominator,
            params.max_change_denominator >= 1,
            target >= 0,
            base_fee >= 0,
    ;
    assert(num / divisor <= base_fee) by (nonlinear_arith)
        requires
            num <= base_fee * divisor,
            divisor > 0,
            num >= 0,
    ;
}

/// Above its gas target, a block raises the base fee in proportion to its excess gas:
/// by the base fee times the gas used over the target, divided by the target times the
/// change denominator (rounded down), and by at least one. (A rise too large for 64
/// bits is truncated by the computation, so those inputs are left out.)
pub proof fn lemma_base_fee_increase(gas_used: u64, gas_limit: u64, base_fee: u64, params: BaseFeeParams)
    requires
        base_fee_computable(gas_used, gas_limit, base_fee, params),
        gas_used > gas_target(gas_limit, params),
        base_fee * (gas_used - gas_target(gas_limit, params)) / (gas_target(gas_limit, params)
            * params.max_change_denominator) <= u64::MAX,
    ensures
        ({
            let target = gas_target(gas_limit, params);
            let q = base_fee * (gas_used - target) / (target * params.max_change_denominator);
            spec_next_base_fee(gas_used, gas_limit, base_fee, params) == base_fee + if q < 1 {
                1
            } else {
                q
            }
        }),
{
}

/// The next base fee grows with the parent's gas used: a fuller parent block never
/// gives a lower base fee. (Rises too large for 64 bits are left out, as above.)
pub proof fn lemma_base_fee_monotone(g1: u64, g2: u64, gas_limit: u64, base_fee: u64, params: BaseFeeParams)
    requires
        g1 <= g2,
        base_fee_computable(g1, gas_limit, base_fee, params),
        base_fee_computable(g2, gas_limit, base_fee, params),
        g1 > gas_target(gas_limit, params) ==> base_fee * (g1 - gas_target(gas_limit, params)) / (
        gas_target(gas_limit, params) * params.max_change_denominator) <= u64::MAX,
        g2 > gas_target(gas_limit, params) ==> base_fee * (g2 - gas_target(gas_limit, params)) / (
        gas_target(gas_limit, params) * params.max_change_denominator) <= u64::MAX,
    ensures
        spec_next_base_fee(g1, gas_limit, base_fee, params) <= spec_next_base_fee(
            g2,
            gas_limit,
            base_fee,
            params,
        ),
{
    let target = gas_target(gas_limit, params);
    let divisor = target * params.max_change_denominator;
    lemma_base_fee_direction(g1, gas_limit, base_fee, params);
    lemma_base_fee_direction(g2, gas_limit, base_fee, params);
    if g2 < target {
        lemma_base_fee_decrease(g1, gas_limit, base_fee, params);
        lemma_base_fee_decrease(g2, gas_limit, base_fee, params);
        assert(base_fee * (target - g2) <= base_fee * (target - g1)) by (nonlinear_arith)
            requires
                g1 <= g2,
                g2 < target,
                base_fee >= 0,
        ;
        vstd::arithmetic::div_mod::lemma_div_is_ordered(
            base_fee * (target - g2),
            base_fee * (target - g1),
            divisor,
        );
    } else if g1 > target {
        lemma_base_fee_increase(g1, gas_limit, base_fee, params);
        lemma_base_fee_increase(g2, gas_limit, base_fee, params);
        assert(base_fee * (g1 - target) <= base_fee * (g2 - target)) by (nonlinear_arith)
            requires
                g1 <= g2,
                g1 > target,
                base_fee >= 0,
        ;
        vstd::arithmetic::div_mod::lemma_div_is_ordered(
            base_fee * (g1 - target),
            base_fee * (g2 - target),
            divisor,
        );
    }
}

/// Computes the EIP-1559 base fee of the next block from the parent's gas used,
/// gas limit and base fee.
pub fn calc_next_block_base_fee(gas_used: u64, gas_limit: u64, base_fee: u64, params: BaseFeeParams) -> (r: u64)
    requires
        base_fee_computable(gas_used, gas_limit, base_fee, params),
    ensures
        r == spec_next_base_fee(gas_used, gas_limit, base_fee, params),
{
    let elasticity = #[verifier::truncate] (params.elasticity_multiplier as u64);
    let target = gas_limit / elasticity;
    if gas_used == target {
        base_fee
    } else if gas_used > target {
        let divisor = target as u128 * params.max_change_denominator;
        let diff = gas_used - target;
        assert(base_fee as u128 * diff as u128 <= u128::MAX) by (nonlinear_arith)
            requires
                base_fee <= u64::MAX,
                diff <= u64::MAX,
        ;
        let num = base_fee as u128 * diff as u128;
        assert(num == base_fee * (gas_used - target)) by (nonlinear_arith)
            requires
                num == base_fee as u128 * diff as u128,
                diff == gas_used - target,
        ;
        let q = num / divisor;
        let inc = if q < 1 {
            1u128
        } else {
            q
        };
        base_fee + #[verifier::truncate] (inc as u64)
    } else {
        let divisor = target as u128 * params.max_change_denominator;
        let diff = target - gas_used;
        assert(base_fee as u128 * diff as u128 <= u128::MAX) by (nonlinear_arith)
            requires
                base_fee <= u64::MAX,
                diff <= u64::MAX,
        ;
        let num = base_fee as u128 * diff as u128;
        proof {
            assert(num <= base_fee * target) by (nonlinear_arith)
                requires
                    num == base_fee * diff,
                    diff <= target,
                    base_fee >= 0,
            ;
            assert(base_fee * target <= base_fee * divisor) by (nonlinear_arith)
                requires
                    divisor == target * params.max_change_denominator,
                    params.max_change_denominator >= 1,
                    target >= 0,
                    base_fee >= 0,
            ;
            assert(num / divisor <= base_fee) by (nonlinear_arith)
                requires
                    num <= base_fee * divisor,
                    divisor > 0,
            ;
        }
        let d = (num / divisor) as u64;
        base_fee.saturating_sub(d)
    }
}

/// The base chain specification: chain id, hardfork schedule and base fee parameters.
#[derive(Clone, Debug)]
pub struct ChainSpec {
    /// The chain id.
    pub chain_id: u64,
    /// The hardfork schedule.
    pub hardforks: ChainHardforks,
    /// EIP-1559 base fee parameters.
    pub base_fee_params: BaseFeeParams,
}

impl ChainSpec {
    /// The activation condition of `fork` (`Never` when not scheduled).
    pub fn fork(&self, fork: Hardfork) -> (r: ForkCondition)
        ensures
            r == self.hardforks.spec_fork(fork),
    {
        self.hardforks.fork(fork)
    }

    /// Whether the Ethereum fork `fork` is active at `block_number`.
    pub fn is_ethereum_fork_active_at_block(&self, fork: EthereumHardfork, block_number: u64) -> (r: bool)
        ensures
            r == self.hardforks.spec_ethereum_active(fork, block_number),
    {
        self.hardforks.is_ethereum_fork_active_at_block(fork, block_number)
    }

    /// The base fee of the block after `parent`: `None` when the parent has no base fee.
    pub fn next_block_base_fee(&self, parent: &Header, target_timestamp: u64) -> (r: Option<u64>)
        requires
            parent.base_fee_per_gas matches Some(b) ==> base_fee_computable(
                parent.gas_used,
                parent.gas_limit,
                b,
                self.base_fee_params,
            ),
        ensures
            r == match parent.base_fee_per_gas {
                Some(b) => Some(
                    spec_next_base_fee(parent.gas_used, parent.gas_limit, b, self.base_fee_params),
                ),
                None => None::<u64>,
            },
    {
        match parent.base_fee_per_gas {
            Some(b) => Some(
                calc_next_block_base_fee(parent.gas_used, parent.gas_limit, b, self.base_fee_params),
            ),
            None => None,
        }
    }
}

/// KubChain chain specification: a base chain specification extended with the
/// PoSA span configuration and the validator set contracts.
#[derive(Clone, Debug)]
pub struct KubChainSpec {
    /// Base chain specification.
    pub inner: Arc<ChainSpec>,
    /// Span configuration for validator rotation.
    pub span_config: SpanConfig,
    /// V1 validator set contract address.
    pub validator_contract: Address,
    /// V2 validator set contract address (ChaophrayaBangkok onwards).
    pub validator_contract_v2: Address,
}

impl KubChainSpec {
    /// The base chain specification.
    pub fn inner(&self) -> (r: &ChainSpec)
        ensures
            *r == *self.inner,
    {
        &self.inner
    }

    /// The chain id.
    pub fn chain_id(&self) -> (r: u64)
        ensures
            r == self.inner.chain_id,
    {
        self.inner.chain_id
    }

    /// The activation condition of `fork` (`Never` when not scheduled).
    pub fn fork(&self, fork: Hardfork) -> (r: ForkCondition)
        ensures
            r == self.inner.hardforks.spec_fork(fork),
    {
        self.inner.fork(fork)
    }

    /// The activation condition of the Ethereum fork `fork`.
    pub fn ethereum_fork_activation(&self, fork: EthereumHardfork) -> (r: ForkCondition)
        ensures
            r == self.inner.hardforks.spec_fork(Hardfork::Ethereum(fork)),
    {
        self.inner.fork(Hardfork::Ethereum(fork))
    }

    /// The base fee parameters in force at `timestamp`: the same at every time.
    pub fn base_fee_params_at_timestamp(&self, timestamp: u64) -> (r: BaseFeeParams)
        ensures
            r == self.inner.base_fee_params,
    {
        self.inner.base_fee_params
    }

    /// The span size in blocks.
    pub fn span(&self) -> (r: u64)
        ensures
            r == self.span_config.span,
    {
        self.span_config.span
    }

    /// The block period in seconds.
    pub fn period(&self) -> (r: u64)
        ensures
            r == self.span_config.period,
    {
        self.span_config.period
    }

    /// A KubChain specification over the base specification read from a genesis file,
    /// with span 200, period 3, epoch 30000 and zero validator contract addresses.
    pub fn from_genesis(inner: ChainSpec) -> (r: KubChainSpec)
        ensures
            *r.inner == inner,
            r.span_config == (SpanConfig { span: 200, period: 3, epoch: 30_000 }),
            r.validator_contract.bytes@ == Seq::new(20, |i: int| 0u8),
            r.validator_contract_v2.bytes@ == Seq::new(20, |i: int| 0u8),
    {
        let validator_contract = Address::zero();
        let validator_contract_v2 = Address::zero();
        assert(validator_contract.bytes@ =~= Seq::new(20, |i: int| 0u8));
        assert(validator_contract_v2.bytes@ =~= Seq::new(20, |i: int| 0u8));
        KubChainSpec {
            inner: Arc::new(inner),
            span_config: SpanConfig { span: 200, period: 3, epoch: 30_000 },
            validator_contract,
            validator_contract_v2,
        }
    }
}

/// Reads KubChain specifications given on the command line. Every value is
/// taken as a genesis file; once the base specification has been read from it,
/// the KubChain specification is made from it here.
#[derive(Clone, Copy, Debug, Default)]
pub struct KubChainSpecParser;

impl KubChainSpecParser {
    /// The shared KubChain specification over the base specification of a genesis file.
    pub fn parse(inner: ChainSpec) -> (r: Arc<KubChainSpec>)
        ensures
            *r.inner == inner,
            r.span_config == (SpanConfig { span: 200, period: 3, epoch: 30_000 }),
            r.validator_contract.bytes@ == Seq::new(20, |i: int| 0u8),
            r.validator_contract_v2.bytes@ == Seq::new(20, |i: int| 0u8),
    {
        Arc::new(KubChainSpec::from_genesis(inner))
    }
}

/// The development chain: chain id 25925, every fork at block 0, Ethereum base fee
/// parameters, span 200, period 5, epoch 30000 and zero validator contracts.
pub fn kub_dev_chain_spec() -> (r: KubChainSpec)
    ensures
        r.inner.chain_id == 25925,
        r.inner.hardforks.forks@ == crate::hardforks::dev_schedule(),
        r.inner.base_fee_params == BaseFeeParams::spec_ethereum(),
        r.span_config == (SpanConfig { span: 200, period: 5, epoch: 30_000 }),
        r.validator_contract.bytes@ == Seq::new(20, |i: int| 0u8),
        r.validator_contract_v2.bytes@ == Seq::new(20, |i: int| 0u8),
{
    let inner = ChainSpec {
        chain_id: 25925,
        hardforks: kub_dev_hardforks(),
        base_fee_params: BaseFeeParams::ethereum(),
    };
    let validator_contract = Address::zero();
    let validator_contract_v2 = Address::zero();
    assert(validator_contract.bytes@ =~= Seq::new(20, |i: int| 0u8));
    assert(validator_contract_v2.bytes@ =~= Seq::new(20, |i: int| 0u8));
    KubChainSpec {
        inner: Arc::new(inner),
        span_config: SpanConfig { span: 200, period: 5, epoch: 30_000 },
        validator_contract,
        validator_contract_v2,
    }
}

impl BaseFeeParams {
    /// The Ethereum mainnet parameters.
    pub open spec fn spec_ethereum() -> BaseFeeParams {
        BaseFeeParams { max_change_denominator: 8, elasticity_multiplier: 2 }
    }
}

} // verus!

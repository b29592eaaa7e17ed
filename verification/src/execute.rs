//! KubChain block execution: pre-execution changes, per-transaction gas
//! accounting and receipts, and the system calls that finish a block.
//!
//! The EVM itself runs outside this library. Finishing a block is a dialogue:
//! [`KubBlockExecutor::finish_step`] takes the current [`FinishState`] and the
//! latest [`FinishEvent`] (the answer of the previous system call) and returns
//! the next state and the next [`FinishAction`] for the EVM driver to perform.

use crate::chainspec::KubChainSpec;
use crate::evm::{is_posa_active, posa_active};
use crate::evm::EvmEnv;
use crate::header::{all_zero_bytes, Header, EMPTY_OMMER_ROOT_HASH};
use crate::hardforks::{Hardfork, KubHardfork, EthereumHardfork};
use crate::types::{
    is_span_commitment_block, spec_is_span_commitment_block, system_address,
    system_address_value, zero_address, Address, SystemContracts, Validator, B256, DIFF_NO_TURN,
};
use crate::rlp::rlp_validators;
use crate::system_tx::{
    abi_bytes_argument, address_word, build_commit_span_calldata,
    build_current_span_number_calldata, build_distribute_reward_calldata,
    build_get_eligible_validators_calldata, build_is_signer_slashed_calldata,
    build_slash_calldata, selector, uint_word, COMMIT_SPAN_SIGNATURE,
    CURRENT_SPAN_NUMBER_SIGNATURE, DISTRIBUTE_REWARD_SIGNATURE,
    GET_ELIGIBLE_VALIDATORS_SIGNATURE, IS_SIGNER_SLASHED_SIGNATURE, SLASH_SIGNATURE,
};
use crate::u256::U256;
use std::sync::Arc;
use vstd::prelude::*;

verus! {

/// Context for KubChain block execution.
#[derive(Clone, Debug)]
pub struct KubBlockExecutionCtx {
    /// Parent block hash.
    pub parent_hash: B256,
    /// Chain specification.
    pub chain_spec: Arc<KubChainSpec>,
    /// Current block signer.
    pub signer: Address,
    /// System contract addresses from the current snapshot.
    pub system_contracts: SystemContracts,
}

/// Creates [`KubBlockExecutor`]s for a chain.
#[derive(Clone, Debug)]
pub struct KubBlockExecutorFactory {
    /// Chain specification.
    pub chain_spec: Arc<KubChainSpec>,
}

impl KubBlockExecutorFactory {
    /// Creates a factory for the given chain.
    pub fn new(chain_spec: Arc<KubChainSpec>) -> (r: Self)
        ensures
            *r.spec() == *chain_spec,
    {
        KubBlockExecutorFactory { chain_spec }
    }

    /// The chain specification.
    pub open spec fn spec(&self) -> &Arc<KubChainSpec> {
        &self.chain_spec
    }

    /// Returns the chain specification.
    pub fn chain_spec(&self) -> (r: &Arc<KubChainSpec>)
        ensures
            r == self.spec(),
    {
        &self.chain_spec
    }

    /// Creates an executor for a block with context `ctx`.
    pub fn create_executor<L>(&self, ctx: KubBlockExecutionCtx) -> (r: KubBlockExecutor<L>)
        ensures
            r.ctx == ctx,
            r.receipts@.len() == 0,
            r.gas_used == 0,
    {
        KubBlockExecutor::new(ctx)
    }
}

/// Assembles blocks from execution results.
#[derive(Clone, Debug)]
pub struct KubBlockAssembler {
    /// Chain specification.
    pub chain_spec: Arc<KubChainSpec>,
}

impl KubBlockAssembler {
    /// Creates an assembler for the given chain.
    pub fn new(chain_spec: Arc<KubChainSpec>) -> (r: Self)
        ensures
            *r.chain_spec == *chain_spec,
    {
        KubBlockAssembler { chain_spec }
    }

    /// The header of a block executed in `evm_env` with context `ctx`: parent hash from
    /// the context; beneficiary, gas limit, difficulty and base fee from the environment;
    /// number and timestamp from the environment saturated to 64 bits; the empty ommers
    /// hash; the given gas used, roots and logs bloom; and empty extra-data (filled in
    /// by the consensus layer before sealing), zero mix hash and nonce.
    pub fn assemble_block(
        &self,
        evm_env: &EvmEnv,
        ctx: &KubBlockExecutionCtx,
        gas_used: u64,
        state_root: B256,
        transactions_root: B256,
        receipts_root: B256,
        logs_bloom: [u8; 256],
    ) -> (r: Header)
        ensures
            r.parent_hash == ctx.parent_hash,
            r.ommers_hash.bytes@ == EMPTY_OMMER_ROOT_HASH@,
            r.beneficiary == evm_env.block_env.beneficiary,
            r.state_root == state_root,
            r.transactions_root == transactions_root,
            r.receipts_root == receipts_root,
            r.logs_bloom@ == logs_bloom@,
            r.timestamp == saturate_u64(evm_env.block_env.timestamp),
            r.number == saturate_u64(evm_env.block_env.number),
            r.gas_limit == evm_env.block_env.gas_limit,
            r.gas_used == gas_used,
            r.difficulty == evm_env.block_env.difficulty,
            r.extra_data@ == Seq::<u8>::empty(),
            all_zero_bytes(r.mix_hash.bytes@),
            r.nonce == 0,
            r.base_fee_per_gas == Some(evm_env.block_env.basefee),
    {
        Header {
            parent_hash: ctx.parent_hash,
            ommers_hash: B256 { bytes: EMPTY_OMMER_ROOT_HASH },
            beneficiary: evm_env.block_env.beneficiary,
            state_root,
            transactions_root,
            receipts_root,
            logs_bloom,
            difficulty: evm_env.block_env.difficulty,
            number: saturating_to_u64(evm_env.block_env.number),
            gas_limit: evm_env.block_env.gas_limit,
            gas_used,
            timestamp: saturating_to_u64(evm_env.block_env.timestamp),
            extra_data: Vec::new(),
            mix_hash: B256::zero(),
            nonce: 0,
            base_fee_per_gas: Some(evm_env.block_env.basefee),
        }
    }
}

/// The receipt of an executed transaction; `L` is the type of its logs.
#[derive(Clone, Debug)]
pub struct Receipt<L> {
    /// Transaction type.
    pub tx_type: u8,
    /// Whether the transaction succeeded.
    pub success: bool,
    /// Gas used by the block up to and including this transaction.
    pub cumulative_gas_used: u64,
    /// Logs emitted by the transaction.
    pub logs: Vec<L>,
}

/// A transaction rejected before execution.
#[derive(Clone, Copy, Debug, PartialEq, Eq, Structural)]
pub enum BlockValidationError {
    /// The transaction's gas limit exceeds the gas left in the block.
    TransactionGasLimitMoreThanAvailableBlockGas {
        /// Gas limit of the transaction.
        transaction_gas_limit: u64,
        /// Gas left in the block.
        block_available_gas: u64,
    },
}

/// The state changes to apply before the block's transactions.
#[derive(Clone, Copy, Debug, PartialEq, Eq, Structural)]
pub struct PreExecutionChanges {
    /// Whether empty accounts are cleared (Spurious Dragon).
    pub state_clear_flag: bool,
    /// Whether this is the Lausanne activation block.
    pub apply_lausanne: bool,
    /// Whether this is the Basel activation block.
    pub apply_basel: bool,
}

/// Executes the transactions of one block and finishes it with system calls.
#[derive(Debug)]
pub struct KubBlockExecutor<L> {
    /// Execution context.
    pub ctx: KubBlockExecutionCtx,
    /// Receipts of the committed transactions.
    pub receipts: Vec<Receipt<L>>,
    /// Gas used by the committed transactions.
    pub gas_used: u64,
}

/// What the finishing dialogue is waiting for.
#[derive(Clone, Copy, Debug, PartialEq, Eq)]
pub enum FinishState {
    /// Nothing done yet.
    Begin,
    /// Waiting for the eligible validators of the validator set contract.
    AwaitEligibleValidators,
    /// Waiting for the `commitSpan` call to execute.
    AwaitCommitSpan,
    /// Waiting for the current span number.
    AwaitCurrentSpan,
    /// Waiting to learn whether the signer was already slashed in this span.
    AwaitSignerSlashed {
        /// The current span.
        span: U256,
    },
    /// Waiting to learn whether the node contract lists the signer as an official or
    /// super node.
    AwaitNodeStatus {
        /// The current span.
        span: U256,
    },
    /// Waiting for the `slash` call to execute.
    AwaitSlash,
    /// Waiting for the balance of the system address.
    AwaitBalance,
    /// Waiting for the `distributeReward` call to execute.
    AwaitReward,
    /// All system calls done.
    Done,
}

/// The answer to the previous action.
#[derive(Clone, Debug)]
pub enum FinishEvent {
    /// Starts the dialogue.
    Start,
    /// The eligible validators for the next span.
    EligibleValidators(Vec<Validator>),
    /// The current span number.
    CurrentSpan(U256),
    /// Whether the signer was already slashed in the span.
    SignerSlashed(bool),
    /// Whether the node contract lists the signer as an official or super node.
    NodeStatus(bool),
    /// The balance of the queried account.
    Balance(U256),
    /// The requested system call was executed and its state committed.
    Executed,
}

/// The next step for the EVM driver.
#[derive(Clone, Debug)]
pub enum FinishAction {
    /// Query `getEligibleValidators()` on the validator set contract (not committed).
    QueryEligibleValidators {
        /// Validator set contract.
        contract: Address,
    },
    /// Execute `commitSpan(validators)` from `caller` on the validator set contract.
    CommitSpan {
        /// Sender of the system call.
        caller: Address,
        /// Validator set contract.
        contract: Address,
        /// The validators committed for the next span.
        validators: Vec<Validator>,
    },
    /// Query `currentSpanNumber()` on the validator set contract (not committed).
    QueryCurrentSpan {
        /// Validator set contract.
        contract: Address,
    },
    /// Query `isSignerSlashed(signer, span)` on the slash manager (not committed).
    QueryIsSignerSlashed {
        /// Slash manager contract.
        contract: Address,
        /// The signer.
        signer: Address,
        /// The span.
        span: U256,
    },
    /// Ask the node contract (OfficialNode before Basel, SuperNode from Basel on)
    /// whether `signer` is an official or super node (not committed).
    QueryNodeStatus {
        /// The node contract.
        contract: Address,
        /// The signer.
        signer: Address,
    },
    /// Execute `slash(signer, span)` from `caller` on the slash manager.
    Slash {
        /// Sender of the system call.
        caller: Address,
        /// Slash manager contract.
        contract: Address,
        /// The signer to slash.
        signer: Address,
        /// The span.
        span: U256,
    },
    /// Read the balance of `account`.
    ReadBalance {
        /// The account.
        account: Address,
    },
    /// Execute `distributeReward(amount, validator)` from `caller` on the stake manager.
    DistributeReward {
        /// Sender of the system call.
        caller: Address,
        /// Stake manager contract.
        contract: Address,
        /// The fees to distribute.
        amount: U256,
        /// The validator rewarded.
        validator: Address,
    },
    /// No more system calls: the block is finished.
    Finish,
}

impl FinishAction {
    /// The calldata of the contract call this action asks for: the queries
    /// `getEligibleValidators()`, `currentSpanNumber()` and `isSignerSlashed(signer,
    /// span)`, and the system calls `commitSpan`, `slash` and `distributeReward`, with
    /// the action's arguments; `None` for the node-status query (whose function the
    /// node contract defines), a balance read or the end of the dialogue.
    pub fn calldata(&self) -> (r: Option<Vec<u8>>)
        requires
            self matches FinishAction::CommitSpan { validators, .. } ==> validators@.len() * 55 + 9
                <= usize::MAX,
        ensures
            match *self {
                FinishAction::QueryEligibleValidators { .. } => r matches Some(c) && c@ == selector(
                    GET_ELIGIBLE_VALIDATORS_SIGNATURE@,
                ),
                FinishAction::QueryCurrentSpan { .. } => r matches Some(c) && c@ == selector(
                    CURRENT_SPAN_NUMBER_SIGNATURE@,
                ),
                FinishAction::QueryIsSignerSlashed { signer, span, .. } => r matches Some(c) && c@
                    == selector(IS_SIGNER_SLASHED_SIGNATURE@) + address_word(signer) + uint_word(
                    span,
                ),
                FinishAction::CommitSpan { validators, .. } => r matches Some(c) && c@
                    == commit_span_calldata(validators@),
                FinishAction::Slash { signer, span, .. } => r matches Some(c) && c@ == slash_calldata(
                    signer,
                    span,
                ),
                FinishAction::DistributeReward { amount, validator, .. } => r matches Some(c) && c@
                    == distribute_reward_calldata(amount, validator),
                _ => r is None,
            },
    {
        match self {
            FinishAction::QueryEligibleValidators { .. } => Some(
                build_get_eligible_validators_calldata(),
            ),
            FinishAction::QueryCurrentSpan { .. } => Some(build_current_span_number_calldata()),
            FinishAction::QueryIsSignerSlashed { signer, span, .. } => Some(
                build_is_signer_slashed_calldata(*signer, *span),
            ),
            FinishAction::CommitSpan { validators, .. } => Some(build_commit_span_calldata(validators)),
            FinishAction::Slash { signer, span, .. } => Some(build_slash_calldata(*signer, *span)),
            FinishAction::DistributeReward { amount, validator, .. } => Some(
                build_distribute_reward_calldata(*amount, *validator),
            ),
            _ => None,
        }
    }
}

/// The facts the finishing dialogue decides on.
#[derive(Clone, Copy, Debug)]
pub struct FinishInputs {
    /// Whether PoSA (Chaophraya) is active at the block.
    pub posa_active: bool,
    /// Whether the block is the span commitment block.
    pub commitment_block: bool,
    /// The block difficulty (saturated to 64 bits).
    pub difficulty: u64,
    /// The V1 validator set contract.
    pub validator_contract: Address,
    /// The block signer.
    pub coinbase: Address,
    /// Slash manager contract.
    pub slash_manager: Address,
    /// Stake manager contract.
    pub stake_manager: Address,
    /// The node contract: OfficialNode before Basel, SuperNode from Basel on.
    pub node_contract: Address,
}

/// The calldata of `commitSpan` for the validators `vs`.
pub open spec fn commit_span_calldata(vs: Seq<Validator>) -> Seq<u8> {
    selector(COMMIT_SPAN_SIGNATURE@) + abi_bytes_argument(rlp_validators(vs))
}

/// The calldata of `slash(signer, span)`.
pub open spec fn slash_calldata(signer: Address, span: U256) -> Seq<u8> {
    selector(SLASH_SIGNATURE@) + address_word(signer) + uint_word(span)
}

/// The calldata of `distributeReward(amount, validator)`.
pub open spec fn distribute_reward_calldata(amount: U256, validator: Address) -> Seq<u8> {
    selector(DISTRIBUTE_REWARD_SIGNATURE@) + uint_word(amount) + address_word(validator)
}

/// A signer is a known official or super node when a node contract is configured and
/// that contract lists the signer.
pub open spec fn official_or_super_node(node_contract: Address, listed: bool) -> bool {
    !zero_address(node_contract) && listed
}

/// Entering the span commitment phase.
pub open spec fn commit_phase(inp: FinishInputs) -> (FinishState, FinishAction) {
    if inp.posa_active && inp.commitment_block && !zero_address(inp.validator_contract) {
        (
            FinishState::AwaitEligibleValidators,
            FinishAction::QueryEligibleValidators { contract: inp.validator_contract },
        )
    } else {
        slash_phase(inp)
    }
}

/// Entering the slashing phase.
pub open spec fn slash_phase(inp: FinishInputs) -> (FinishState, FinishAction) {
    if inp.posa_active && inp.difficulty == 1 && !zero_address(inp.validator_contract)
        && !zero_address(inp.slash_manager) && !zero_address(inp.node_contract) {
        (
            FinishState::AwaitCurrentSpan,
            FinishAction::QueryCurrentSpan { contract: inp.validator_contract },
        )
    } else {
        reward_phase(inp)
    }
}

/// Entering the reward phase (for the balance read, the system address is queried).
pub open spec fn reward_phase(inp: FinishInputs) -> (FinishState, FinishAction) {
    if inp.posa_active && !zero_address(inp.stake_manager) {
        (FinishState::AwaitBalance, FinishAction::ReadBalance { account: system_address_value() })
    } else {
        (FinishState::Done, FinishAction::Finish)
    }
}

/// The event each state expects.
pub open spec fn event_fits(state: FinishState, event: FinishEvent) -> bool {
    match state {
        FinishState::Begin => event is Start,
        FinishState::AwaitEligibleValidators => event is EligibleValidators,
        FinishState::AwaitCommitSpan => event is Executed,
        FinishState::AwaitCurrentSpan => event is CurrentSpan,
        FinishState::AwaitSignerSlashed { .. } => event is SignerSlashed,
        FinishState::AwaitNodeStatus { .. } => event is NodeStatus,
        FinishState::AwaitSlash => event is Executed,
        FinishState::AwaitBalance => event is Balance,
        FinishState::AwaitReward => event is Executed,
        FinishState::Done => false,
    }
}

/// One step of the finishing dialogue: the next state and action after `event`.
pub open spec fn spec_finish_step(inp: FinishInputs, state: FinishState, event: FinishEvent) -> (
    FinishState,
    FinishAction,
) {
    match (state, event) {
        (FinishState::Begin, _) => commit_phase(inp),
        (FinishState::AwaitEligibleValidators, FinishEvent::EligibleValidators(vs)) => (
            FinishState::AwaitCommitSpan,
            FinishAction::CommitSpan {
                caller: inp.coinbase,
                contract: inp.validator_contract,
                validators: vs,
            },
        ),
        (FinishState::AwaitCommitSpan, _) => slash_phase(inp),
        (FinishState::AwaitCurrentSpan, FinishEvent::CurrentSpan(span)) => (
            FinishState::AwaitSignerSlashed { span },
            FinishAction::QueryIsSignerSlashed {
                contract: inp.slash_manager,
                signer: inp.coinbase,
                span,
            },
        ),
        (FinishState::AwaitSignerSlashed { span }, FinishEvent::SignerSlashed(slashed)) => if !slashed {
            (
                FinishState::AwaitNodeStatus { span },
                FinishAction::QueryNodeStatus { contract: inp.node_contract, signer: inp.coinbase },
            )
        } else {
            reward_phase(inp)
        },
        (FinishState::AwaitNodeStatus { span }, FinishEvent::NodeStatus(listed)) => if official_or_super_node(
            inp.node_contract,
            listed,
        ) {
            (
                FinishState::AwaitSlash,
                FinishAction::Slash {
                    caller: inp.coinbase,
                    contract: inp.slash_manager,
                    signer: inp.coinbase,
                    span,
                },
            )
        } else {
            reward_phase(inp)
        },
        (FinishState::AwaitSlash, _) => reward_phase(inp),
        (FinishState::AwaitBalance, FinishEvent::Balance(fees)) => (
            FinishState::AwaitReward,
            FinishAction::DistributeReward {
                caller: system_address_value(),
                contract: inp.stake_manager,
                amount: fees,
                validator: inp.coinbase,
            },
        ),
        _ => (FinishState::Done, FinishAction::Finish),
    }
}

/// The position of a state in the order of the finishing phases.
pub open spec fn phase_rank(state: FinishState) -> nat {
    match state {
        FinishState::Begin => 0,
        FinishState::AwaitEligibleValidators => 1,
        FinishState::AwaitCommitSpan => 2,
        FinishState::AwaitCurrentSpan => 3,
        FinishState::AwaitSignerSlashed { .. } => 4,
        FinishState::AwaitNodeStatus { .. } => 5,
        FinishState::AwaitSlash => 6,
        FinishState::AwaitBalance => 7,
        FinishState::AwaitReward => 8,
        FinishState::Done => 9,
    }
}

/// The finishing dialogue only moves forward through span commitment, slashing and
/// reward distribution, so it ends after at most nine steps; it ends exactly when
/// the action is [`FinishAction::Finish`].
pub proof fn lemma_finish_progress(inp: FinishInputs, state: FinishState, event: FinishEvent)
    requires
        event_fits(state, event),
    ensures
        phase_rank(spec_finish_step(inp, state, event).0) > phase_rank(state),
        (spec_finish_step(inp, state, event).0 == FinishState::Done) == (spec_finish_step(
            inp,
            state,
            event,
        ).1 is Finish),
{
}

/// Before PoSA (Chaophraya) no system call is made: the dialogue finishes at once.
pub proof fn lemma_no_system_calls_before_posa(inp: FinishInputs)
    requires
        !inp.posa_active,
    ensures
        spec_finish_step(inp, FinishState::Begin, FinishEvent::Start) == (
            FinishState::Done,
            FinishAction::Finish,
        ),
{
}

/// A signer already slashed in the current span is not slashed again.
pub proof fn lemma_no_double_slash(inp: FinishInputs, span: U256)
    ensures
        !(spec_finish_step(
            inp,
            FinishState::AwaitSignerSlashed { span },
            FinishEvent::SignerSlashed(true),
        ).1 is Slash),
{
}

/// Every system call the dialogue asks for goes where the rules say: span commitments
/// come from the signer to the validator set contract, a slash names the signer and
/// goes to the slash manager, the node contract is asked about the signer, and a reward
/// is sent from the system address to the stake manager for the signer; entering a
/// phase asks for a system call only under PoSA.
pub proof fn lemma_finish_actions(inp: FinishInputs, state: FinishState, event: FinishEvent)
    requires
        event_fits(state, event),
    ensures
        ({
            let action = spec_finish_step(inp, state, event).1;
            &&& (state is Begin || state is AwaitCommitSpan || state is AwaitSlash) && !(action is Finish)
                ==> inp.posa_active
            &&& action matches FinishAction::CommitSpan { caller, contract, .. } ==> caller
                == inp.coinbase && contract == inp.validator_contract
            &&& action matches FinishAction::Slash { caller, contract, signer, .. } ==> caller
                == inp.coinbase && contract == inp.slash_manager && signer == inp.coinbase
            &&& action matches FinishAction::QueryNodeStatus { contract, signer } ==> contract
                == inp.node_contract && signer == inp.coinbase
            &&& action matches FinishAction::DistributeReward { caller, contract, amount, validator } ==> caller
                == system_address_value() && contract == inp.stake_manager && validator
                == inp.coinbase
        }),
{
}

/// Only an official or super node is slashed: a `slash` call is asked for only right
/// after the node contract has listed the signer as one.
pub proof fn lemma_slash_only_official_or_super_node(
    inp: FinishInputs,
    state: FinishState,
    event: FinishEvent,
)
    requires
        event_fits(state, event),
    ensures
        spec_finish_step(inp, state, event).1 is Slash ==> state is AwaitNodeStatus
            && event == FinishEvent::NodeStatus(true) && !zero_address(inp.node_contract),
{
}

/// Whether the dialogue is on the slashing path.
pub open spec fn on_slash_path(state: FinishState) -> bool {
    state is AwaitCurrentSpan || state is AwaitSignerSlashed || state is AwaitNodeStatus
        || state is AwaitSlash
}

/// Whether an action belongs to slashing: the span query, the slash-status query, the
/// node-status query or the `slash` call.
pub open spec fn slash_action(action: FinishAction) -> bool {
    action is QueryCurrentSpan || action is QueryIsSignerSlashed || action is QueryNodeStatus
        || action is Slash
}

/// Only out-of-turn blocks are slashed. A step enters the slashing path, or asks for
/// a slashing query or call, only when the block difficulty is out-of-turn
/// (`DIFF_NO_TURN`), unless it was on that path already; since a dialogue starts off
/// it, every slashing step of every dialogue has an out-of-turn block. An in-turn
/// block goes from the start, or from the span commitment, straight to the reward
/// phase.
pub proof fn lemma_slashing_only_out_of_turn(inp: FinishInputs, state: FinishState, event: FinishEvent)
    requires
        event_fits(state, event),
    ensures
        ({
            let (next, action) = spec_finish_step(inp, state, event);
            &&& !on_slash_path(state) && (on_slash_path(next) || slash_action(action))
                ==> inp.difficulty == DIFF_NO_TURN
            &&& inp.difficulty != DIFF_NO_TURN && (state is Begin && !(inp.posa_active
                && inp.commitment_block && !zero_address(inp.validator_contract))
                || state is AwaitCommitSpan) ==> (next, action) == reward_phase(inp)
        }),
        !on_slash_path(FinishState::Begin),
{
}

/// Under PoSA, with a stake manager configured, every block distributes its rewards:
/// the reward phase reads the system address balance and, whatever it is, sends it
/// to the stake manager for the signer.
pub proof fn lemma_reward_every_block(inp: FinishInputs, fees: U256)
    requires
        inp.posa_active,
        !zero_address(inp.stake_manager),
    ensures
        reward_phase(inp) == (
            FinishState::AwaitBalance,
            FinishAction::ReadBalance { account: system_address_value() },
        ),
        spec_finish_step(inp, FinishState::AwaitBalance, FinishEvent::Balance(fees)) == (
            FinishState::AwaitReward,
            FinishAction::DistributeReward {
                caller: system_address_value(),
                contract: inp.stake_manager,
                amount: fees,
                validator: inp.coinbase,
            },
        ),
{
}

/// A transaction admitted by the gas check that uses no more gas than its limit keeps
/// the block's gas used within the block gas limit.
pub proof fn lemma_admitted_gas_within_limit(
    block_gas_used: u64,
    block_gas_limit: u64,
    tx_gas_limit: u64,
    tx_gas_used: u64,
)
    requires
        block_gas_used <= block_gas_limit,
        !(tx_gas_limit > block_gas_limit - block_gas_used),
        tx_gas_used <= tx_gas_limit,
    ensures
        block_gas_used + tx_gas_used <= block_gas_limit,
{
}

/// The value of `a` saturated to 64 bits.
pub open spec fn saturate_u64(a: U256) -> u64 {
    if a.value() <= u64::MAX {
        a.value() as u64
    } else {
        u64::MAX
    }
}

/// The 64-bit value of a 256-bit integer, saturating at `u64::MAX`, computed by
/// `alloy_primitives::U256::saturating_to::<u64>`.
#[verifier::external_body]
pub(crate) fn saturating_to_u64(a: U256) -> (r: u64)
    ensures
        r == saturate_u64(a),
{
    alloy_primitives::U256::from_limbs(a.limbs).saturating_to::<u64>()
}

impl<L> KubBlockExecutor<L> {
    /// Creates an executor with no committed transactions.
    pub fn new(ctx: KubBlockExecutionCtx) -> (r: Self)
        ensures
            r.ctx == ctx,
            r.receipts@.len() == 0,
            r.gas_used == 0,
    {
        KubBlockExecutor { ctx, receipts: Vec::new(), gas_used: 0 }
    }

    /// The receipts agree with the gas used: each receipt's cumulative gas is at most
    /// the next one's, and the last one's is the total gas used (zero without receipts).
    pub open spec fn receipts_consistent(&self) -> bool {
        let rs = self.receipts@;
        &&& forall|i: int, j: int|
            0 <= i <= j < rs.len() ==> rs[i].cumulative_gas_used <= rs[j].cumulative_gas_used
        &&& rs.len() > 0 ==> rs.last().cumulative_gas_used == self.gas_used
        &&& rs.len() == 0 ==> self.gas_used == 0
    }

    /// Returns the chain specification from the execution context.
    pub fn chain_spec(&self) -> (r: &KubChainSpec)
        ensures
            *r == *self.ctx.chain_spec,
    {
        &self.ctx.chain_spec
    }

    /// The changes to apply before executing the transactions of block `block_number`:
    /// clear empty accounts once Spurious Dragon is active, and run the Lausanne and
    /// Basel state migrations at their activation blocks.
    pub fn apply_pre_execution_changes(&self, block_env_number: U256) -> (r: PreExecutionChanges)
        ensures
            ({
                let n = saturate_u64(block_env_number);
                let forks = self.ctx.chain_spec.inner.hardforks;
                &&& r.state_clear_flag == forks.spec_ethereum_active(EthereumHardfork::SpuriousDragon, n)
                &&& r.apply_lausanne == forks.spec_fork(Hardfork::Kub(KubHardfork::Lausanne)).spec_transitions_at_block(n)
                &&& r.apply_basel == forks.spec_fork(Hardfork::Kub(KubHardfork::Basel)).spec_transitions_at_block(n)
            }),
    {
        let block_number = saturating_to_u64(block_env_number);
        let chain_spec = self.chain_spec();
        let state_clear_flag = chain_spec.inner().is_ethereum_fork_active_at_block(
            EthereumHardfork::SpuriousDragon,
            block_number,
        );
        let apply_lausanne = chain_spec.inner().fork(Hardfork::Kub(KubHardfork::Lausanne)).transitions_at_block(
            block_number,
        );
        let apply_basel = chain_spec.inner().fork(Hardfork::Kub(KubHardfork::Basel)).transitions_at_block(
            block_number,
        );
        PreExecutionChanges { state_clear_flag, apply_lausanne, apply_basel }
    }

    /// Checks a transaction's gas limit against the gas left in the block.
    pub fn check_transaction_gas(&self, block_gas_limit: u64, tx_gas_limit: u64) -> (r: Result<
        (),
        BlockValidationError,
    >)
        requires
            self.gas_used <= block_gas_limit,
        ensures
            r == if tx_gas_limit > block_gas_limit - self.gas_used {
                Err(
                    BlockValidationError::TransactionGasLimitMoreThanAvailableBlockGas {
                        transaction_gas_limit: tx_gas_limit,
                        block_available_gas: (block_gas_limit - self.gas_used) as u64,
                    },
                )
            } else {
                Ok(())
            },
    {
        let block_available_gas = block_gas_limit - self.gas_used;
        if tx_gas_limit > block_available_gas {
            return Err(
                BlockValidationError::TransactionGasLimitMoreThanAvailableBlockGas {
                    transaction_gas_limit: tx_gas_limit,
                    block_available_gas,
                },
            );
        }
        Ok(())
    }

    /// Records an executed transaction whose changes are committed: adds its gas to the
    /// block total and appends its receipt. Returns the gas it used.
    pub fn commit_transaction(&mut self, tx_type: u8, success: bool, gas_used: u64, logs: Vec<L>) -> (r: u64)
        requires
            old(self).gas_used + gas_used <= u64::MAX,
        ensures
            r == gas_used,
            final(self).ctx == old(self).ctx,
            final(self).gas_used == old(self).gas_used + gas_used,
            final(self).receipts@.len() == old(self).receipts@.len() + 1,
            final(self).receipts@.drop_last() == old(self).receipts@,
            final(self).receipts@.last().tx_type == tx_type,
            final(self).receipts@.last().success == success,
            final(self).receipts@.last().cumulative_gas_used == final(self).gas_used,
            final(self).receipts@.last().logs@ == logs@,
            old(self).receipts_consistent() ==> final(self).receipts_consistent(),
    {
        self.gas_used = self.gas_used + gas_used;
        let receipt = Receipt { tx_type, success, cumulative_gas_used: self.gas_used, logs };
        self.receipts.push(receipt);
        assert(self.receipts@.drop_last() =~= old(self).receipts@);
        gas_used
    }

    /// The facts that decide the system calls finishing block `block_env_number`
    /// with difficulty `block_env_difficulty` (both saturated to 64 bits).
    pub fn finish_inputs(&self, block_env_number: U256, block_env_difficulty: U256) -> (r: FinishInputs)
        ensures
            ({
                let n = saturate_u64(block_env_number);
                let spec = *self.ctx.chain_spec;
                &&& r.posa_active == posa_active(spec, n)
                &&& r.commitment_block == spec_is_span_commitment_block(spec.span_config.span, n)
                &&& r.difficulty == saturate_u64(block_env_difficulty)
                &&& r.validator_contract == spec.validator_contract
                &&& r.coinbase == self.ctx.signer
                &&& r.slash_manager == self.ctx.system_contracts.slash_manager
                &&& r.stake_manager == self.ctx.system_contracts.stake_manager
                &&& r.node_contract == self.ctx.system_contracts.super_node
            }),
    {
        let block_number = saturating_to_u64(block_env_number);
        let chain_spec = self.chain_spec();
        FinishInputs {
            posa_active: is_posa_active(chain_spec, block_number),
            commitment_block: is_span_commitment_block(chain_spec.span(), block_number),
            difficulty: saturating_to_u64(block_env_difficulty),
            validator_contract: chain_spec.validator_contract,
            coinbase: self.ctx.signer,
            slash_manager: self.ctx.system_contracts.slash_manager,
            stake_manager: self.ctx.system_contracts.stake_manager,
            node_contract: self.ctx.system_contracts.super_node,
        }
    }

    /// One step of finishing the block: given what the dialogue waits for and the
    /// answer to the previous action, returns the next state and action.
    pub fn finish_step(inp: &FinishInputs, state: FinishState, event: FinishEvent) -> (r: (
        FinishState,
        FinishAction,
    ))
        requires
            event_fits(state, event),
        ensures
            r == spec_finish_step(*inp, state, event),
    {
        match (state, event) {
            (FinishState::Begin, _) => enter_commit_phase(inp),
            (FinishState::AwaitEligibleValidators, FinishEvent::EligibleValidators(vs)) => (
                FinishState::AwaitCommitSpan,
                FinishAction::CommitSpan {
                    caller: inp.coinbase,
                    contract: inp.validator_contract,
                    validators: vs,
                },
            ),
            (FinishState::AwaitCommitSpan, _) => enter_slash_phase(inp),
            (FinishState::AwaitCurrentSpan, FinishEvent::CurrentSpan(span)) => (
                FinishState::AwaitSignerSlashed { span },
                FinishAction::QueryIsSignerSlashed {
                    contract: inp.slash_manager,
                    signer: inp.coinbase,
                    span,
                },
            ),
            (FinishState::AwaitSignerSlashed { span }, FinishEvent::SignerSlashed(slashed)) => {
                if !slashed {
                    (
                        FinishState::AwaitNodeStatus { span },
                        FinishAction::QueryNodeStatus {
                            contract: inp.node_contract,
                            signer: inp.coinbase,
                        },
                    )
                } else {
                    enter_reward_phase(inp)
                }
            },
            (FinishState::AwaitNodeStatus { span }, FinishEvent::NodeStatus(listed)) => {
                let contracts = SystemContracts {
                    stake_manager: inp.stake_manager,
                    slash_manager: inp.slash_manager,
                    super_node: inp.node_contract,
                };
                if is_official_or_super_node(&inp.coinbase, &contracts, listed) {
                    (
                        FinishState::AwaitSlash,
                        FinishAction::Slash {
                            caller: inp.coinbase,
                            contract: inp.slash_manager,
                            signer: inp.coinbase,
                            span,
                        },
                    )
                } else {
                    enter_reward_phase(inp)
                }
            },
            (FinishState::AwaitSlash, _) => enter_reward_phase(inp),
            (FinishState::AwaitBalance, FinishEvent::Balance(fees)) => (
                FinishState::AwaitReward,
                FinishAction::DistributeReward {
                    caller: system_address(),
                    contract: inp.stake_manager,
                    amount: fees,
                    validator: inp.coinbase,
                },
            ),
            _ => (FinishState::Done, FinishAction::Finish),
        }
    }

    /// The receipts and the total gas used, once the block is finished.
    pub fn into_result(self) -> (r: (Vec<Receipt<L>>, u64))
        ensures
            r.0@ == self.receipts@,
            r.1 == self.gas_used,
    {
        (self.receipts, self.gas_used)
    }
}

fn enter_commit_phase(inp: &FinishInputs) -> (r: (FinishState, FinishAction))
    ensures
        r == commit_phase(*inp),
{
    if inp.posa_active && inp.commitment_block && !inp.validator_contract.is_zero() {
        (
            FinishState::AwaitEligibleValidators,
            FinishAction::QueryEligibleValidators { contract: inp.validator_contract },
        )
    } else {
        enter_slash_phase(inp)
    }
}

fn enter_slash_phase(inp: &FinishInputs) -> (r: (FinishState, FinishAction))
    ensures
        r == slash_phase(*inp),
{
    if inp.posa_active && inp.difficulty == DIFF_NO_TURN && !inp.validator_contract.is_zero()
        && !inp.slash_manager.is_zero() && !inp.node_contract.is_zero() {
        (
            FinishState::AwaitCurrentSpan,
            FinishAction::QueryCurrentSpan { contract: inp.validator_contract },
        )
    } else {
        enter_reward_phase(inp)
    }
}

fn enter_reward_phase(inp: &FinishInputs) -> (r: (FinishState, FinishAction))
    ensures
        r == reward_phase(*inp),
{
    if inp.posa_active && !inp.stake_manager.is_zero() {
        (FinishState::AwaitBalance, FinishAction::ReadBalance { account: system_address() })
    } else {
        (FinishState::Done, FinishAction::Finish)
    }
}

/// Checks whether an address is a known official or super node, which decides
/// whether an out-of-turn block is slashed: the node contract of `system_contracts`
/// (OfficialNode before Basel, SuperNode from Basel on) must be configured, and
/// `listed` is its answer to whether it lists `signer`.
pub fn is_official_or_super_node(_signer: &Address, system_contracts: &SystemContracts, listed: bool) -> (r:
    bool)
    ensures
        r == official_or_super_node(system_contracts.super_node, listed),
{
    !system_contracts.super_node.is_zero() && listed
}

} // verus!

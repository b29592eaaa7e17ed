//! Core KubChain consensus types and constants.

use crate::u256::U256;
use vstd::prelude::*;
use vstd::std_specs::cmp::PartialEqSpecImpl;
use vstd::std_specs::convert::FromSpecImpl;

verus! {

/// Difficulty value for in-turn block signers.
pub const DIFF_IN_TURN: u64 = 2;

/// Difficulty value for out-of-turn block signers (fallback/super node).
pub const DIFF_NO_TURN: u64 = 1;

/// Number of blocks between snapshot checkpoints persisted to the database.
pub const CHECKPOINT_INTERVAL: u64 = 1024;

/// Number of recent snapshots to keep in the in-memory cache.
pub const INMEMORY_SNAPSHOTS: usize = 128;

/// Number of recent block signatures to cache for signer recovery.
pub const INMEMORY_SIGNATURES: usize = 4096;

/// Length of the vanity field in header extra-data (bytes).
pub const EXTRA_VANITY: usize = 32;

/// Length of the ECDSA signature in header extra-data (bytes).
pub const EXTRA_SEAL: usize = 65;

/// Length of a single address encoding in extra-data (bytes).
pub const EXTRA_CONTRACT_LEN: usize = 20;

/// Number of system contract addresses encoded in extra-data at span boundaries
/// (StakeManager + SlashManager + OfficialNode/SuperNode).
pub const EXTRA_NUM_CONTRACTS: usize = 3;

/// Total length of the system contracts section in extra-data (bytes).
pub const EXTRA_CONTRACTS_LEN: usize = EXTRA_CONTRACT_LEN * EXTRA_NUM_CONTRACTS;

/// Default epoch length for vote reset and checkpoint (blocks).
pub const DEFAULT_EPOCH: u64 = 30_000;

/// Random delay range for an out-of-turn signer to avoid collision (milliseconds).
pub const WIGGLE_TIME_MS: u64 = 100;

/// A 20-byte account address.
#[derive(Clone, Copy, Debug, Eq, Hash)]
pub struct Address {
    /// The raw big-endian bytes of the address.
    pub bytes: [u8; 20],
}

/// A 32-byte hash.
#[derive(Clone, Copy, Debug, Eq, Hash)]
pub struct B256 {
    /// The raw bytes of the hash.
    pub bytes: [u8; 32],
}

impl PartialEq for Address {
    fn eq(&self, other: &Self) -> (r: bool) {
        let mut i: usize = 0;
        while i < 20
            invariant
                i <= 20,
                forall|j: int| 0 <= j < i ==> self.bytes@[j] == other.bytes@[j],
            decreases 20 - i,
        {
            if self.bytes[i] != other.bytes[i] {
                return false;
            }
            i = i + 1;
        }
        assert(self.bytes@ =~= other.bytes@);
        true
    }
}

impl PartialEqSpecImpl for Address {
    open spec fn obeys_eq_spec() -> bool {
        true
    }

    open spec fn eq_spec(&self, other: &Address) -> bool {
        self.bytes@ == other.bytes@
    }
}

impl PartialEq for B256 {
    fn eq(&self, other: &Self) -> (r: bool) {
        let mut i: usize = 0;
        while i < 32
            invariant
                i <= 32,
                forall|j: int| 0 <= j < i ==> self.bytes@[j] == other.bytes@[j],
            decreases 32 - i,
        {
            if self.bytes[i] != other.bytes[i] {
                return false;
            }
            i = i + 1;
        }
        assert(self.bytes@ =~= other.bytes@);
        true
    }
}

impl PartialEqSpecImpl for B256 {
    open spec fn obeys_eq_spec() -> bool {
        true
    }

    open spec fn eq_spec(&self, other: &B256) -> bool {
        self.bytes@ == other.bytes@
    }
}

/// Two addresses with the same bytes are the same address.
pub proof fn lemma_address_ext(a: Address, b: Address)
    requires
        a.bytes@ == b.bytes@,
    ensures
        a == b,
{
    assert(a.bytes =~= b.bytes);
}

impl Address {
    /// The all-zero address.
    pub fn zero() -> (r: Address)
        ensures
            forall|i: int| 0 <= i < 20 ==> r.bytes@[i] == 0,
    {
        Address { bytes: [0u8; 20] }
    }

    /// An address whose 20 bytes all equal `byte`.
    pub fn repeat_byte(byte: u8) -> (r: Address)
        ensures
            forall|i: int| 0 <= i < 20 ==> r.bytes@[i] == byte,
    {
        Address { bytes: [byte; 20] }
    }

    /// Is every byte of the address zero?
    pub fn is_zero(&self) -> (r: bool)
        ensures
            r == (forall|i: int| 0 <= i < 20 ==> self.bytes@[i] == 0),
    {
        let mut i: usize = 0;
        while i < 20
            invariant
                i <= 20,
                forall|j: int| 0 <= j < i ==> self.bytes@[j] == 0,
            decreases 20 - i,
        {
            if self.bytes[i] != 0 {
                return false;
            }
            i = i + 1;
        }
        true
    }

    /// The address bytes as a slice.
    pub fn as_slice(&self) -> (r: &[u8])
        ensures
            r@ == self.bytes@,
    {
        self.bytes.as_slice()
    }

    /// Reads an address from the 20 bytes of `data` starting at `offset`.
    pub fn from_slice_at(data: &[u8], offset: usize) -> (r: Address)
        requires
            offset + 20 <= data@.len(),
        ensures
            r.bytes@ == data@.subrange(offset as int, offset + 20),
    {
        let mut bytes = [0u8; 20];
        let mut i: usize = 0;
        while i < 20
            invariant
                i <= 20,
                offset + 20 <= data.len(),
                forall|j: int| 0 <= j < i ==> bytes@[j] == data@[offset + j],
            decreases 20 - i,
        {
            bytes[i] = data[offset + i];
            i = i + 1;
        }
        assert(bytes@ =~= data@.subrange(offset as int, offset + 20));
        Address { bytes }
    }
}

impl B256 {
    /// The all-zero hash.
    pub fn zero() -> (r: B256)
        ensures
            forall|i: int| 0 <= i < 32 ==> r.bytes@[i] == 0,
    {
        B256 { bytes: [0u8; 32] }
    }

    /// A hash whose 32 bytes all equal `byte`.
    pub fn repeat_byte(byte: u8) -> (r: B256)
        ensures
            forall|i: int| 0 <= i < 32 ==> r.bytes@[i] == byte,
    {
        B256 { bytes: [byte; 32] }
    }
}

/// The bytes of the system address `0xffff…fffe`: nineteen `0xff` bytes then `0xfe`.
pub open spec fn spec_system_address_bytes() -> Seq<u8> {
    Seq::new(20, |i: int| if i == 19 { 0xfeu8 } else { 0xffu8 })
}

/// The system address used to accumulate transaction fees before distribution,
/// `0xffffFFFfFFffffffffffffffFfFFFfffFFFfFFfE`.
pub fn system_address() -> (r: Address)
    ensures
        r.bytes@ == spec_system_address_bytes(),
        r == system_address_value(),
{
    let mut bytes = [0xffu8; 20];
    bytes[19] = 0xfe;
    assert(bytes@ =~= spec_system_address_bytes());
    let r = Address { bytes };
    proof {
        assert(exists|a: Address| a.bytes@ == spec_system_address_bytes()) by {
            assert(r.bytes@ == spec_system_address_bytes());
        }
        let c = system_address_value();
        assert(c.bytes@ == spec_system_address_bytes());
        lemma_address_ext(r, c);
    }
    r
}

/// Is `block_number` the first block of a span?  Never for a zero span.
pub open spec fn spec_is_span_first_block(span: u64, block_number: u64) -> bool {
    span != 0 && block_number % span == 0
}

/// Is `block_number` the block at which the next span's validators are committed?
/// That is the block at offset `span / 2 + 1` within its span; never for a zero span.
pub open spec fn spec_is_span_commitment_block(span: u64, block_number: u64) -> bool {
    span != 0 && block_number % span == span / 2 + 1
}

/// Returns true if the given block number is the first block of a span.
pub fn is_span_first_block(span: u64, block_number: u64) -> (r: bool)
    ensures
        r == spec_is_span_first_block(span, block_number),
{
    if span == 0 {
        return false;
    }
    block_number % span == 0
}

/// Returns true if the given block number is the span commitment block.
pub fn is_span_commitment_block(span: u64, block_number: u64) -> (r: bool)
    ensures
        r == spec_is_span_commitment_block(span, block_number),
{
    if span == 0 {
        return false;
    }
    (block_number % span) == (span / 2 + 1)
}

/// Within each span, the next span's validators are committed exactly once: at the
/// block `span / 2 + 1` blocks after the span's first block. (For spans of one or
/// two blocks that offset falls outside the span, so no block of it commits.)
pub proof fn lemma_span_commitment_block(span: u64, first: u64, n: u64)
    requires
        spec_is_span_first_block(span, first),
        first <= n < first + span,
    ensures
        spec_is_span_commitment_block(span, n) <==> n == first + span / 2 + 1,
        span >= 3 && first + span / 2 + 1 <= u64::MAX ==> spec_is_span_commitment_block(
            span,
            (first + span / 2 + 1) as u64,
        ),
{
    let q = first as int / span as int;
    vstd::arithmetic::div_mod::lemma_fundamental_div_mod(first as int, span as int);
    vstd::arithmetic::div_mod::lemma_fundamental_div_mod_converse(
        n as int,
        span as int,
        q,
        n - first,
    );
    if span >= 3 && first + span / 2 + 1 <= u64::MAX {
        vstd::arithmetic::div_mod::lemma_fundamental_div_mod_converse(
            first + span / 2 + 1,
            span as int,
            q,
            span / 2 + 1,
        );
    }
}

/// Configuration for a KubChain PoSA span.
#[derive(Clone, Copy, Debug, PartialEq, Eq, Structural)]
pub struct SpanConfig {
    /// Number of blocks in each span.
    pub span: u64,
    /// Block time in seconds.
    pub period: u64,
    /// Epoch length for vote reset.
    pub epoch: u64,
}

impl Default for SpanConfig {
    fn default() -> (r: Self)
        ensures
            r.span == 0,
            r.period == 15,
            r.epoch == DEFAULT_EPOCH,
    {
        SpanConfig { span: 0, period: 15, epoch: DEFAULT_EPOCH }
    }
}

/// System contract addresses tracked by the consensus engine.
#[derive(Clone, Copy, Debug, PartialEq, Eq)]
pub struct SystemContracts {
    /// StakeManager contract - staking and reward distribution.
    pub stake_manager: Address,
    /// SlashManager contract - slashing penalties for misbehaviour.
    pub slash_manager: Address,
    /// OfficialNode contract (pre-Basel) or SuperNode contract (Basel onwards).
    pub super_node: Address,
}

/// Is every byte of `a` zero?
pub open spec fn zero_address(a: Address) -> bool {
    forall|i: int| 0 <= i < 20 ==> a.bytes@[i] == 0
}

/// The system address as a value: the address whose bytes are those of the system address.
pub open spec fn system_address_value() -> Address {
    choose|a: Address| a.bytes@ == spec_system_address_bytes()
}

impl Default for SystemContracts {
    fn default() -> (r: SystemContracts)
        ensures
            r.all_zero(),
    {
        SystemContracts::zeroed()
    }
}

impl SystemContracts {
    /// All three addresses are zero.
    pub open spec fn all_zero(&self) -> bool {
        &&& zero_address(self.stake_manager)
        &&& zero_address(self.slash_manager)
        &&& zero_address(self.super_node)
    }

    /// System contracts with all three addresses zero (the default).
    pub fn zeroed() -> (r: SystemContracts)
        ensures
            r.all_zero(),
    {
        SystemContracts {
            stake_manager: Address::zero(),
            slash_manager: Address::zero(),
            super_node: Address::zero(),
        }
    }
}

/// A KubChain validator with address and voting power (staking weight).
#[derive(Clone, Copy, Debug, PartialEq, Eq)]
pub struct Validator {
    /// Validator's address.
    pub address: Address,
    /// Voting power derived from the staking amount.
    pub voting_power: U256,
}

/// Minimal validator representation used when committing a span.
#[derive(Clone, Copy, Debug, PartialEq, Eq)]
pub struct MinimalVal {
    /// Validator address.
    pub address: Address,
    /// Voting power.
    pub voting_power: U256,
}

impl From<&Validator> for MinimalVal {
    fn from(v: &Validator) -> (r: MinimalVal) {
        MinimalVal { address: v.address, voting_power: v.voting_power }
    }
}

impl FromSpecImpl<&Validator> for MinimalVal {
    open spec fn obeys_from_spec() -> bool {
        true
    }

    /// The minimal representation keeps the address and the voting power.
    open spec fn from_spec(v: &Validator) -> MinimalVal {
        MinimalVal { address: v.address, voting_power: v.voting_power }
    }
}

} // verus!

//! KubChain block headers.

use crate::types::{Address, B256};
use crate::u256::U256;
use vstd::prelude::*;

verus! {

/// The hash of an empty ommers list, `keccak256(rlp([]))`.
pub const EMPTY_OMMER_ROOT_HASH: [u8; 32] = [
    0x1d, 0xcc, 0x4d, 0xe8, 0xde, 0xc7, 0x5d, 0x7a, 0xab, 0x85, 0xb5, 0x67, 0xb6, 0xcc, 0xd4,
    0x1a, 0xd3, 0x12, 0x45, 0x1b, 0x94, 0x8a, 0x74, 0x13, 0xf0, 0xa1, 0x42, 0xfd, 0x40, 0xd4,
    0x93, 0x47,
];

/// A KubChain block header. KubChain has no withdrawals, blobs, beacon roots or
/// requests, so the header carries none of their fields.
#[derive(Clone, Debug)]
pub struct Header {
    /// Hash of the parent block.
    pub parent_hash: B256,
    /// Hash of the ommers list (always the empty list's).
    pub ommers_hash: B256,
    /// Block producer (coinbase).
    pub beneficiary: Address,
    /// Root of the state trie after the block.
    pub state_root: B256,
    /// Root of the transactions trie.
    pub transactions_root: B256,
    /// Root of the receipts trie.
    pub receipts_root: B256,
    /// Bloom filter of the block's logs.
    pub logs_bloom: [u8; 256],
    /// Difficulty: 2 for in-turn signers, 1 for out-of-turn signers.
    pub difficulty: U256,
    /// Block number.
    pub number: u64,
    /// Gas limit.
    pub gas_limit: u64,
    /// Gas used.
    pub gas_used: u64,
    /// Timestamp in seconds.
    pub timestamp: u64,
    /// Extra-data: vanity, optional validators and system contracts, seal.
    pub extra_data: Vec<u8>,
    /// Mix hash (unused: there is no prevrandao).
    pub mix_hash: B256,
    /// Nonce (unused, zero).
    pub nonce: u64,
    /// Base fee per gas, once London is active.
    pub base_fee_per_gas: Option<u64>,
}

/// Whether all bytes of `s` are zero.
pub open spec fn all_zero_bytes(s: Seq<u8>) -> bool {
    forall|i: int| 0 <= i < s.len() ==> s[i] == 0
}

impl Default for Header {
    fn default() -> (r: Self)
        ensures
            all_zero_bytes(r.parent_hash.bytes@),
            all_zero_bytes(r.ommers_hash.bytes@),
            all_zero_bytes(r.beneficiary.bytes@),
            all_zero_bytes(r.state_root.bytes@),
            all_zero_bytes(r.transactions_root.bytes@),
            all_zero_bytes(r.receipts_root.bytes@),
            all_zero_bytes(r.logs_bloom@),
            r.difficulty.value() == 0,
            r.number == 0,
            r.gas_limit == 0,
            r.gas_used == 0,
            r.timestamp == 0,
            r.extra_data@ == Seq::<u8>::empty(),
            all_zero_bytes(r.mix_hash.bytes@),
            r.nonce == 0,
            r.base_fee_per_gas is None,
    {
        Header {
            parent_hash: B256::zero(),
            ommers_hash: B256::zero(),
            beneficiary: Address::zero(),
            state_root: B256::zero(),
            transactions_root: B256::zero(),
            receipts_root: B256::zero(),
            logs_bloom: [0u8; 256],
            difficulty: U256::zero(),
            number: 0,
            gas_limit: 0,
            gas_used: 0,
            timestamp: 0,
            extra_data: Vec::new(),
            mix_hash: B256::zero(),
            nonce: 0,
            base_fee_per_gas: None,
        }
    }
}

} // verus!

//! System transactions: the zero-gas-price calls that the block signer injects
//! into a block to slash validators and distribute rewards, and the ABI calldata
//! they carry.
//!
//! A call's calldata is the 4-byte selector of the function's signature (the first
//! bytes of its Keccak-256 hash) followed by one 32-byte word per argument: an
//! address left-padded with zeros, an unsigned integer in big-endian order.

use crate::rlp::{encode_validators, rlp_validators};
use crate::types::{lemma_address_ext, Address, Validator};
use crate::u256::{be_bytes, keccak256, keccak256_digest, to_be_bytes, U256};
use vstd::prelude::*;

verus! {

/// Gas limit of a system transaction: effectively unlimited.
pub const SYSTEM_TX_GAS: u64 = 0x7fff_ffff_ffff_ffff;

/// The signature `slash(address,uint256)`, in ASCII.
pub const SLASH_SIGNATURE: [u8; 22] = [
    115, 108, 97, 115, 104, 40, 97, 100, 100, 114, 101, 115, 115, 44, 117, 105, 110, 116, 50, 53,
    54, 41,
];

/// The signature `getEligibleValidators()`, in ASCII.
pub const GET_ELIGIBLE_VALIDATORS_SIGNATURE: [u8; 23] = [
    103, 101, 116, 69, 108, 105, 103, 105, 98, 108, 101, 86, 97, 108, 105, 100, 97, 116, 111, 114,
    115, 40, 41,
];

/// The signature `currentSpanNumber()`, in ASCII.
pub const CURRENT_SPAN_NUMBER_SIGNATURE: [u8; 19] = [
    99, 117, 114, 114, 101, 110, 116, 83, 112, 97, 110, 78, 117, 109, 98, 101, 114, 40, 41,
];

/// The signature `isSignerSlashed(address,uint256)`, in ASCII.
pub const IS_SIGNER_SLASHED_SIGNATURE: [u8; 32] = [
    105, 115, 83, 105, 103, 110, 101, 114, 83, 108, 97, 115, 104, 101, 100, 40, 97, 100, 100, 114,
    101, 115, 115, 44, 117, 105, 110, 116, 50, 53, 54, 41,
];

/// The signature `distributeReward(uint256,address)`, in ASCII.
pub const DISTRIBUTE_REWARD_SIGNATURE: [u8; 33] = [
    100, 105, 115, 116, 114, 105, 98, 117, 116, 101, 82, 101, 119, 97, 114, 100, 40, 117, 105,
    110, 116, 50, 53, 54, 44, 97, 100, 100, 114, 101, 115, 115, 41,
];

/// The signature `commitSpan(bytes)`, in ASCII.
pub const COMMIT_SPAN_SIGNATURE: [u8; 17] = [
    99, 111, 109, 109, 105, 116, 83, 112, 97, 110, 40, 98, 121, 116, 101, 115, 41,
];

/// The selector of a function signature: the first four bytes of its Keccak-256 hash.
pub open spec fn selector(signature: Seq<u8>) -> Seq<u8> {
    keccak256_digest(signature).take(4)
}

/// The ABI word of an address: twelve zero bytes, then the address.
pub open spec fn address_word(a: Address) -> Seq<u8> {
    Seq::new(12, |i: int| 0u8) + a.bytes@
}

/// The ABI word of a 256-bit unsigned integer: its 32 big-endian bytes.
pub open spec fn uint_word(v: U256) -> Seq<u8> {
    be_bytes(v.value(), 32)
}

/// Appends `bytes` to `data`.
pub(crate) fn push_bytes(data: &mut Vec<u8>, bytes: &[u8])
    ensures
        final(data)@ == old(data)@ + bytes@,
{
    let ghost before = data@;
    let mut j: usize = 0;
    while j < bytes.len()
        invariant
            j <= bytes@.len(),
            data@ == before + bytes@.subrange(0, j as int),
        decreases bytes@.len() - j,
    {
        data.push(bytes[j]);
        j = j + 1;
        assert(data@ =~= before + bytes@.subrange(0, j as int));
    }
    assert(bytes@.subrange(0, bytes@.len() as int) =~= bytes@);
}

/// Appends the selector of `signature`.
fn push_selector(data: &mut Vec<u8>, signature: &[u8])
    ensures
        final(data)@ == old(data)@ + selector(signature@),
        final(data)@.len() == old(data)@.len() + 4,
{
    let digest = keccak256(signature);
    push_bytes(data, vstd::slice::slice_subrange(digest.bytes.as_slice(), 0, 4));
    assert(digest.bytes@.subrange(0, 4) =~= keccak256_digest(signature@).take(4));
}

/// Appends the ABI word of an address.
fn push_address_word(data: &mut Vec<u8>, a: &Address)
    ensures
        final(data)@ == old(data)@ + address_word(*a),
        final(data)@.len() == old(data)@.len() + 32,
{
    let padding = [0u8; 12];
    push_bytes(data, padding.as_slice());
    push_bytes(data, a.bytes.as_slice());
    assert(padding@ =~= Seq::new(12, |i: int| 0u8));
}

/// Appends the ABI word of an unsigned integer.
fn push_uint_word(data: &mut Vec<u8>, v: U256)
    ensures
        final(data)@ == old(data)@ + uint_word(v),
        final(data)@.len() == old(data)@.len() + 32,
{
    let word = to_be_bytes(v);
    push_bytes(data, word.as_slice());
}

/// The calldata of `slash(signer, span)` on the slash manager.
pub fn build_slash_calldata(signer: Address, span: U256) -> (r: Vec<u8>)
    ensures
        r@ == selector(SLASH_SIGNATURE@) + address_word(signer) + uint_word(span),
        r@.len() == 68,
{
    let mut data: Vec<u8> = Vec::new();
    let signature = SLASH_SIGNATURE;
    push_selector(&mut data, signature.as_slice());
    push_address_word(&mut data, &signer);
    push_uint_word(&mut data, span);
    assert(data@ =~= selector(SLASH_SIGNATURE@) + address_word(signer) + uint_word(span));
    data
}

/// The calldata of the query `getEligibleValidators()` on the validator set contract.
pub fn build_get_eligible_validators_calldata() -> (r: Vec<u8>)
    ensures
        r@ == selector(GET_ELIGIBLE_VALIDATORS_SIGNATURE@),
        r@.len() == 4,
{
    let mut data: Vec<u8> = Vec::new();
    let signature = GET_ELIGIBLE_VALIDATORS_SIGNATURE;
    push_selector(&mut data, signature.as_slice());
    assert(data@ =~= selector(GET_ELIGIBLE_VALIDATORS_SIGNATURE@));
    data
}

/// The calldata of the query `currentSpanNumber()` on the validator set contract.
pub fn build_current_span_number_calldata() -> (r: Vec<u8>)
    ensures
        r@ == selector(CURRENT_SPAN_NUMBER_SIGNATURE@),
        r@.len() == 4,
{
    let mut data: Vec<u8> = Vec::new();
    let signature = CURRENT_SPAN_NUMBER_SIGNATURE;
    push_selector(&mut data, signature.as_slice());
    assert(data@ =~= selector(CURRENT_SPAN_NUMBER_SIGNATURE@));
    data
}

/// The calldata of the query `isSignerSlashed(signer, span)` on the slash manager.
pub fn build_is_signer_slashed_calldata(signer: Address, span: U256) -> (r: Vec<u8>)
    ensures
        r@ == selector(IS_SIGNER_SLASHED_SIGNATURE@) + address_word(signer) + uint_word(span),
        r@.len() == 68,
{
    let mut data: Vec<u8> = Vec::new();
    let signature = IS_SIGNER_SLASHED_SIGNATURE;
    push_selector(&mut data, signature.as_slice());
    push_address_word(&mut data, &signer);
    push_uint_word(&mut data, span);
    assert(data@ =~= selector(IS_SIGNER_SLASHED_SIGNATURE@) + address_word(signer) + uint_word(
        span,
    ));
    data
}

/// The calldata of `distributeReward(amount, validator)` on the stake manager.
pub fn build_distribute_reward_calldata(amount: U256, validator: Address) -> (r: Vec<u8>)
    ensures
        r@ == selector(DISTRIBUTE_REWARD_SIGNATURE@) + uint_word(amount) + address_word(validator),
        r@.len() == 68,
{
    let mut data: Vec<u8> = Vec::new();
    let signature = DISTRIBUTE_REWARD_SIGNATURE;
    push_selector(&mut data, signature.as_slice());
    push_uint_word(&mut data, amount);
    push_address_word(&mut data, &validator);
    assert(data@ =~= selector(DISTRIBUTE_REWARD_SIGNATURE@) + uint_word(amount) + address_word(
        validator,
    ));
    data
}

/// The zero bytes that pad `len` bytes to a multiple of 32.
pub open spec fn abi_padding(len: nat) -> Seq<u8> {
    Seq::new(((32 - len % 32) % 32) as nat, |i: int| 0u8)
}

/// The ABI encoding of a single `bytes` argument: the offset of its data (32), its
/// length, and the data padded with zeros to a multiple of 32 bytes.
pub open spec fn abi_bytes_argument(data: Seq<u8>) -> Seq<u8> {
    be_bytes(32, 32) + be_bytes(data.len(), 32) + data + abi_padding(data.len())
}

/// The calldata of `commitSpan(validatorBytes)` on the validator set contract, where
/// `validatorBytes` is the RLP list of the validators in minimal form.
pub fn build_commit_span_calldata(validators: &Vec<Validator>) -> (r: Vec<u8>)
    requires
        validators@.len() * 55 + 9 <= usize::MAX,
    ensures
        r@ == selector(COMMIT_SPAN_SIGNATURE@) + abi_bytes_argument(rlp_validators(validators@)),
        r@.len() % 32 == 4,
{
    let payload = encode_validators(validators);
    let mut data: Vec<u8> = Vec::new();
    let signature = COMMIT_SPAN_SIGNATURE;
    push_selector(&mut data, signature.as_slice());
    let offset = to_be_bytes(U256::from_u64(32));
    push_bytes(&mut data, offset.as_slice());
    let length = to_be_bytes(U256::from_u64(payload.len() as u64));
    push_bytes(&mut data, length.as_slice());
    push_bytes(&mut data, payload.as_slice());
    let pad_len: usize = (32 - payload.len() % 32) % 32;
    let mut j: usize = 0;
    let ghost before = data@;
    while j < pad_len
        invariant
            j <= pad_len,
            data@ == before + Seq::new(j as nat, |i: int| 0u8),
        decreases pad_len - j,
    {
        data.push(0u8);
        j = j + 1;
        assert(data@ =~= before + Seq::new(j as nat, |i: int| 0u8));
    }
    assert(data@ =~= selector(COMMIT_SPAN_SIGNATURE@) + abi_bytes_argument(
        rlp_validators(validators@),
    ));
    let ghost n = payload@.len();
    assert((n + (32 - n % 32) % 32) % 32 == 0) by (nonlinear_arith);
    data
}

/// Whether a transaction is a system transaction: one with a zero gas price sent by
/// the block's coinbase.
pub fn is_system_transaction(tx_gas_price: u128, tx_sender: Address, block_coinbase: Address) -> (r:
    bool)
    ensures
        r == (tx_gas_price == 0 && tx_sender == block_coinbase),
{
    let same = tx_sender == block_coinbase;
    proof {
        if tx_sender.bytes@ == block_coinbase.bytes@ {
            lemma_address_ext(tx_sender, block_coinbase);
        }
    }
    tx_gas_price == 0 && same
}

} // verus!

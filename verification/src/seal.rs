//! The block signer: the address whose ECDSA signature seals a header.
//!
//! The last 65 bytes of the extra-data are the seal. It signs the Keccak-256 hash
//! of the RLP list of the header's fields, with the seal cut from the extra-data:
//! parent hash, ommers hash, coinbase, state root, transactions root, receipts
//! root, logs bloom, difficulty, number, gas limit, gas used, timestamp,
//! extra-data without the seal, mix hash, nonce (8 bytes) and, when present, the
//! base fee.

use crate::header::Header;
use crate::rlp::{
    lemma_be_bytes_len, push_rlp_list_header, push_rlp_short_string, push_rlp_string,
    push_rlp_uint, rlp_list_header, rlp_natural, rlp_string, rlp_uint,
};
use crate::system_tx::push_bytes;
use crate::types::{Address, B256, EXTRA_SEAL};
use crate::u256::{be_bytes, keccak256, keccak256_digest, to_be_bytes, U256};
use crate::validation::KubConsensusError;
use vstd::prelude::*;

verus! {

/// The address that `alloy_primitives::Signature` recovers from a 65-byte raw
/// signature (`r`, `s`, then `v`) over the prehashed message `prehash`; `None` when
/// the signature does not parse or no key recovers from it.
pub uninterp spec fn ecrecover_address(prehash: Seq<u8>, signature: Seq<u8>) -> Option<Address>;

/// Recovers the signer of `prehash` from a raw signature with
/// `alloy_primitives::Signature::from_raw_array` and `recover_address_from_prehash`.
#[verifier::external_body]
fn recover_address(prehash: B256, signature: [u8; 65]) -> (r: Option<Address>)
    ensures
        r == ecrecover_address(prehash.bytes@, signature@),
{
    match alloy_primitives::Signature::from_raw_array(&signature) {
        Ok(sig) => match sig.recover_address_from_prehash(&alloy_primitives::B256::from(prehash.bytes)) {
            Ok(a) => Some(Address { bytes: a.0 .0 }),
            Err(_) => None,
        },
        Err(_) => None,
    }
}

/// The RLP payload of the fields that the seal signs.
pub open spec fn seal_payload(h: Header) -> Seq<u8> {
    let extra = h.extra_data@;
    rlp_string(h.parent_hash.bytes@) + rlp_string(h.ommers_hash.bytes@) + rlp_string(
        h.beneficiary.bytes@,
    ) + rlp_string(h.state_root.bytes@) + rlp_string(h.transactions_root.bytes@) + rlp_string(
        h.receipts_root.bytes@,
    ) + rlp_string(h.logs_bloom@) + rlp_uint(h.difficulty) + rlp_natural(h.number as nat)
        + rlp_natural(h.gas_limit as nat) + rlp_natural(h.gas_used as nat) + rlp_natural(
        h.timestamp as nat,
    ) + rlp_string(extra.take(extra.len() - 65)) + rlp_string(h.mix_hash.bytes@) + rlp_string(
        be_bytes(h.nonce as nat, 8),
    ) + match h.base_fee_per_gas {
        Some(b) => rlp_natural(b as nat),
        None => Seq::empty(),
    }
}

/// The message whose Keccak-256 hash the seal signs: the RLP list of the sealed fields.
pub open spec fn seal_preimage(h: Header) -> Seq<u8> {
    rlp_list_header(seal_payload(h).len()) + seal_payload(h)
}

/// The signer recovered from the seal of `h` (which holds at least 65 bytes of extra-data).
pub open spec fn seal_signer(h: Header) -> Option<Address> {
    let extra = h.extra_data@;
    ecrecover_address(keccak256_digest(seal_preimage(h)), extra.skip(extra.len() - 65))
}

/// The signer of a header: an error when the extra-data is too short to hold a seal
/// or no signer recovers from it.
pub open spec fn spec_recover_signer(h: Header) -> Result<Address, KubConsensusError> {
    if h.extra_data@.len() < 65 {
        Err(KubConsensusError::ExtraDataTooShort { length: h.extra_data@.len() as usize, minimum: 65 })
    } else {
        match seal_signer(h) {
            Some(a) => Ok(a),
            None => Err(KubConsensusError::SignerRecoveryFailed),
        }
    }
}

/// The last `m` of the `n` low big-endian bytes of `v` are its `m` low bytes.
proof fn lemma_be_bytes_suffix(v: nat, n: nat, m: nat)
    requires
        m <= n,
    ensures
        be_bytes(v, n).skip(n - m) == be_bytes(v, m),
    decreases m,
{
    lemma_be_bytes_len(v, n);
    lemma_be_bytes_len(v, m);
    if m == 0 {
        assert(be_bytes(v, n).skip(n as int) =~= Seq::<u8>::empty());
    } else {
        lemma_be_bytes_suffix(v / 256, (n - 1) as nat, (m - 1) as nat);
        lemma_be_bytes_len(v / 256, (n - 1) as nat);
        assert(be_bytes(v, n).skip(n - m) =~= be_bytes(v / 256, (n - 1) as nat).skip(
            (n - 1) - (m - 1),
        ).push((v % 256) as u8));
    }
}

/// Appends the RLP encoding of a 64-bit number.
fn push_rlp_u64(out: &mut Vec<u8>, v: u64)
    ensures
        final(out)@ == old(out)@ + rlp_natural(v as nat),
{
    push_rlp_uint(out, U256::from_u64(v));
}

/// Appends the RLP encoding of the 8 big-endian bytes of a nonce.
fn push_rlp_nonce(out: &mut Vec<u8>, nonce: u64)
    ensures
        final(out)@ == old(out)@ + rlp_string(be_bytes(nonce as nat, 8)),
{
    let word = to_be_bytes(U256::from_u64(nonce));
    let tail = vstd::slice::slice_subrange(word.as_slice(), 24, 32);
    proof {
        lemma_be_bytes_suffix(nonce as nat, 32, 8);
        assert(tail@ =~= be_bytes(nonce as nat, 32).skip(24));
    }
    push_rlp_short_string(out, tail);
}

/// The message that the seal of `header` signs.
fn seal_message(header: &Header) -> (r: Vec<u8>)
    requires
        header.extra_data@.len() >= 65,
    ensures
        r@ == seal_preimage(*header),
{
    let mut p: Vec<u8> = Vec::new();
    push_rlp_short_string(&mut p, header.parent_hash.bytes.as_slice());
    push_rlp_short_string(&mut p, header.ommers_hash.bytes.as_slice());
    push_rlp_short_string(&mut p, header.beneficiary.bytes.as_slice());
    push_rlp_short_string(&mut p, header.state_root.bytes.as_slice());
    push_rlp_short_string(&mut p, header.transactions_root.bytes.as_slice());
    push_rlp_short_string(&mut p, header.receipts_root.bytes.as_slice());
    push_rlp_string(&mut p, header.logs_bloom.as_slice());
    push_rlp_uint(&mut p, header.difficulty);
    push_rlp_u64(&mut p, header.number);
    push_rlp_u64(&mut p, header.gas_limit);
    push_rlp_u64(&mut p, header.gas_used);
    push_rlp_u64(&mut p, header.timestamp);
    let unsealed = vstd::slice::slice_subrange(
        header.extra_data.as_slice(),
        0,
        header.extra_data.len() - EXTRA_SEAL,
    );
    assert(unsealed@ =~= header.extra_data@.take(header.extra_data@.len() - 65));
    push_rlp_string(&mut p, unsealed);
    push_rlp_short_string(&mut p, header.mix_hash.bytes.as_slice());
    push_rlp_nonce(&mut p, header.nonce);
    match header.base_fee_per_gas {
        Some(b) => push_rlp_u64(&mut p, b),
        None => {},
    }
    assert(p@ =~= seal_payload(*header));
    let mut out: Vec<u8> = Vec::new();
    push_rlp_list_header(&mut out, p.len());
    push_bytes(&mut out, p.as_slice());
    out
}

/// The hash that the seal of `header` signs: the Keccak-256 hash of the RLP list of
/// its sealed fields.
pub fn seal_hash(header: &Header) -> (r: B256)
    requires
        header.extra_data@.len() >= 65,
    ensures
        r.bytes@ == keccak256_digest(seal_preimage(*header)),
{
    let message = seal_message(header);
    keccak256(message.as_slice())
}

/// Recovers the signer of a header from the seal at the end of its extra-data.
pub fn recover_signer(header: &Header) -> (r: Result<Address, KubConsensusError>)
    ensures
        r == spec_recover_signer(*header),
{
    let len = header.extra_data.len();
    if len < EXTRA_SEAL {
        return Err(KubConsensusError::ExtraDataTooShort { length: len, minimum: EXTRA_SEAL });
    }
    let hash = seal_hash(header);
    let mut seal = [0u8; 65];
    let mut i: usize = 0;
    while i < 65
        invariant
            i <= 65,
            len == header.extra_data@.len(),
            len >= 65,
            forall|j: int| 0 <= j < i ==> seal@[j] == header.extra_data@[len - 65 + j],
        decreases 65 - i,
    {
        seal[i] = header.extra_data[len - EXTRA_SEAL + i];
        i = i + 1;
    }
    assert(seal@ =~= header.extra_data@.skip(len - 65));
    match recover_address(hash, seal) {
        Some(a) => Ok(a),
        None => Err(KubConsensusError::SignerRecoveryFailed),
    }
}

} // verus!

//! KubChain header extra-data encoding and decoding.
//!
//! Standard blocks carry `[32B vanity] [65B signature]`; span boundary blocks carry
//! `[32B vanity] [N x 20B validator addresses] [60B system contracts] [65B signature]`,
//! the system contracts being StakeManager, SlashManager and SuperNode in that order.

use crate::types::{
    lemma_address_ext, Address, SystemContracts, EXTRA_CONTRACTS_LEN, EXTRA_CONTRACT_LEN,
    EXTRA_SEAL, EXTRA_VANITY,
};
use vstd::prelude::*;

verus! {

/// Parsed extra-data of a KubChain block header.
#[derive(Clone, Debug)]
pub struct ExtraData {
    /// 32-byte vanity data.
    pub vanity: [u8; 32],
    /// Validator addresses (empty for non-span-boundary blocks).
    pub validators: Vec<Address>,
    /// System contract addresses (only present at span boundaries).
    pub system_contracts: Option<SystemContracts>,
    /// 65-byte ECDSA signature (V, R, S).
    pub seal: [u8; 65],
}

/// The part of the extra-data between the vanity and the seal.
pub open spec fn payload_of(data: Seq<u8>) -> Seq<u8> {
    data.subrange(32, data.len() - 65)
}

/// Extra-data that `decode` accepts: vanity and seal present, and a payload that is
/// either empty or a whole number of addresses followed by the three system contracts.
pub open spec fn decodable(data: Seq<u8>) -> bool {
    &&& data.len() >= 97
    &&& {
        let p = payload_of(data);
        p.len() == 0 || (p.len() >= 60 && (p.len() - 60) % 20 == 0)
    }
}

/// The 20 bytes of `s` at address slot `i`.
pub open spec fn address_slot(s: Seq<u8>, i: int) -> Seq<u8> {
    s.subrange(20 * i, 20 * i + 20)
}

/// `e` is the parse of `data`: same vanity and seal, and the payload's addresses are
/// the validators followed by the three system contracts (absent for an empty payload).
pub open spec fn decodes_to(data: Seq<u8>, e: ExtraData) -> bool {
    let p = payload_of(data);
    let n = (p.len() - 60) / 20;
    &&& decodable(data)
    &&& e.vanity@ == data.subrange(0, 32)
    &&& e.seal@ == data.subrange(data.len() - 65, data.len() as int)
    &&& if p.len() == 0 {
        e.validators@.len() == 0 && e.system_contracts is None
    } else {
        &&& e.validators@.len() == n
        &&& forall|i: int| 0 <= i < n ==> (#[trigger] e.validators@[i]).bytes@ == address_slot(p, i)
        &&& e.system_contracts matches Some(sc) && sc.stake_manager.bytes@ == address_slot(p, n)
            && sc.slash_manager.bytes@ == address_slot(p, n + 1) && sc.super_node.bytes@
            == address_slot(p, n + 2)
    }
}

/// The concatenated bytes of a sequence of addresses.
pub open spec fn addresses_bytes(s: Seq<Address>) -> Seq<u8>
    decreases s.len(),
{
    if s.len() == 0 {
        seq![]
    } else {
        addresses_bytes(s.drop_last()) + s.last().bytes@
    }
}

/// The bytes of the system contracts section: three addresses, or nothing.
pub open spec fn contracts_bytes(sc: Option<SystemContracts>) -> Seq<u8> {
    match sc {
        Some(c) => c.stake_manager.bytes@ + c.slash_manager.bytes@ + c.super_node.bytes@,
        None => seq![],
    }
}

/// The byte encoding of `e`: vanity, validators, system contracts, seal.
pub open spec fn encoding(e: ExtraData) -> Seq<u8> {
    e.vanity@ + addresses_bytes(e.validators@) + contracts_bytes(e.system_contracts) + e.seal@
}

/// Extra-data whose encoding decodes back to it: system contracts are present
/// whenever validators are.
pub open spec fn well_formed(e: ExtraData) -> bool {
    e.system_contracts is Some || e.validators@.len() == 0
}

/// Length and slots of the concatenated address bytes.
pub proof fn lemma_addresses_bytes(s: Seq<Address>)
    ensures
        addresses_bytes(s).len() == 20 * s.len(),
        forall|i: int| 0 <= i < s.len() ==> address_slot(addresses_bytes(s), i) == (#[trigger] s[i]).bytes@,
    decreases s.len(),
{
    if s.len() > 0 {
        lemma_addresses_bytes(s.drop_last());
        let b = addresses_bytes(s);
        let pre = addresses_bytes(s.drop_last());
        assert forall|i: int| 0 <= i < s.len() implies address_slot(b, i) == (#[trigger] s[i]).bytes@ by {
            if i < s.len() - 1 {
                assert(address_slot(b, i) =~= address_slot(pre, i));
                assert(s.drop_last()[i] == s[i]);
            } else {
                assert(address_slot(b, i) =~= s.last().bytes@);
            }
        }
    }
}

/// Bytes made of `n` address slots are the concatenation of those slots.
proof fn lemma_addresses_bytes_of_slots(s: Seq<Address>, b: Seq<u8>)
    requires
        b.len() == 20 * s.len(),
        forall|i: int| 0 <= i < s.len() ==> (#[trigger] s[i]).bytes@ == address_slot(b, i),
    ensures
        addresses_bytes(s) == b,
    decreases s.len(),
{
    if s.len() > 0 {
        let n = s.len() - 1;
        let pre = b.subrange(0, 20 * n);
        assert forall|i: int| 0 <= i < n implies (#[trigger] s.drop_last()[i]).bytes@ == address_slot(pre, i) by {
            assert(s.drop_last()[i] == s[i]);
            assert(address_slot(pre, i) =~= address_slot(b, i));
        }
        lemma_addresses_bytes_of_slots(s.drop_last(), pre);
        assert(s[n].bytes@ == address_slot(b, n));
        assert(b =~= pre + address_slot(b, n));
    }
}

/// Decoding inverts encoding: well-formed extra-data decodes back to itself.
pub proof fn lemma_decode_encode(e: ExtraData)
    requires
        well_formed(e),
    ensures
        decodes_to(encoding(e), e),
{
    let d = encoding(e);
    lemma_addresses_bytes(e.validators@);
    let ab = addresses_bytes(e.validators@);
    let cb = contracts_bytes(e.system_contracts);
    let p = payload_of(d);
    assert(p =~= ab + cb);
    assert(d.subrange(0, 32) =~= e.vanity@);
    assert(d.subrange(d.len() - 65, d.len() as int) =~= e.seal@);
    if p.len() != 0 {
        let n = e.validators@.len() as int;
        let sc = e.system_contracts->0;
        assert(cb.len() == 60);
        assert((p.len() - 60) / 20 == n) by {
            assert(p.len() - 60 == 20 * n);
        }
        assert forall|i: int| 0 <= i < n implies (#[trigger] e.validators@[i]).bytes@ == address_slot(p, i) by {
            assert(address_slot(p, i) =~= address_slot(ab, i));
        }
        assert(address_slot(p, n) =~= sc.stake_manager.bytes@);
        assert(address_slot(p, n + 1) =~= sc.slash_manager.bytes@);
        assert(address_slot(p, n + 2) =~= sc.super_node.bytes@);
    }
}

/// Encoding inverts decoding: extra-data parsed from `data` encodes back to `data`.
pub proof fn lemma_encode_decode(data: Seq<u8>, e: ExtraData)
    requires
        decodes_to(data, e),
    ensures
        well_formed(e),
        encoding(e) == data,
{
    let p = payload_of(data);
    if p.len() == 0 {
        assert(addresses_bytes(e.validators@) =~= seq![]);
        assert(data =~= e.vanity@ + p + e.seal@);
        assert(encoding(e) =~= data);
    } else {
        let n = (p.len() - 60) / 20;
        let sc = e.system_contracts->0;
        let vb = p.subrange(0, 20 * n);
        assert forall|i: int| 0 <= i < n implies (#[trigger] e.validators@[i]).bytes@ == address_slot(vb, i) by {
            assert(address_slot(vb, i) =~= address_slot(p, i));
        }
        lemma_addresses_bytes_of_slots(e.validators@, vb);
        assert(p =~= vb + address_slot(p, n) + address_slot(p, n + 1) + address_slot(p, n + 2));
        assert(data =~= e.vanity@ + p + e.seal@);
        assert(encoding(e) =~= data);
    }
}

/// Extra-data determines its parse: two parses of the same bytes are equal.
pub proof fn lemma_decodes_to_unique(data: Seq<u8>, e1: ExtraData, e2: ExtraData)
    requires
        decodes_to(data, e1),
        decodes_to(data, e2),
    ensures
        e1.vanity == e2.vanity,
        e1.validators@ == e2.validators@,
        e1.system_contracts == e2.system_contracts,
        e1.seal == e2.seal,
{
    assert(e1.vanity =~= e2.vanity);
    assert(e1.seal =~= e2.seal);
    let p = payload_of(data);
    if p.len() != 0 {
        let n = (p.len() - 60) / 20;
        assert forall|i: int| 0 <= i < n implies e1.validators@[i] == e2.validators@[i] by {
            lemma_address_ext(e1.validators@[i], e2.validators@[i]);
        }
        assert(e1.validators@ =~= e2.validators@);
        let s1 = e1.system_contracts->0;
        let s2 = e2.system_contracts->0;
        lemma_address_ext(s1.stake_manager, s2.stake_manager);
        lemma_address_ext(s1.slash_manager, s2.slash_manager);
        lemma_address_ext(s1.super_node, s2.super_node);
    } else {
        assert(e1.validators@ =~= e2.validators@);
    }
}

impl ExtraData {
    /// Decodes extra-data from raw bytes; `None` exactly when the bytes are not
    /// [`decodable`].
    pub fn decode(data: &[u8]) -> (r: Option<ExtraData>)
        ensures
            r is Some <==> decodable(data@),
            r matches Some(e) ==> decodes_to(data@, e),
    {
        let min_len = EXTRA_VANITY + EXTRA_SEAL;
        if data.len() < min_len {
            return None;
        }
        let mut vanity = [0u8; 32];
        let mut i: usize = 0;
        while i < EXTRA_VANITY
            invariant
                i <= 32,
                data@.len() >= 97,
                forall|j: int| 0 <= j < i ==> vanity@[j] == data@[j],
            decreases 32 - i,
        {
            vanity[i] = data[i];
            i = i + 1;
        }
        assert(vanity@ =~= data@.subrange(0, 32));
        let seal_start = data.len() - EXTRA_SEAL;
        let mut seal = [0u8; 65];
        let mut i: usize = 0;
        while i < EXTRA_SEAL
            invariant
                i <= 65,
                seal_start == data@.len() - 65,
                data.len() >= 97,
                forall|j: int| 0 <= j < i ==> seal@[j] == data@[seal_start + j],
            decreases 65 - i,
        {
            seal[i] = data[seal_start + i];
            i = i + 1;
        }
        assert(seal@ =~= data@.subrange(data@.len() - 65, data@.len() as int));
        let payload_len = seal_start - EXTRA_VANITY;
        let ghost p = payload_of(data@);
        assert(p.len() == payload_len);
        if payload_len == 0 {
            return Some(ExtraData { vanity, validators: Vec::new(), system_contracts: None, seal });
        }
        if payload_len < EXTRA_CONTRACTS_LEN {
            return None;
        }
        let validator_bytes_len = payload_len - EXTRA_CONTRACTS_LEN;
        if validator_bytes_len % EXTRA_CONTRACT_LEN != 0 {
            return None;
        }
        let num_validators = validator_bytes_len / EXTRA_CONTRACT_LEN;
        let mut validators: Vec<Address> = Vec::new();
        let mut k: usize = 0;
        while k < num_validators
            invariant
                k <= num_validators,
                num_validators * 20 == validator_bytes_len,
                validator_bytes_len + 60 == payload_len,
                payload_len + 97 == data@.len(),
                p == payload_of(data@),
                validators@.len() == k,
                forall|j: int| 0 <= j < k ==> (#[trigger] validators@[j]).bytes@ == address_slot(p, j),
            decreases num_validators - k,
        {
            let offset = EXTRA_VANITY + k * EXTRA_CONTRACT_LEN;
            let addr = Address::from_slice_at(data, offset);
            assert(addr.bytes@ =~= address_slot(p, k as int));
            validators.push(addr);
            k = k + 1;
        }
        let sc_offset = EXTRA_VANITY + validator_bytes_len;
        let stake_manager = Address::from_slice_at(data, sc_offset);
        let slash_manager = Address::from_slice_at(data, sc_offset + EXTRA_CONTRACT_LEN);
        let super_node = Address::from_slice_at(data, sc_offset + 2 * EXTRA_CONTRACT_LEN);
        let ghost n = num_validators as int;
        assert(stake_manager.bytes@ =~= address_slot(p, n));
        assert(slash_manager.bytes@ =~= address_slot(p, n + 1));
        assert(super_node.bytes@ =~= address_slot(p, n + 2));
        Some(
            ExtraData {
                vanity,
                validators,
                system_contracts: Some(SystemContracts { stake_manager, slash_manager, super_node }),
                seal,
            },
        )
    }

    /// Encodes this extra-data back to raw bytes: vanity, validators, system contracts, seal.
    pub fn encode(&self) -> (r: Vec<u8>)
        requires
            self.validators@.len() * 20 + 157 <= usize::MAX,
        ensures
            r@ == encoding(*self),
    {
        let mut data: Vec<u8> = Vec::with_capacity(EXTRA_VANITY + self.validators_bytes_len() + EXTRA_SEAL);
        let mut i: usize = 0;
        while i < 32
            invariant
                i <= 32,
                data@ == self.vanity@.subrange(0, i as int),
            decreases 32 - i,
        {
            data.push(self.vanity[i]);
            i = i + 1;
            assert(data@ =~= self.vanity@.subrange(0, i as int));
        }
        let mut k: usize = 0;
        while k < self.validators.len()
            invariant
                k <= self.validators@.len(),
                data@ == self.vanity@ + addresses_bytes(self.validators@.take(k as int)),
            decreases self.validators@.len() - k,
        {
            let addr = self.validators[k];
            let ghost before = data@;
            let mut j: usize = 0;
            while j < 20
                invariant
                    j <= 20,
                    data@ == before + addr.bytes@.subrange(0, j as int),
                decreases 20 - j,
            {
                data.push(addr.bytes[j]);
                j = j + 1;
                assert(data@ =~= before + addr.bytes@.subrange(0, j as int));
            }
            assert(self.validators@.take(k + 1).drop_last() =~= self.validators@.take(k as int));
            assert(addr.bytes@.subrange(0, 20) =~= addr.bytes@);
            k = k + 1;
            assert(data@ =~= self.vanity@ + addresses_bytes(self.validators@.take(k as int)));
        }
        assert(self.validators@.take(k as int) =~= self.validators@);
        let ghost before_contracts = data@;
        match &self.system_contracts {
            Some(sc) => {
                push_address(&mut data, &sc.stake_manager);
                push_address(&mut data, &sc.slash_manager);
                push_address(&mut data, &sc.super_node);
                assert(data@ =~= before_contracts + contracts_bytes(self.system_contracts));
            },
            None => {
                assert(data@ =~= before_contracts + contracts_bytes(self.system_contracts));
            },
        }
        let ghost before_seal = data@;
        let mut i: usize = 0;
        while i < 65
            invariant
                i <= 65,
                data@ == before_seal + self.seal@.subrange(0, i as int),
            decreases 65 - i,
        {
            data.push(self.seal[i]);
            i = i + 1;
            assert(data@ =~= before_seal + self.seal@.subrange(0, i as int));
        }
        assert(self.seal@.subrange(0, 65) =~= self.seal@);
        data
    }

    /// The length in bytes of the validator and system contracts sections.
    pub fn validators_bytes_len(&self) -> (r: usize)
        requires
            self.validators@.len() * 20 + 60 <= usize::MAX,
        ensures
            r == self.validators@.len() * 20 + if self.system_contracts is Some {
                60int
            } else {
                0int
            },
    {
        let validator_len = self.validators.len() * EXTRA_CONTRACT_LEN;
        let contracts_len = if self.system_contracts.is_some() {
            EXTRA_CONTRACTS_LEN
        } else {
            0
        };
        validator_len + contracts_len
    }

    /// Returns true if this extra-data lists validators (a span boundary).
    pub fn has_validators(&self) -> (r: bool)
        ensures
            r == (self.validators@.len() > 0),
    {
        !self.validators.is_empty()
    }

    /// The extra-data as the block producer signs it: only the vanity when the
    /// extra-data holds vanity and seal, else the whole extra-data.
    pub fn seal_data(extra_data: &[u8]) -> (r: Vec<u8>)
        ensures
            extra_data@.len() < 97 ==> r@ == extra_data@,
            extra_data@.len() >= 97 ==> r@ == extra_data@.subrange(0, 32),
    {
        let end = if extra_data.len() < EXTRA_VANITY + EXTRA_SEAL {
            extra_data.len()
        } else {
            EXTRA_VANITY
        };
        let mut out: Vec<u8> = Vec::new();
        let mut i: usize = 0;
        while i < end
            invariant
                i <= end <= extra_data@.len(),
                out@ == extra_data@.subrange(0, i as int),
            decreases end - i,
        {
            out.push(extra_data[i]);
            i = i + 1;
            assert(out@ =~= extra_data@.subrange(0, i as int));
        }
        assert(extra_data@.subrange(0, extra_data@.len() as int) =~= extra_data@);
        out
    }
}

/// Appends the 20 bytes of an address.
fn push_address(data: &mut Vec<u8>, addr: &Address)
    ensures
        final(data)@ == old(data)@ + addr.bytes@,
{
    let ghost before = data@;
    let mut j: usize = 0;
    while j < 20
        invariant
            j <= 20,
            data@ == before + addr.bytes@.subrange(0, j as int),
        decreases 20 - j,
    {
        data.push(addr.bytes[j]);
        j = j + 1;
        assert(data@ =~= before + addr.bytes@.subrange(0, j as int));
    }
    assert(addr.bytes@.subrange(0, 20) =~= addr.bytes@);
}

} // verus!

//! 256-bit unsigned integers and Keccak-256 hashing.
//!
//! The arithmetic, comparisons and hashing are carried out by
//! `alloy_primitives`; the wrappers below state what those operations
//! return in terms of the mathematical value of their operands.

use crate::types::B256;
use vstd::prelude::*;
use vstd::std_specs::convert::FromSpecImpl;

verus! {

/// 2^64.
pub open spec fn pow64() -> nat {
    0x1_0000_0000_0000_0000nat
}

/// 2^256, the modulus of [`U256`] arithmetic.
pub open spec fn u256_modulus() -> nat {
    0x1_0000_0000_0000_0000_0000_0000_0000_0000_0000_0000_0000_0000_0000_0000_0000_0000nat
}

/// An unsigned 256-bit integer stored as four 64-bit limbs, least significant first.
#[derive(Clone, Copy, Debug, PartialEq, Eq, Hash)]
pub struct U256 {
    /// Little-endian limbs.
    pub limbs: [u64; 4],
}

impl U256 {
    /// The mathematical value of the integer.
    pub open spec fn value(self) -> nat {
        self.limbs@[0] as nat + pow64() * (self.limbs@[1] as nat + pow64() * (self.limbs@[2] as nat
            + pow64() * (self.limbs@[3] as nat)))
    }

    /// The value zero.
    pub fn zero() -> (r: U256)
        ensures
            r.value() == 0,
    {
        U256 { limbs: [0u64; 4] }
    }

    /// The value of a 64-bit integer.
    pub fn from_u64(v: u64) -> (r: U256)
        ensures
            r.value() == v,
    {
        let limbs = [v, 0u64, 0u64, 0u64];
        assert(limbs@[0] == v && limbs@[1] == 0 && limbs@[2] == 0 && limbs@[3] == 0);
        U256 { limbs }
    }
}

impl From<u64> for U256 {
    fn from(v: u64) -> (r: U256) {
        U256 { limbs: [v, 0u64, 0u64, 0u64] }
    }
}

impl FromSpecImpl<u64> for U256 {
    open spec fn obeys_from_spec() -> bool {
        true
    }

    open spec fn from_spec(v: u64) -> U256 {
        U256 { limbs: [v, 0u64, 0u64, 0u64] }
    }
}

/// Every [`U256`] value is below 2^256.
pub proof fn lemma_value_bound(a: U256)
    ensures
        a.value() < u256_modulus(),
{
    let l0 = a.limbs@[0] as nat;
    let l1 = a.limbs@[1] as nat;
    let l2 = a.limbs@[2] as nat;
    let l3 = a.limbs@[3] as nat;
    let p = pow64();
    assert(l3 + 1 <= p);
    assert(p * (l3 as nat) + p <= p * p) by (nonlinear_arith)
        requires
            l3 + 1 <= p,
    ;
    assert(l2 + p * l3 < p * p);
    assert(p * (l2 + p * l3) + p <= p * (p * p)) by (nonlinear_arith)
        requires
            l2 + p * l3 < p * p,
    ;
    assert(l1 + p * (l2 + p * l3) < p * (p * p));
    assert(p * (l1 + p * (l2 + p * l3)) + p <= p * (p * (p * p))) by (nonlinear_arith)
        requires
            l1 + p * (l2 + p * l3) < p * (p * p),
    ;
    assert(p * (p * (p * p)) == u256_modulus()) by (nonlinear_arith)
        requires
            p == 0x1_0000_0000_0000_0000nat,
    ;
}

/// The value of a big-endian byte string.
pub open spec fn be_value(bytes: Seq<u8>) -> nat
    decreases bytes.len(),
{
    if bytes.len() == 0 {
        0
    } else {
        be_value(bytes.drop_last()) * 256 + bytes.last() as nat
    }
}

/// The `n` low bytes of `v` in big-endian order.
pub open spec fn be_bytes(v: nat, n: nat) -> Seq<u8>
    decreases n,
{
    if n == 0 {
        Seq::empty()
    } else {
        be_bytes(v / 256, (n - 1) as nat).push((v % 256) as u8)
    }
}

/// Keccak-256 digest of a byte string, as computed by `alloy_primitives::keccak256`.
pub uninterp spec fn keccak256_digest(data: Seq<u8>) -> Seq<u8>;

/// `(a + b) mod 2^256`, computed by `alloy_primitives::U256::wrapping_add`.
#[verifier::external_body]
pub(crate) fn wrapping_add(a: U256, b: U256) -> (r: U256)
    ensures
        r.value() == (a.value() + b.value()) % u256_modulus(),
{
    let x = alloy_primitives::U256::from_limbs(a.limbs);
    let y = alloy_primitives::U256::from_limbs(b.limbs);
    U256 { limbs: x.wrapping_add(y).into_limbs() }
}

/// `a % b`, computed by the `%` operator of `alloy_primitives::U256`, which
/// panics on a zero divisor.
#[verifier::external_body]
pub(crate) fn rem(a: U256, b: U256) -> (r: U256)
    requires
        b.value() != 0,
    ensures
        r.value() == a.value() % b.value(),
{
    let x = alloy_primitives::U256::from_limbs(a.limbs);
    let y = alloy_primitives::U256::from_limbs(b.limbs);
    U256 { limbs: (x % y).into_limbs() }
}

/// `a <= b`, computed by the `<=` operator of `alloy_primitives::U256`.
#[verifier::external_body]
pub(crate) fn le(a: U256, b: U256) -> (r: bool)
    ensures
        r == (a.value() <= b.value()),
{
    let x = alloy_primitives::U256::from_limbs(a.limbs);
    let y = alloy_primitives::U256::from_limbs(b.limbs);
    x <= y
}

/// Whether `a` is zero, computed by `alloy_primitives::U256::is_zero`.
#[verifier::external_body]
pub(crate) fn is_zero(a: U256) -> (r: bool)
    ensures
        r == (a.value() == 0),
{
    alloy_primitives::U256::from_limbs(a.limbs).is_zero()
}

/// The integer whose big-endian encoding is `bytes`, computed by
/// `alloy_primitives::U256::from_be_bytes`.
#[verifier::external_body]
pub(crate) fn from_be_bytes(bytes: [u8; 32]) -> (r: U256)
    ensures
        r.value() == be_value(bytes@),
{
    U256 { limbs: alloy_primitives::U256::from_be_bytes(bytes).into_limbs() }
}

/// The Keccak-256 digest of `data`, computed by `alloy_primitives::keccak256`.
#[verifier::external_body]
pub(crate) fn keccak256(data: &[u8]) -> (r: B256)
    ensures
        r.bytes@ == keccak256_digest(data@),
{
    B256 { bytes: alloy_primitives::keccak256(data).0 }
}

/// The 32 big-endian bytes of `v`, computed by `alloy_primitives::U256::to_be_bytes`.
#[verifier::external_body]
pub(crate) fn to_be_bytes(v: U256) -> (r: [u8; 32])
    ensures
        r@ == be_bytes(v.value(), 32),
{
    alloy_primitives::U256::from_limbs(v.limbs).to_be_bytes::<32>()
}

} // verus!

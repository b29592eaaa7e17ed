//! RLP encoding of the validator set committed for the next span.
//!
//! Each validator is encoded in its minimal form, the list `[address, voting
//! power]`; the set is the RLP list of those encodings. An address is a 20-byte
//! string; a voting power is the string of its big-endian bytes without leading
//! zeros (the empty string for zero, the byte itself below `0x80`).

use crate::system_tx::push_bytes;
use crate::types::{MinimalVal, Validator};
use crate::u256::{be_bytes, to_be_bytes, U256};
use vstd::arithmetic::power::pow;
use vstd::prelude::*;

verus! {

/// The big-endian bytes of `n` without leading zeros (empty for zero).
pub open spec fn be_min(n: nat) -> Seq<u8>
    decreases n,
{
    if n == 0 {
        Seq::empty()
    } else {
        be_min(n / 256).push((n % 256) as u8)
    }
}

/// `s` without its leading zero bytes.
pub open spec fn strip_leading_zeros(s: Seq<u8>) -> Seq<u8>
    decreases s.len(),
{
    if s.len() > 0 && s[0] == 0 {
        strip_leading_zeros(s.drop_first())
    } else {
        s
    }
}

/// The RLP encoding of the byte string `b`.
pub open spec fn rlp_string(b: Seq<u8>) -> Seq<u8> {
    if b.len() == 1 && b[0] < 0x80 {
        b
    } else if b.len() < 56 {
        seq![(0x80 + b.len()) as u8] + b
    } else {
        seq![(0xb7 + be_min(b.len()).len()) as u8] + be_min(b.len()) + b
    }
}

/// The RLP header of a list whose payload is `len` bytes long.
pub open spec fn rlp_list_header(len: nat) -> Seq<u8> {
    if len < 56 {
        seq![(0xc0 + len) as u8]
    } else {
        seq![(0xf7 + be_min(len).len()) as u8] + be_min(len)
    }
}

/// The RLP encoding of a natural number below 2^256: its big-endian bytes without
/// leading zeros, as a string.
pub open spec fn rlp_natural(v: nat) -> Seq<u8> {
    rlp_string(strip_leading_zeros(be_bytes(v, 32)))
}

/// The RLP encoding of a 256-bit unsigned integer.
pub open spec fn rlp_uint(v: U256) -> Seq<u8> {
    rlp_natural(v.value())
}

/// The RLP encoding of a validator in minimal form: the list `[address, voting power]`.
pub open spec fn rlp_minimal_val(v: MinimalVal) -> Seq<u8> {
    let payload = rlp_string(v.address.bytes@) + rlp_uint(v.voting_power);
    rlp_list_header(payload.len()) + payload
}

/// The concatenated minimal encodings of `vs`.
pub open spec fn validators_payload(vs: Seq<Validator>) -> Seq<u8>
    decreases vs.len(),
{
    if vs.len() == 0 {
        Seq::empty()
    } else {
        validators_payload(vs.drop_last()) + rlp_minimal_val(
            MinimalVal { address: vs.last().address, voting_power: vs.last().voting_power },
        )
    }
}

/// The RLP list of the minimal encodings of `vs`.
pub open spec fn rlp_validators(vs: Seq<Validator>) -> Seq<u8> {
    rlp_list_header(validators_payload(vs).len()) + validators_payload(vs)
}

/// A number below `256^k` has at most `k` significant bytes.
proof fn lemma_be_min_len(n: nat, k: nat)
    requires
        n < pow(256, k),
    ensures
        be_min(n).len() <= k,
    decreases k,
{
    if n > 0 {
        if k == 0 {
            assert(pow(256, 0) == 1) by {
                vstd::arithmetic::power::lemma_pow0(256);
            }
        } else {
            vstd::arithmetic::power::lemma_pow_positive(256, (k - 1) as nat);
            assert(pow(256, k) == 256 * pow(256, (k - 1) as nat)) by {
                vstd::arithmetic::power::lemma_pow_adds(256, 1, (k - 1) as nat);
                vstd::arithmetic::power::lemma_pow1(256);
            }
            let p = pow(256, (k - 1) as nat);
            assert(n / 256 < p) by (nonlinear_arith)
                requires
                    n < 256 * p,
                    p > 0,
            ;
            lemma_be_min_len(n / 256, (k - 1) as nat);
        }
    }
}

/// The minimal big-endian bytes of `n`.
pub(crate) fn be_min_bytes(n: usize) -> (r: Vec<u8>)
    ensures
        r@ == be_min(n as nat),
        r@.len() <= 8,
    decreases n,
{
    proof {
        assert(n < pow(256, 8)) by {
            reveal_with_fuel(pow, 9);
        }
        lemma_be_min_len(n as nat, 8);
    }
    if n == 0 {
        Vec::new()
    } else {
        let mut r = be_min_bytes(n / 256);
        r.push((n % 256) as u8);
        r
    }
}

/// Appends the RLP encoding of a short byte string.
pub(crate) fn push_rlp_short_string(out: &mut Vec<u8>, b: &[u8])
    requires
        b@.len() < 56,
    ensures
        final(out)@ == old(out)@ + rlp_string(b@),
{
    if b.len() == 1 && b[0] < 0x80 {
        out.push(b[0]);
        assert(b@ =~= seq![b@[0]]);
    } else {
        out.push((0x80 + b.len()) as u8);
        push_bytes(out, b);
    }
}

/// Appends the RLP encoding of a byte string of any length.
pub(crate) fn push_rlp_string(out: &mut Vec<u8>, b: &[u8])
    ensures
        final(out)@ == old(out)@ + rlp_string(b@),
{
    if b.len() < 56 {
        push_rlp_short_string(out, b);
    } else {
        let lb = be_min_bytes(b.len());
        out.push((0xb7 + lb.len()) as u8);
        push_bytes(out, lb.as_slice());
        push_bytes(out, b);
    }
}

/// Appends the RLP header of a list whose payload is `len` bytes long.
pub(crate) fn push_rlp_list_header(out: &mut Vec<u8>, len: usize)
    ensures
        final(out)@ == old(out)@ + rlp_list_header(len as nat),
{
    if len < 56 {
        out.push((0xc0 + len) as u8);
    } else {
        let lb = be_min_bytes(len);
        out.push((0xf7 + lb.len()) as u8);
        push_bytes(out, lb.as_slice());
    }
}

/// Appends the RLP encoding of a 256-bit unsigned integer.
pub(crate) fn push_rlp_uint(out: &mut Vec<u8>, v: U256)
    ensures
        final(out)@ == old(out)@ + rlp_uint(v),
{
    let bytes = to_be_bytes(v);
    let ghost s = bytes@;
    let mut k: usize = 0;
    assert(s.skip(0) =~= s);
    while k < 32 && bytes[k] == 0
        invariant
            k <= 32,
            s == bytes@,
            s.len() == 32,
            strip_leading_zeros(s) == strip_leading_zeros(s.skip(k as int)),
        decreases 32 - k,
    {
        assert(s.skip(k as int).drop_first() =~= s.skip(k + 1));
        k = k + 1;
    }
    assert(strip_leading_zeros(s.skip(k as int)) == s.skip(k as int));
    let trimmed = vstd::slice::slice_subrange(bytes.as_slice(), k, 32);
    assert(trimmed@ =~= s.skip(k as int));
    push_rlp_short_string(out, trimmed);
}

/// The RLP encoding of a validator in minimal form.
fn push_rlp_minimal_val(out: &mut Vec<u8>, v: &Validator)
    ensures
        final(out)@ == old(out)@ + rlp_minimal_val(
            MinimalVal { address: v.address, voting_power: v.voting_power },
        ),
        final(out)@.len() <= old(out)@.len() + 55,
{
    let mut payload: Vec<u8> = Vec::new();
    push_rlp_short_string(&mut payload, v.address.bytes.as_slice());
    let ghost after_address = payload@;
    push_rlp_uint(&mut payload, v.voting_power);
    proof {
        let stripped = strip_leading_zeros(be_bytes(v.voting_power.value(), 32));
        lemma_strip_len(be_bytes(v.voting_power.value(), 32));
        lemma_be_bytes_len(v.voting_power.value(), 32);
        assert(after_address.len() == 21);
        assert(rlp_uint(v.voting_power).len() <= 33);
    }
    push_rlp_list_header(out, payload.len());
    push_bytes(out, payload.as_slice());
}

/// The `n` low bytes of `v` are `n` bytes.
pub(crate) proof fn lemma_be_bytes_len(v: nat, n: nat)
    ensures
        be_bytes(v, n).len() == n,
    decreases n,
{
    if n > 0 {
        lemma_be_bytes_len(v / 256, (n - 1) as nat);
    }
}

/// Stripping leading zeros never lengthens a string.
pub(crate) proof fn lemma_strip_len(s: Seq<u8>)
    ensures
        strip_leading_zeros(s).len() <= s.len(),
    decreases s.len(),
{
    if s.len() > 0 && s[0] == 0 {
        lemma_strip_len(s.drop_first());
    }
}

/// The RLP list of the validators' minimal encodings: the `validatorBytes` committed
/// for the next span.
pub fn encode_validators(validators: &Vec<Validator>) -> (r: Vec<u8>)
    requires
        validators@.len() * 55 + 9 <= usize::MAX,
    ensures
        r@ == rlp_validators(validators@),
{
    let mut payload: Vec<u8> = Vec::new();
    let mut i: usize = 0;
    while i < validators.len()
        invariant
            i <= validators@.len(),
            validators@.len() * 55 + 9 <= usize::MAX,
            payload@ == validators_payload(validators@.take(i as int)),
            payload@.len() <= 55 * i,
        decreases validators@.len() - i,
    {
        push_rlp_minimal_val(&mut payload, &validators[i]);
        assert(validators@.take(i + 1).drop_last() =~= validators@.take(i as int));
        i = i + 1;
    }
    assert(validators@.take(i as int) =~= validators@);
    let mut out: Vec<u8> = Vec::new();
    push_rlp_list_header(&mut out, payload.len());
    push_bytes(&mut out, payload.as_slice());
    out
}

} // verus!

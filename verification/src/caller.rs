//! Decoding the answers of read-only queries to KubChain system contracts.
//!
//! A query is made by the EVM driver as a system call whose state is not
//! committed; its output (empty when the call produced none) is decoded here
//! with `alloy_sol_types`, as the return values of the called function.

use crate::contracts::{parse_validators, zip_validators, zip_with_powers, SystemCallError, ValidatorSetResult};
use crate::types::{Address, Validator};
use crate::u256::U256;
use alloy_sol_types::sol_data;
use vstd::prelude::*;

verus! {

/// ABI decoding of `getValidators()` return data as
/// `(address[], uint256[], address, address, address)`; `None` when it does not decode.
pub uninterp spec fn abi_decode_validator_set(data: Seq<u8>) -> Option<
    (Seq<Address>, Seq<U256>, Address, Address, Address),
>;

/// ABI decoding of `getEligibleValidators()` return data as `(address[], uint256[])`.
pub uninterp spec fn abi_decode_eligible_validators(data: Seq<u8>) -> Option<(Seq<Address>, Seq<U256>)>;

/// ABI decoding of `currentSpanNumber()` return data as `uint256`.
pub uninterp spec fn abi_decode_current_span(data: Seq<u8>) -> Option<U256>;

/// ABI decoding of `isSignerSlashed(address,uint256)` return data as `bool`.
pub uninterp spec fn abi_decode_signer_slashed(data: Seq<u8>) -> Option<bool>;

/// Decodes `(address[], uint256[], address, address, address)` with
/// `alloy_sol_types::SolType::abi_decode_sequence`.
#[verifier::external_body]
fn decode_validator_set(data: &[u8]) -> (r: Result<
    (Vec<Address>, Vec<U256>, Address, Address, Address),
    alloy_sol_types::Error,
>)
    ensures
        match r {
            Ok(t) => abi_decode_validator_set(data@) == Some((t.0@, t.1@, t.2, t.3, t.4)),
            Err(_) => abi_decode_validator_set(data@) is None,
        },
{
    let (a, p, s, l, n) = <(
        sol_data::Array<sol_data::Address>,
        sol_data::Array<sol_data::Uint<256>>,
        sol_data::Address,
        sol_data::Address,
        sol_data::Address,
    ) as alloy_sol_types::SolType>::abi_decode_sequence(data)?;
    Ok((
        a.into_iter().map(|x| Address { bytes: x.0.0 }).collect(),
        p.into_iter().map(|x| U256 { limbs: x.into_limbs() }).collect(),
        Address { bytes: s.0.0 },
        Address { bytes: l.0.0 },
        Address { bytes: n.0.0 },
    ))
}

/// Decodes `(address[], uint256[])` with `alloy_sol_types::SolType::abi_decode_sequence`.
#[verifier::external_body]
fn decode_eligible_validators(data: &[u8]) -> (r: Result<
    (Vec<Address>, Vec<U256>),
    alloy_sol_types::Error,
>)
    ensures
        match r {
            Ok(t) => abi_decode_eligible_validators(data@) == Some((t.0@, t.1@)),
            Err(_) => abi_decode_eligible_validators(data@) is None,
        },
{
    let (a, p) = <(
        sol_data::Array<sol_data::Address>,
        sol_data::Array<sol_data::Uint<256>>,
    ) as alloy_sol_types::SolType>::abi_decode_sequence(data)?;
    Ok((
        a.into_iter().map(|x| Address { bytes: x.0.0 }).collect(),
        p.into_iter().map(|x| U256 { limbs: x.into_limbs() }).collect(),
    ))
}

/// Decodes `(uint256,)` with `alloy_sol_types::SolType::abi_decode_sequence`.
#[verifier::external_body]
fn decode_current_span(data: &[u8]) -> (r: Result<U256, alloy_sol_types::Error>)
    ensures
        match r {
            Ok(v) => abi_decode_current_span(data@) == Some(v),
            Err(_) => abi_decode_current_span(data@) is None,
        },
{
    let (v,) = <(sol_data::Uint<256>,) as alloy_sol_types::SolType>::abi_decode_sequence(data)?;
    Ok(U256 { limbs: v.into_limbs() })
}

/// Decodes `(bool,)` with `alloy_sol_types::SolType::abi_decode_sequence`.
#[verifier::external_body]
fn decode_signer_slashed(data: &[u8]) -> (r: Result<bool, alloy_sol_types::Error>)
    ensures
        match r {
            Ok(v) => abi_decode_signer_slashed(data@) == Some(v),
            Err(_) => abi_decode_signer_slashed(data@) is None,
        },
{
    let (v,) = <(sol_data::Bool,) as alloy_sol_types::SolType>::abi_decode_sequence(data)?;
    Ok(v)
}

/// The output of a call: its bytes, or no bytes when it produced none.
pub open spec fn output_bytes(output: Option<Vec<u8>>) -> Seq<u8> {
    match output {
        Some(o) => o@,
        None => Seq::empty(),
    }
}

fn take_output(output: Option<Vec<u8>>) -> (r: Vec<u8>)
    ensures
        r@ == output_bytes(output),
{
    match output {
        Some(o) => o,
        None => Vec::new(),
    }
}

/// The answer of `getValidators()`: the validators with their voting powers and the
/// StakeManager, SlashManager and OfficialNode addresses; an error when the output
/// does not decode.
pub fn query_validators(output: Option<Vec<u8>>) -> (r: Result<ValidatorSetResult, SystemCallError>)
    ensures
        match abi_decode_validator_set(output_bytes(output)) {
            Some(t) => r matches Ok(v) && v.validators@ == zip_validators(t.0, t.1)
                && v.stake_manager == t.2 && v.slash_manager == t.3 && v.node_contract == t.4,
            None => r is Err,
        },
{
    let data = take_output(output);
    match decode_validator_set(data.as_slice()) {
        Ok(t) => Ok(parse_validators(t.0, t.1, t.2, t.3, t.4)),
        Err(e) => Err(SystemCallError::DecodeFailed { call: "getValidators", error: e }),
    }
}

/// The answer of `getEligibleValidators()`: the eligible validators with their voting
/// powers; an error when the output does not decode.
pub fn query_eligible_validators(output: Option<Vec<u8>>) -> (r: Result<Vec<Validator>, SystemCallError>)
    ensures
        match abi_decode_eligible_validators(output_bytes(output)) {
            Some(t) => r matches Ok(v) && v@ == zip_validators(t.0, t.1),
            None => r is Err,
        },
{
    let data = take_output(output);
    match decode_eligible_validators(data.as_slice()) {
        Ok(t) => Ok(zip_with_powers(t.0, t.1)),
        Err(e) => Err(SystemCallError::DecodeFailed { call: "getEligibleValidators", error: e }),
    }
}

/// The answer of `currentSpanNumber()`; an error when the output does not decode.
pub fn query_current_span(output: Option<Vec<u8>>) -> (r: Result<U256, SystemCallError>)
    ensures
        match abi_decode_current_span(output_bytes(output)) {
            Some(v) => r == Ok::<U256, SystemCallError>(v),
            None => r is Err,
        },
{
    let data = take_output(output);
    match decode_current_span(data.as_slice()) {
        Ok(v) => Ok(v),
        Err(e) => Err(SystemCallError::DecodeFailed { call: "currentSpanNumber", error: e }),
    }
}

/// The answer of `isSignerSlashed(signer, span)`: whether the signer was already
/// slashed in the span; an error when the output does not decode.
pub fn query_is_signer_slashed(output: Option<Vec<u8>>) -> (r: Result<bool, SystemCallError>)
    ensures
        match abi_decode_signer_slashed(output_bytes(output)) {
            Some(v) => r == Ok::<bool, SystemCallError>(v),
            None => r is Err,
        },
{
    let data = take_output(output);
    match decode_signer_slashed(data.as_slice()) {
        Ok(v) => Ok(v),
        Err(e) => Err(SystemCallError::DecodeFailed { call: "isSignerSlashed", error: e }),
    }
}

} // verus!

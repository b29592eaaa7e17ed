//! Results of system contract queries and their decoding.
//!
//! The return data of the validator set and slash manager contracts is ABI
//! decoded by `alloy_sol_types`; the decoded values are then assembled here.

use crate::types::{Address, Validator};
use crate::u256::U256;
use vstd::prelude::*;

verus! {

/// The ABI decoding error of `alloy_sol_types`.
#[verifier::external_type_specification]
#[verifier::external_body]
pub struct ExSolError(alloy_sol_types::Error);

/// Why a system contract query failed.
#[derive(Debug)]
pub enum SystemCallError {
    /// The return data of the named call could not be ABI decoded.
    DecodeFailed {
        /// The contract function called.
        call: &'static str,
        /// The decoding error.
        error: alloy_sol_types::Error,
    },
}

/// Result of calling `getValidators()` on the ValidatorSet contract.
#[derive(Clone, Debug)]
pub struct ValidatorSetResult {
    /// Ordered list of validators with their voting power.
    pub validators: Vec<Validator>,
    /// StakeManager contract address.
    pub stake_manager: Address,
    /// SlashManager contract address.
    pub slash_manager: Address,
    /// OfficialNode or SuperNode contract address.
    pub node_contract: Address,
}

/// The validators pairing `addresses[i]` with `powers[i]`, as long as both last.
pub open spec fn zip_validators(addresses: Seq<Address>, powers: Seq<U256>) -> Seq<Validator> {
    let n = if addresses.len() <= powers.len() {
        addresses.len()
    } else {
        powers.len()
    };
    Seq::new(n, |i: int| Validator { address: addresses[i], voting_power: powers[i] })
}

/// Pairs addresses with voting powers, stopping at the shorter list.
pub fn zip_with_powers(addresses: Vec<Address>, powers: Vec<U256>) -> (r: Vec<Validator>)
    ensures
        r@ == zip_validators(addresses@, powers@),
{
    let n = if addresses.len() <= powers.len() {
        addresses.len()
    } else {
        powers.len()
    };
    let mut validators: Vec<Validator> = Vec::new();
    let mut i: usize = 0;
    while i < n
        invariant
            i <= n,
            n <= addresses@.len(),
            n <= powers@.len(),
            n == zip_validators(addresses@, powers@).len(),
            validators@ == zip_validators(addresses@, powers@).take(i as int),
        decreases n - i,
    {
        validators.push(Validator { address: addresses[i], voting_power: powers[i] });
        i = i + 1;
        assert(validators@ =~= zip_validators(addresses@, powers@).take(i as int));
    }
    assert(zip_validators(addresses@, powers@).take(n as int) =~= zip_validators(addresses@, powers@));
    validators
}

/// Converts raw contract return data into a [`ValidatorSetResult`].
pub fn parse_validators(
    addresses: Vec<Address>,
    powers: Vec<U256>,
    stake_manager: Address,
    slash_manager: Address,
    node_contract: Address,
) -> (r: ValidatorSetResult)
    ensures
        r.validators@ == zip_validators(addresses@, powers@),
        r.stake_manager == stake_manager,
        r.slash_manager == slash_manager,
        r.node_contract == node_contract,
{
    let validators = zip_with_powers(addresses, powers);
    ValidatorSetResult { validators, stake_manager, slash_manager, node_contract }
}

} // verus!

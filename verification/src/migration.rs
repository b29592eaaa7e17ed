//! Hardfork state migrations.
//!
//! At the Lausanne and Basel activation blocks upgraded system contract
//! bytecodes are deployed, keeping each account's balance and nonce. The
//! bytecodes are given as hex strings; an empty string means that no bytecode
//! has been embedded yet and nothing is deployed.

use crate::chainspec::KubChainSpec;
use crate::types::{Address, B256};
use crate::u256::{keccak256, keccak256_digest, U256};
use vstd::prelude::*;

verus! {

/// Deployed bytecode of StakeManager V2 (Lausanne), as hex without `0x`; not yet embedded.
pub const STAKE_MANAGER_V2_HEX: &'static str = "";

/// Deployed bytecode of StakeManagerStorage V2 (Lausanne); not yet embedded.
pub const STAKE_MANAGER_STORAGE_V2_HEX: &'static str = "";

/// Deployed bytecode of SlashManager V2 (Lausanne); not yet embedded.
pub const SLASH_MANAGER_V2_HEX: &'static str = "";

/// Deployed bytecode of StakeManager V3 (Basel); not yet embedded.
pub const STAKE_MANAGER_V3_HEX: &'static str = "";

/// Deployed bytecode of StakeManagerStorage V3 (Basel); not yet embedded.
pub const STAKE_MANAGER_STORAGE_V3_HEX: &'static str = "";

/// Deployed bytecode of SlashManager V3 (Basel); not yet embedded.
pub const SLASH_MANAGER_V3_HEX: &'static str = "";

/// Deployed bytecode of the NFT contract V3 (Basel); not yet embedded.
pub const NFT_CONTRACT_V3_HEX: &'static str = "";

/// Deployed bytecode of BKCValidatorSet V3 (Basel); not yet embedded.
pub const BKC_VALIDATOR_SET_V3_HEX: &'static str = "";

/// The hex decoding error of `alloy_primitives::hex`.
#[verifier::external_type_specification]
#[verifier::external_body]
pub struct ExFromHexError(alloy_primitives::hex::FromHexError);

/// Why a migration failed.
#[derive(Debug)]
pub enum MigrationError {
    /// The bytecode for `address` is not valid hex.
    InvalidBytecodeHex {
        /// Where the bytecode was to be deployed.
        address: Address,
        /// The decoding error.
        error: alloy_primitives::hex::FromHexError,
    },
}

/// The state of an account.
#[derive(Clone, Debug)]
pub struct AccountInfo {
    /// Balance.
    pub balance: U256,
    /// Nonce.
    pub nonce: u64,
    /// Hash of the code.
    pub code_hash: B256,
    /// The code, when loaded.
    pub code: Option<Vec<u8>>,
}

/// A bytecode to deploy.
#[derive(Clone, Debug)]
pub struct Deployment {
    /// Where to deploy.
    pub address: Address,
    /// The bytecode.
    pub code: Vec<u8>,
    /// Its Keccak-256 hash.
    pub code_hash: B256,
}

/// The bytes that `alloy_primitives::hex::decode` reads from the characters `s`;
/// `None` when they are not valid hex.
pub uninterp spec fn hex_decode(s: Seq<char>) -> Option<Seq<u8>>;

/// Decodes a hex string with `alloy_primitives::hex::decode`.
#[verifier::external_body]
fn decode_hex(s: &str) -> (r: Result<Vec<u8>, alloy_primitives::hex::FromHexError>)
    ensures
        match r {
            Ok(v) => hex_decode(s@) == Some(v@),
            Err(_) => hex_decode(s@) is None,
        },
{
    alloy_primitives::hex::decode(s)
}

/// The deployment of the bytecode `bytecode_hex` at `address`: nothing when the hex
/// is empty, else its decoded bytes with their Keccak-256 hash; an error when the
/// hex does not decode.
pub fn deploy_bytecode(address: Address, bytecode_hex: &str) -> (r: Result<
    Option<Deployment>,
    MigrationError,
>)
    ensures
        bytecode_hex@.len() == 0 ==> r matches Ok(None),
        bytecode_hex@.len() != 0 ==> match hex_decode(bytecode_hex@) {
            Some(code) => r matches Ok(Some(d)) && d.address == address && d.code@ == code
                && d.code_hash.bytes@ == keccak256_digest(code),
            None => r is Err,
        },
{
    if bytecode_hex.is_empty() {
        return Ok(None);
    }
    match decode_hex(bytecode_hex) {
        Ok(code) => {
            let code_hash = keccak256(code.as_slice());
            Ok(Some(Deployment { address, code, code_hash }))
        },
        Err(error) => Err(MigrationError::InvalidBytecodeHex { address, error }),
    }
}

/// The account after deploying `deployment` over `existing`: the existing balance
/// and nonce (zero for a new account) with the deployed code and its hash.
pub fn deployed_account(existing: Option<AccountInfo>, deployment: Deployment) -> (r: AccountInfo)
    ensures
        r.balance.value() == match existing {
            Some(a) => a.balance.value(),
            None => 0,
        },
        r.nonce == match existing {
            Some(a) => a.nonce,
            None => 0,
        },
        r.code_hash == deployment.code_hash,
        r.code matches Some(c) && c@ == deployment.code@,
{
    let (balance, nonce) = match existing {
        Some(a) => (a.balance, a.nonce),
        None => (U256::zero(), 0),
    };
    AccountInfo { balance, nonce, code_hash: deployment.code_hash, code: Some(deployment.code) }
}

/// The Lausanne migration: the StakeManager V2 bytecode, deployed at the validator
/// contract address. No bytecode is embedded yet, so nothing is deployed.
pub fn apply_lausanne_hardfork(chain_spec: &KubChainSpec) -> (r: Result<Vec<Deployment>, MigrationError>)
    ensures
        r matches Ok(v) && v@.len() == 0,
{
    let mut deployments: Vec<Deployment> = Vec::new();
    proof {
        reveal_strlit("");
    }
    match deploy_bytecode(chain_spec.validator_contract, STAKE_MANAGER_V2_HEX)? {
        Some(d) => deployments.push(d),
        None => {},
    }
    Ok(deployments)
}

/// The Basel migration: the BKCValidatorSet V3 bytecode, deployed at the V2 validator
/// contract address. No bytecode is embedded yet, so nothing is deployed.
pub fn apply_basel_hardfork(chain_spec: &KubChainSpec) -> (r: Result<Vec<Deployment>, MigrationError>)
    ensures
        r matches Ok(v) && v@.len() == 0,
{
    let mut deployments: Vec<Deployment> = Vec::new();
    proof {
        reveal_strlit("");
    }
    match deploy_bytecode(chain_spec.validator_contract_v2, BKC_VALIDATOR_SET_V3_HEX)? {
        Some(d) => deployments.push(d),
        None => {},
    }
    Ok(deployments)
}

} // verus!

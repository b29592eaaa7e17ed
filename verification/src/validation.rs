//! Header validation rules of KubChain PoSA consensus.

use crate::chainspec::KubChainSpec;
use crate::header::Header;
use crate::types::{Address, B256, DIFF_IN_TURN, DIFF_NO_TURN, EXTRA_SEAL, EXTRA_VANITY};
use crate::u256::U256;
use vstd::prelude::*;

verus! {

/// Why a header or block was rejected.
#[derive(Clone, Debug, PartialEq, Eq)]
pub enum ConsensusError {
    /// The extra-data is shorter than vanity plus seal.
    ExtraDataExceedsMax {
        /// Actual extra-data length.
        len: usize,
    },
    /// The difficulty is neither in-turn (2) nor out-of-turn (1).
    TheMergeDifficultyIsNotZero,
    /// The nonce is not zero (nonces are unused in PoSA).
    TheMergeNonceIsNotZero,
    /// The header used more gas than its limit.
    HeaderGasUsedExceedsGasLimit {
        /// Gas used.
        gas_used: u64,
        /// Gas limit.
        gas_limit: u64,
    },
    /// The block number is not the parent's plus one.
    ParentBlockNumberMismatch {
        /// Parent block number.
        parent_block_number: u64,
        /// Block number.
        block_number: u64,
    },
    /// The timestamp is not after the parent's.
    TimestampIsInPast {
        /// Parent timestamp.
        parent_timestamp: u64,
        /// Timestamp.
        timestamp: u64,
    },
    /// The gas limit rose from the parent's by its 1/1024 or more.
    GasLimitInvalidIncrease {
        /// Parent gas limit.
        parent_gas_limit: u64,
        /// Gas limit.
        child_gas_limit: u64,
    },
    /// The gas limit fell from the parent's by its 1/1024 or more.
    GasLimitInvalidDecrease {
        /// Parent gas limit.
        parent_gas_limit: u64,
        /// Gas limit.
        child_gas_limit: u64,
    },
    /// The gas used by the executed block differs from the header's.
    BlockGasUsed {
        /// Gas used by execution.
        got: u64,
        /// Gas used in the header.
        expected: u64,
    },
    /// The receipts root of the executed block differs from the header's.
    BodyReceiptRootDiff {
        /// Root of the receipts of execution.
        got: B256,
        /// Root in the header.
        expected: B256,
    },
    /// The logs bloom of the executed block differs from the header's.
    BodyBloomLogDiff {
        /// Bloom of the logs of execution.
        got: [u8; 256],
        /// Bloom in the header.
        expected: [u8; 256],
    },
    /// The state root after execution differs from the header's.
    BodyStateRootDiff {
        /// State root after execution.
        got: B256,
        /// Root in the header.
        expected: B256,
    },
}

/// Errors specific to KubChain PoSA consensus.
#[derive(Clone, Debug, PartialEq, Eq)]
pub enum KubConsensusError {
    /// The block's extra-data is too short (missing vanity or signature).
    ExtraDataTooShort {
        /// Actual length.
        length: usize,
        /// Minimum required length.
        minimum: usize,
    },
    /// The block's extra-data contains validator data at a non-checkpoint block.
    ExtraSignersAtNonCheckpoint {
        /// Number of unexpected extra bytes.
        extra_signers: usize,
    },
    /// Could not recover the signer from the block's extra-data signature.
    SignerRecoveryFailed,
    /// The recovered signer is not an authorised validator.
    UnauthorizedSigner {
        /// The recovered signer address.
        signer: Address,
    },
    /// The signer recently signed a block and may not sign again yet.
    RecentlySigned {
        /// The signer address.
        signer: Address,
        /// The recent block number they signed.
        recent_block: u64,
    },
    /// Invalid difficulty value for the block.
    InvalidDifficulty {
        /// Actual difficulty.
        difficulty: u64,
        /// Expected difficulty.
        expected: u64,
    },
    /// Snapshot not found for the given block.
    SnapshotNotFound {
        /// Block number where the snapshot was expected.
        block_number: u64,
    },
    /// A system contract call failed.
    SystemContractCallFailed {
        /// Reason for the failure.
        reason: String,
    },
    /// Invalid validator list in extra-data.
    InvalidValidatorList {
        /// Reason for the validation failure.
        reason: String,
    },
}

/// The outcome of validating a header on its own: the first failing check among
/// extra-data length (at least vanity plus seal), difficulty (in-turn or
/// out-of-turn), nonce (zero) and gas (used within the limit).
pub open spec fn spec_validate_header(header: Header) -> Result<(), ConsensusError> {
    let len = header.extra_data@.len();
    if len < 97 {
        Err(ConsensusError::ExtraDataExceedsMax { len: len as usize })
    } else if header.difficulty.value() != 2 && header.difficulty.value() != 1 {
        Err(ConsensusError::TheMergeDifficultyIsNotZero)
    } else if header.nonce != 0 {
        Err(ConsensusError::TheMergeNonceIsNotZero)
    } else if header.gas_used > header.gas_limit {
        Err(
            ConsensusError::HeaderGasUsedExceedsGasLimit {
                gas_used: header.gas_used,
                gas_limit: header.gas_limit,
            },
        )
    } else {
        Ok(())
    }
}

/// The outcome of validating a header against its parent: the block number must
/// follow the parent's, the timestamp must be later, and the gas limit may move
/// from the parent's by less than the parent's gas limit divided by 1024.
pub open spec fn spec_validate_header_against_parent(header: Header, parent: Header) -> Result<
    (),
    ConsensusError,
> {
    if header.number != parent.number + 1 {
        Err(
            ConsensusError::ParentBlockNumberMismatch {
                parent_block_number: parent.number,
                block_number: header.number,
            },
        )
    } else if header.timestamp <= parent.timestamp {
        Err(
            ConsensusError::TimestampIsInPast {
                parent_timestamp: parent.timestamp,
                timestamp: header.timestamp,
            },
        )
    } else if header.gas_limit >= parent.gas_limit && header.gas_limit - parent.gas_limit
        >= parent.gas_limit / 1024 {
        Err(
            ConsensusError::GasLimitInvalidIncrease {
                parent_gas_limit: parent.gas_limit,
                child_gas_limit: header.gas_limit,
            },
        )
    } else if header.gas_limit < parent.gas_limit && parent.gas_limit - header.gas_limit
        >= parent.gas_limit / 1024 {
        Err(
            ConsensusError::GasLimitInvalidDecrease {
                parent_gas_limit: parent.gas_limit,
                child_gas_limit: header.gas_limit,
            },
        )
    } else {
        Ok(())
    }
}

/// Whether the 256-bit integer `a` equals the 64-bit `v`.
fn u256_equals(a: U256, v: u64) -> (r: bool)
    ensures
        r == (a.value() == v),
{
    proof {
        let p = crate::u256::pow64();
        let l0 = a.limbs@[0] as nat;
        let inner = a.limbs@[1] as nat + p * (a.limbs@[2] as nat + p * (a.limbs@[3] as nat));
        assert(a.value() == l0 + p * inner);
        if a.limbs@[1] != 0 || a.limbs@[2] != 0 || a.limbs@[3] != 0 {
            assert(inner >= 1) by (nonlinear_arith)
                requires
                    inner == a.limbs@[1] as nat + p * (a.limbs@[2] as nat + p * (a.limbs@[3] as nat)),
                    a.limbs@[1] != 0 || a.limbs@[2] != 0 || a.limbs@[3] != 0,
                    p > 0,
            ;
            assert(p * inner >= p) by (nonlinear_arith)
                requires
                    inner >= 1,
                    p > 0,
            ;
        } else {
            assert(inner == 0);
        }
    }
    a.limbs[0] == v && a.limbs[1] == 0 && a.limbs[2] == 0 && a.limbs[3] == 0
}

/// Validates a header in isolation: extra-data length, difficulty, nonce and gas usage.
pub fn validate_header(header: &Header, _chain_spec: &KubChainSpec) -> (r: Result<(), ConsensusError>)
    ensures
        r == spec_validate_header(*header),
{
    let extra_len = header.extra_data.len();
    let min_extra = EXTRA_VANITY + EXTRA_SEAL;
    if extra_len < min_extra {
        return Err(ConsensusError::ExtraDataExceedsMax { len: extra_len });
    }
    if !u256_equals(header.difficulty, DIFF_IN_TURN) && !u256_equals(header.difficulty, DIFF_NO_TURN) {
        return Err(ConsensusError::TheMergeDifficultyIsNotZero);
    }
    if header.nonce != 0 {
        return Err(ConsensusError::TheMergeNonceIsNotZero);
    }
    if header.gas_used > header.gas_limit {
        return Err(
            ConsensusError::HeaderGasUsedExceedsGasLimit {
                gas_used: header.gas_used,
                gas_limit: header.gas_limit,
            },
        );
    }
    Ok(())
}

/// Validates a header against its parent: block number, timestamp and gas limit.
pub fn validate_header_against_parent(
    header: &Header,
    parent: &Header,
    _chain_spec: &KubChainSpec,
) -> (r: Result<(), ConsensusError>)
    requires
        parent.number < u64::MAX,
    ensures
        r == spec_validate_header_against_parent(*header, *parent),
{
    if header.number != parent.number + 1 {
        return Err(
            ConsensusError::ParentBlockNumberMismatch {
                parent_block_number: parent.number,
                block_number: header.number,
            },
        );
    }
    if header.timestamp <= parent.timestamp {
        return Err(
            ConsensusError::TimestampIsInPast {
                parent_timestamp: parent.timestamp,
                timestamp: header.timestamp,
            },
        );
    }
    let bound = parent.gas_limit / 1024;
    if header.gas_limit >= parent.gas_limit {
        if header.gas_limit - parent.gas_limit >= bound {
            return Err(
                ConsensusError::GasLimitInvalidIncrease {
                    parent_gas_limit: parent.gas_limit,
                    child_gas_limit: header.gas_limit,
                },
            );
        }
    } else if parent.gas_limit - header.gas_limit >= bound {
        return Err(
            ConsensusError::GasLimitInvalidDecrease {
                parent_gas_limit: parent.gas_limit,
                child_gas_limit: header.gas_limit,
            },
        );
    }
    Ok(())
}

/// Validates a block before execution: its header must pass [`validate_header`].
pub fn validate_block_pre_execution(header: &Header, chain_spec: &KubChainSpec) -> (r: Result<
    (),
    ConsensusError,
>)
    ensures
        r == spec_validate_header(*header),
{
    validate_header(header, chain_spec)?;
    Ok(())
}

/// The outcome of validating a block after execution: the gas used, the receipts
/// root, the logs bloom and the state root of the execution must equal the header's,
/// checked in that order.
pub open spec fn spec_validate_block_post_execution(
    header: Header,
    gas_used: u64,
    receipts_root: B256,
    logs_bloom: [u8; 256],
    state_root: B256,
) -> Result<(), ConsensusError> {
    if gas_used != header.gas_used {
        Err(ConsensusError::BlockGasUsed { got: gas_used, expected: header.gas_used })
    } else if receipts_root.bytes@ != header.receipts_root.bytes@ {
        Err(ConsensusError::BodyReceiptRootDiff { got: receipts_root, expected: header.receipts_root })
    } else if logs_bloom@ != header.logs_bloom@ {
        Err(ConsensusError::BodyBloomLogDiff { got: logs_bloom, expected: header.logs_bloom })
    } else if state_root.bytes@ != header.state_root.bytes@ {
        Err(ConsensusError::BodyStateRootDiff { got: state_root, expected: header.state_root })
    } else {
        Ok(())
    }
}

/// Whether two byte arrays of length 256 are equal.
fn blooms_equal(a: &[u8; 256], b: &[u8; 256]) -> (r: bool)
    ensures
        r == (a@ == b@),
{
    let mut i: usize = 0;
    while i < 256
        invariant
            i <= 256,
            forall|j: int| 0 <= j < i ==> a@[j] == b@[j],
        decreases 256 - i,
    {
        if a[i] != b[i] {
            return false;
        }
        i = i + 1;
    }
    assert(a@ =~= b@);
    true
}

/// Validates a block after execution against its header. `gas_used` is the gas the
/// execution used; `receipts_root` and `logs_bloom` are those of its receipts, and
/// `state_root` is the root of the state it left.
pub fn validate_block_post_execution(
    header: &Header,
    gas_used: u64,
    receipts_root: B256,
    logs_bloom: &[u8; 256],
    state_root: B256,
    _chain_spec: &KubChainSpec,
) -> (r: Result<(), ConsensusError>)
    ensures
        r == spec_validate_block_post_execution(*header, gas_used, receipts_root, *logs_bloom, state_root),
{
    if gas_used != header.gas_used {
        return Err(ConsensusError::BlockGasUsed { got: gas_used, expected: header.gas_used });
    }
    if receipts_root != header.receipts_root {
        return Err(
            ConsensusError::BodyReceiptRootDiff { got: receipts_root, expected: header.receipts_root },
        );
    }
    if !blooms_equal(logs_bloom, &header.logs_bloom) {
        return Err(ConsensusError::BodyBloomLogDiff { got: *logs_bloom, expected: header.logs_bloom });
    }
    if state_root != header.state_root {
        return Err(ConsensusError::BodyStateRootDiff { got: state_root, expected: header.state_root });
    }
    Ok(())
}

/// A header is valid on its own exactly when its extra-data holds at least vanity and
/// seal (97 bytes), its difficulty is in-turn (2) or out-of-turn (1), its nonce is
/// zero, and it used no more gas than its limit.
pub proof fn lemma_header_valid_iff(header: Header)
    ensures
        spec_validate_header(header) is Ok <==> (header.extra_data@.len() >= 97
            && (header.difficulty.value() == 1 || header.difficulty.value() == 2)
            && header.nonce == 0 && header.gas_used <= header.gas_limit),
{
}

/// A header is valid against its parent exactly when its number is the parent's plus
/// one, its timestamp is later than the parent's, and its gas limit differs from the
/// parent's by less than the parent's gas limit divided by 1024.
pub proof fn lemma_header_against_parent_valid_iff(header: Header, parent: Header)
    ensures
        spec_validate_header_against_parent(header, parent) is Ok <==> (header.number
            == parent.number + 1 && header.timestamp > parent.timestamp && (if header.gas_limit
            >= parent.gas_limit {
            header.gas_limit - parent.gas_limit
        } else {
            parent.gas_limit - header.gas_limit
        }) < parent.gas_limit / 1024),
{
}

/// A block is accepted after execution exactly when its execution used the header's
/// gas and produced the header's receipts root, logs bloom and state root.
pub proof fn lemma_post_execution_valid_iff(
    header: Header,
    gas_used: u64,
    receipts_root: B256,
    logs_bloom: [u8; 256],
    state_root: B256,
)
    ensures
        spec_validate_block_post_execution(header, gas_used, receipts_root, logs_bloom, state_root)
            is Ok <==> (gas_used == header.gas_used && receipts_root.bytes@
            == header.receipts_root.bytes@ && logs_bloom@ == header.logs_bloom@ && state_root.bytes@
            == header.state_root.bytes@),
{
}

} // verus!

//! Verified core of the KubChain Proof-of-Staked-Authority consensus and block
//! execution: span arithmetic, header extra-data codec, validator snapshots,
//! weighted validator selection, hardfork schedules, header validation rules,
//! the EVM environment of each block, and the system calls that finish a block.

pub mod types;
pub mod u256;
pub mod validator;
pub mod extra_data;
pub mod snapshot;
pub mod hardforks;
pub mod header;
pub mod chainspec;
pub mod config;
pub mod validation;
pub mod evm;
pub mod execute;
pub mod system_tx;
pub mod rlp;
pub mod seal;
pub mod contracts;
pub mod caller;
pub mod migration;
pub mod consensus;

# kubchain

The consensus and block-execution rules of KubChain (Bitkub Chain), a
Proof-of-Staked-Authority chain built on Clique, written in Verus and proved
against their specifications.

## Layout

- `src/` — the verified library
  - `types.rs`, `u256.rs`, `header.rs` — addresses, hashes, 256-bit integers,
    span arithmetic, headers
  - `hardforks.rs`, `chainspec.rs`, `config.rs` — fork schedules, the chain
    specification, EIP-1559 base fees, the EVM specification (capped at London)
  - `extra_data.rs` — the header extra-data codec (vanity, validators, system
    contracts, seal)
  - `snapshot.rs` — validator snapshots and the recent-signer window
  - `validator.rs` — weighted random selection of the next span's validators
  - `seal.rs` — the seal hash of a header and the signer recovered from its seal
  - `validation.rs`, `consensus.rs` — header and post-execution validation, and the
    consensus engine
  - `evm.rs`, `execute.rs` — the EVM environment of each block, gas accounting,
    receipts, and the dialogue of system calls that finishes a block
  - `system_tx.rs`, `rlp.rs` — calldata of the system calls, RLP of the committed
    validator set
  - `contracts.rs`, `caller.rs` — decoding the answers of system contract queries
  - `migration.rs` — the Lausanne and Basel bytecode deployments
- `tests/` — tests of the library
- `app/` — the binary: command line, genesis files, and the driver that runs a
  block through the executor against an EVM

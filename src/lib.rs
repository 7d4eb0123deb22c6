//! A minimal contract with three entry points: `instantiate`, `execute` and
//! `query`. Each is a pure function of its payload; the host runtime owns
//! storage, the environment and the caller's metadata, none of which the
//! logic reads.

pub mod contract;
pub mod host;

pub use contract::{
    execute, execute_decoded, execute_idempotent, instantiate, query, ContractError,
};

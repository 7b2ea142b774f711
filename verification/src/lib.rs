//! State and one-time initialization of a two-asset liquidity pool.
//!
//! A [`Pair`] holds the three records of one pool: its identity and reserves,
//! its fee bounds and its reentrancy guard. [`Pair::initialize`] creates them,
//! once, after checking the addresses it is given, and keeps the two tokens
//! in the canonical order of [`Address`]. The readers hand the records out.
//!
//! A `Pair` is a plain value. A contract that keeps a pool in the instance
//! storage of its host reads the records into a `Pair`, calls the operation,
//! and writes the records back. Addresses are plain values as well, kind and
//! key, ordered as the host orders them; only the zero address is fetched
//! from the host, which decodes it from [`ZERO_ADDRESS_STRKEY`].

pub mod address;
pub mod errors;
pub mod host;
pub mod pair;
pub mod storage;

pub use address::{Address, AddressKind};
pub use errors::PairError;
pub use host::{is_zero_address, zero_address, ZERO_ADDRESS_STRKEY};
pub use pair::{sort_tokens, Pair, INSTANCE_TTL_LEDGERS};
pub use storage::{DataKey, FeeState, PairStorage, ReentrancyGuard};

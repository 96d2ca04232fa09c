//! Payment channels on Soroban (Stellar) for a funder who may hold nothing but
//! an EVM wallet key, as verified state machines.
//!
//! - [`channel`]: a unidirectional payment channel, and in [`channel::laws`]
//!   what holds of one whatever is done to it.
//! - [`account`]: an account that an EVM wallet controls.
//! - [`account_factory`] and [`channel_factory`]: the contracts that deploy the
//!   two.
//! - [`host`]: what the contracts know of the network they run on.
//! - [`platform`]: the hash functions, signature schemes, serialisation and
//!   addressing that they rely on, with what is taken for granted of them.
//!
//! A contract function takes an invocation, which holds what the contract's
//! storage contains, and lists in it the actions that the host is to perform.
//! Its contract says which they are, in which order, and what the storage is
//! afterwards.

pub mod account;
pub mod account_factory;
pub mod channel;
pub mod channel_factory;
pub mod host;
pub mod platform;

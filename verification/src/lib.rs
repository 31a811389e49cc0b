//! A bonding-curve launch program for tokens: a configuration, token
//! creation and minting into a vault, fixed-price buys and sells against the
//! vault until a SOL target is met, and the withdrawal of a completed vault.
//! Each instruction is a verified function from the values it reads of its
//! accounts to its result, the account data it writes, and the lamport and
//! token movements that the runtime is to carry out.

pub mod constants;
pub mod effects;
pub mod error;
pub mod event;
pub mod instructions;
pub mod laws;
pub mod program;
pub mod state;
pub mod trading_laws;
pub mod utils;

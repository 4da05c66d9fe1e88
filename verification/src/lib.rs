//! A revenue-sharing ledger program: one pool of tokens, split between a fixed
//! set of members by basis-point shares.
//!
//! The crate holds the three parts on which the safety of the pool rests:
//!
//! * [`state`]: the fixed-layout binary encoding of the distributor state;
//! * [`instruction`]: the decoder that turns request bytes into a command;
//! * [`processor`]: the initialization and withdrawal protocols, which check
//!   their preconditions in a fixed order and say which calls to the token
//!   program the host has to issue.
//!
//! Everything here works on plain values. The host program converts the
//! accounts of a call into [`processor::Account`] values, hands them to
//! [`processor::Processor::process`], and carries out the returned
//! [`processor::Effects`].
pub mod address;
pub mod distribution;
pub mod error;
pub mod instruction;
pub mod processor;
pub mod state;
pub mod token;

pub use error::RoyaltyDistributorError;

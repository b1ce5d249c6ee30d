//! A verified settlement and accounting engine for a two-mode on-chain
//! wagering protocol: a house-backed market whose payouts are underwritten
//! by a pooled liquidity vault, and a parimutuel market that splits a pot
//! by weighted accuracy, both layered with a commit-reveal scheme that
//! keeps predictions private until after placement.
//!
//! The engine is pure accounting: oracles, token transfers, keyed storage
//! and permission records are outside collaborators, and every function
//! here takes their answers as plain values and returns the transfers to
//! perform. The contracts state, per operation, exactly which inputs
//! succeed, what every field becomes, and what each failure leaves
//! untouched; `solvency` states and proves the protocol-level laws on top
//! of them.
//!
//! - [`state`] holds the entities: configuration, vault, markets, bets.
//! - [`infinite_math`] and [`fixed_math`] are the scoring and share math.
//! - [`commitment`] is the keccak commit-reveal encoding.
//! - [`infinite_market`], [`fixed_market`] and [`pool`] are the market
//!   operations; [`shared`] the bet lifecycle; [`settlement`] the shared
//!   settlement engine; [`batch`] the forced batch drivers.
//! - [`admin`] is the configuration surface and [`oracle`] the numeric
//!   contract required of price feeds.

pub mod admin;
pub mod batch;
pub mod commitment;
pub mod errors;
pub mod fixed_market;
pub mod fixed_math;
pub mod infinite_math;
pub mod infinite_market;
pub mod oracle;
pub mod pool;
pub mod settlement;
pub mod shared;
pub mod solvency;
pub mod state;

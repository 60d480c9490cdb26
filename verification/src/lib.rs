//! A two-outcome prediction market: participants stake value on one of two
//! options, an automated market maker recomputes implied odds from the staked
//! amounts, an authority settles or cancels the market after its deadline, and
//! winners withdraw payouts net of a platform fee from a pooled escrow.
//!
//! This crate is the market core alone: the state machines for markets and
//! positions, the odds engine, and the escrow accounting. Loading and storing
//! entities, moving currency, reading the clock and delivering events are the
//! surrounding runtime's business; every operation here is a pure transition
//! from loaded state and caller-supplied inputs to new state, fund-movement
//! amounts and an event.

use vstd::prelude::*;

pub mod bid;
pub mod bytes;
pub mod errors;
pub mod escrow;
pub mod events;
pub mod ids;
pub mod laws;
pub mod odds;
pub mod ops;
pub mod poll;

verus! {

/// Platform fee charged on winning payouts, in basis points.
pub const PLATFORM_FEE_BPS: u64 = 200;

/// Number of basis points in the whole: 10000 bps = 100%.
pub const BPS_DENOMINATOR: u64 = 10_000;

/// Smallest currency units per whole base unit.
pub const LAMPORTS_PER_SOL: u64 = 1_000_000_000;

/// Smallest stake a position may carry (0.01 of the base unit).
pub const MIN_BET_AMOUNT: u64 = LAMPORTS_PER_SOL / 100;

/// Largest stake a position may carry (100 of the base unit).
pub const MAX_BET_AMOUNT: u64 = LAMPORTS_PER_SOL * 100;

/// Floor on either side's odds: 5%.
pub const MIN_ODDS_BPS: u64 = 500;

/// Ceiling on either side's odds: 95%.
pub const MAX_ODDS_BPS: u64 = 9_500;

/// Odds of both sides of a market with an empty pool: 50%.
pub const INITIAL_ODDS_BPS: u64 = 5_000;

/// Longest accepted market identifier, in bytes.
pub const MAX_POLL_ID_LEN: usize = 64;

/// Longest accepted market title, in bytes.
pub const MAX_TITLE_LEN: usize = 256;

/// Longest accepted option label, in bytes.
pub const MAX_OPTION_TEXT_LEN: usize = 128;

} // verus!

//! The six domain events. Each successful operation returns one; delivering
//! it is the surrounding runtime's business.

use vstd::prelude::*;

use crate::bid::BidOption;
use crate::ids::AccountId;

verus! {

/// A market was created.
#[derive(Debug)]
pub struct PollCreated {
    pub authority: AccountId,
    pub poll_id: Vec<u8>,
    pub title: Vec<u8>,
    pub end_timestamp: i64,
}

/// A position was accepted; `odds` are the backed option's odds before the
/// stake moved them.
#[derive(Debug)]
pub struct BidPlaced {
    pub bettor: AccountId,
    pub amount: u64,
    pub option: BidOption,
    pub odds: u64,
    pub potential_win: u64,
}

/// A market was settled with `winner`, its pool final.
#[derive(Debug)]
pub struct PollSettled {
    pub winner: BidOption,
    pub total_pool: u64,
}

/// A winning position was paid out: `payout` to the bettor, `platform_fee`
/// to the treasury, both out of the market's escrow.
#[derive(Debug)]
pub struct WinningsClaimed {
    pub bettor: AccountId,
    pub payout: u64,
    pub platform_fee: u64,
}

/// A market was cancelled while holding `total_pool` in escrow.
#[derive(Debug)]
pub struct PollCancelled {
    pub total_pool: u64,
}

/// A position's original stake was released back to its bettor.
#[derive(Debug)]
pub struct RefundClaimed {
    pub bettor: AccountId,
    pub amount: u64,
}

} // verus!

//! The market entity and its well-formedness invariant. A market is created
//! `Active` and ends `Settled` or `Cancelled`, each terminal; its stake
//! totals, odds and position counter are mutated only by the operations in
//! [`crate::ops`].

use vstd::prelude::*;

use crate::bid::BidOption;
use crate::ids::AccountId;
use crate::odds::odds_of;
use crate::odds::recompute_odds;
use crate::MAX_OPTION_TEXT_LEN;
use crate::MAX_POLL_ID_LEN;
use crate::MAX_TITLE_LEN;

verus! {

/// A market's lifecycle state. `Settled` and `Cancelled` are terminal.
#[derive(Clone, Copy, Debug, PartialEq, Eq, Structural)]
pub enum PollStatus {
    Active,
    Settled,
    Cancelled,
}

/// One prediction market: a question with two options, a pooled escrow of
/// stakes on each, odds implied by those stakes, and an authority that may
/// settle or cancel it.
#[derive(Debug)]
pub struct Poll {
    /// The identity permitted to settle or cancel the market.
    pub authority: AccountId,
    /// Stable identifier, at most [`MAX_POLL_ID_LEN`] bytes.
    pub poll_id: Vec<u8>,
    /// Descriptive title, at most [`MAX_TITLE_LEN`] bytes; immutable.
    pub title: Vec<u8>,
    /// Label of option A, at most [`MAX_OPTION_TEXT_LEN`] bytes; immutable.
    pub option_a_text: Vec<u8>,
    /// Label of option B, at most [`MAX_OPTION_TEXT_LEN`] bytes; immutable.
    pub option_b_text: Vec<u8>,
    /// Total staked on option A, in smallest currency units.
    pub option_a_stake: u64,
    /// Total staked on option B, in smallest currency units.
    pub option_b_stake: u64,
    /// Everything staked on the market; always the two stakes' sum.
    pub total_pool: u64,
    /// Option A's odds in basis points; never stale against the stakes.
    pub option_a_odds: u64,
    /// Option B's odds in basis points; never stale against the stakes.
    pub option_b_odds: u64,
    /// Exclusive upper bound on the time at which positions are accepted.
    pub end_timestamp: i64,
    /// Where the market stands in its lifecycle.
    pub status: PollStatus,
    /// The winning option; present exactly while the market is settled.
    pub winner: Option<BidOption>,
    /// Derivation nonce of the market's escrow account, kept for the
    /// substrate.
    pub vault_bump: u8,
    /// Derivation nonce of the market's own account, kept for the substrate.
    pub bump: u8,
    /// The next unused position index; grows by one per accepted position.
    pub next_bid_index: u64,
}

impl Poll {
    /// The market invariant: funds are conserved (the pool is the stakes'
    /// sum), the odds are exactly what the current stakes imply, the
    /// descriptive fields respect the creation-time length limits, and a
    /// winner is recorded exactly while the market is settled.
    pub open spec fn wf(self) -> bool {
        &&& self.total_pool == self.option_a_stake + self.option_b_stake
        &&& self.option_a_odds == odds_of(self.option_a_stake, self.option_b_stake)
        &&& self.option_b_odds == odds_of(self.option_b_stake, self.option_a_stake)
        &&& self.poll_id@.len() <= MAX_POLL_ID_LEN
        &&& self.title@.len() <= MAX_TITLE_LEN
        &&& self.option_a_text@.len() <= MAX_OPTION_TEXT_LEN
        &&& self.option_b_text@.len() <= MAX_OPTION_TEXT_LEN
        &&& (self.winner is Some <==> self.status == PollStatus::Settled)
    }

    /// Checks the market invariant on a concrete value, for callers outside
    /// verified code that must establish it before invoking an operation.
    pub fn is_well_formed(&self) -> (r: bool)
        ensures
            r == self.wf(),
    {
        if self.option_b_stake > u64::MAX - self.option_a_stake {
            // The pool, a u64, cannot equal a sum beyond u64.
            return false;
        }
        let sum = self.option_a_stake + self.option_b_stake;
        let is_settled = match self.status {
            PollStatus::Settled => true,
            PollStatus::Active => false,
            PollStatus::Cancelled => false,
        };
        self.total_pool == sum && self.option_a_odds == recompute_odds(
            self.option_a_stake,
            self.option_b_stake,
        ) && self.option_b_odds == recompute_odds(self.option_b_stake, self.option_a_stake)
            && self.poll_id.len() <= MAX_POLL_ID_LEN && self.title.len() <= MAX_TITLE_LEN
            && self.option_a_text.len() <= MAX_OPTION_TEXT_LEN && self.option_b_text.len()
            <= MAX_OPTION_TEXT_LEN && self.winner.is_some() == is_settled
    }
}

} // verus!

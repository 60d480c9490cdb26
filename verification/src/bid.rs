//! One participant's position on one option of one market, with its economic
//! terms frozen at creation and a one-shot claim lifecycle.

use vstd::prelude::*;

use crate::ids::AccountId;

verus! {

/// The two outcomes of a market a position can back.
#[derive(Clone, Copy, Debug, PartialEq, Eq, Structural)]
pub enum BidOption {
    OptionA,
    OptionB,
}

/// A position's lifecycle. It starts `Active`; claiming winnings moves it to
/// `Won` and claiming a refund to `Refunded`, each exactly once. No operation
/// produces `Lost`: a losing position stays `Active` with nothing claimable,
/// a known gap kept as the market behaves today.
#[derive(Clone, Copy, Debug, PartialEq, Eq, Structural)]
pub enum BidStatus {
    Active,
    Won,
    Lost,
    Refunded,
}

/// One accepted stake. Everything but `status` is frozen when the position
/// is created.
#[derive(Debug)]
pub struct Bid {
    /// The participant who staked and who alone may claim.
    pub bettor: AccountId,
    /// The identifier of the market the position belongs to.
    pub poll: Vec<u8>,
    /// The staked amount, in smallest currency units.
    pub amount: u64,
    /// The option the stake backs.
    pub option: BidOption,
    /// The backed option's odds at the moment the position was accepted,
    /// in basis points.
    pub odds_at_purchase: u64,
    /// `floor(amount * BPS_DENOMINATOR / odds_at_purchase)`: what the
    /// position pays before the fee if its option wins.
    pub potential_win: u64,
    /// Where the position stands in its one-shot claim lifecycle.
    pub status: BidStatus,
    /// Caller-supplied creation time, advisory only.
    pub timestamp: i64,
    /// The position's index within its market, assigned at creation.
    pub index: u64,
    /// Derivation nonce of the position's own account, kept for the substrate.
    pub bump: u8,
}

} // verus!

//! The odds engine: a pure function from the current stake distribution to
//! implied odds in basis points, clamped away from all-or-nothing extremes.
//! Each call recomputes from the totals alone, so odds can never go stale.

use vstd::prelude::*;

use crate::poll::Poll;
use crate::BPS_DENOMINATOR;
use crate::INITIAL_ODDS_BPS;
use crate::MAX_ODDS_BPS;
use crate::MIN_ODDS_BPS;
use vstd::arithmetic::mul::lemma_mul_inequality;

verus! {

/// `p` pulled into `[MIN_ODDS_BPS, MAX_ODDS_BPS]`.
pub open spec fn clamped_bps(p: int) -> int {
    if p < MIN_ODDS_BPS {
        MIN_ODDS_BPS as int
    } else if p > MAX_ODDS_BPS {
        MAX_ODDS_BPS as int
    } else {
        p
    }
}

/// The odds of the side holding `stake` against the side holding
/// `other_stake`: the side's rounded-down share of the pool in basis points,
/// clamped; an even split when the pool is empty.
pub open spec fn odds_of(stake: u64, other_stake: u64) -> int {
    if stake + other_stake == 0 {
        INITIAL_ODDS_BPS as int
    } else {
        clamped_bps(stake * BPS_DENOMINATOR / (stake + other_stake))
    }
}

/// Odds bounds law: whatever the stake distribution, a side's odds stay in
/// `[MIN_ODDS_BPS, MAX_ODDS_BPS]`, and an empty pool prices both sides even.
pub proof fn lemma_odds_bounds(stake: u64, other_stake: u64)
    ensures
        MIN_ODDS_BPS <= odds_of(stake, other_stake) <= MAX_ODDS_BPS,
        stake == 0 && other_stake == 0 ==> odds_of(stake, other_stake) == INITIAL_ODDS_BPS,
{
}

/// Clamps a raw basis-point share into the accepted odds range.
fn clamp_bps(p: u128) -> (r: u64)
    ensures
        r == clamped_bps(p as int),
{
    if p < MIN_ODDS_BPS as u128 {
        MIN_ODDS_BPS
    } else if p > MAX_ODDS_BPS as u128 {
        MAX_ODDS_BPS
    } else {
        p as u64
    }
}

/// Computes one side's odds from the two stakes: the rounded-down
/// basis-point share of the pool, clamped; an even split on an empty pool.
pub fn recompute_odds(stake: u64, other_stake: u64) -> (r: u64)
    requires
        stake + other_stake <= u64::MAX,
    ensures
        r == odds_of(stake, other_stake),
{
    let total = stake + other_stake;
    if total == 0 {
        INITIAL_ODDS_BPS
    } else {
        proof {
            lemma_mul_inequality(stake as int, u64::MAX as int, BPS_DENOMINATOR as int);
        }
        clamp_bps((stake as u128) * (BPS_DENOMINATOR as u128) / (total as u128))
    }
}

/// Recomputes both sides' odds from the market's current stakes, leaving
/// every other field as it was.
pub fn update_amm_odds(poll: &mut Poll)
    requires
        old(poll).total_pool == old(poll).option_a_stake + old(poll).option_b_stake,
    ensures
        *final(poll) == (Poll {
            option_a_odds: odds_of(old(poll).option_a_stake, old(poll).option_b_stake) as u64,
            option_b_odds: odds_of(old(poll).option_b_stake, old(poll).option_a_stake) as u64,
            ..*old(poll)
        }),
{
    proof {
        lemma_odds_bounds(poll.option_a_stake, poll.option_b_stake);
        lemma_odds_bounds(poll.option_b_stake, poll.option_a_stake);
    }
    poll.option_a_odds = recompute_odds(poll.option_a_stake, poll.option_b_stake);
    poll.option_b_odds = recompute_odds(poll.option_b_stake, poll.option_a_stake);
}

} // verus!

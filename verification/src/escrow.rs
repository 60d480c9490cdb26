//! Escrow accounting: how a potential payout splits into the winner's share
//! and the platform's fee. The fee is computed first, rounded down, and the
//! winner receives the exact remainder, so no value leaks in the split.

use vstd::prelude::*;

use crate::BPS_DENOMINATOR;
use crate::PLATFORM_FEE_BPS;
use vstd::arithmetic::div_mod::lemma_div_is_ordered;
use vstd::arithmetic::div_mod::lemma_div_multiples_vanish;
use vstd::arithmetic::div_mod::lemma_div_pos_is_pos;
use vstd::arithmetic::mul::lemma_mul_inequality;

verus! {

/// The fee taken from a potential payout of `potential_win` at `fee_bps`
/// basis points, rounded down.
pub open spec fn fee_amount_of(potential_win: u64, fee_bps: u64) -> int {
    potential_win * fee_bps / (BPS_DENOMINATOR as int)
}

/// What remains of `potential_win` for the winner once the fee is taken.
pub open spec fn winner_amount_of(potential_win: u64, fee_bps: u64) -> int {
    potential_win - fee_amount_of(potential_win, fee_bps)
}

/// The fee never exceeds the amount it is taken from, as long as the rate is
/// at most the whole.
pub proof fn lemma_fee_within_amount(potential_win: u64, fee_bps: u64)
    requires
        fee_bps <= BPS_DENOMINATOR,
    ensures
        0 <= fee_amount_of(potential_win, fee_bps) <= potential_win,
{
    lemma_div_pos_is_pos(potential_win * fee_bps, BPS_DENOMINATOR as int);
    lemma_mul_inequality(fee_bps as int, BPS_DENOMINATOR as int, potential_win as int);
    lemma_div_is_ordered(
        potential_win * fee_bps,
        potential_win * (BPS_DENOMINATOR as int),
        BPS_DENOMINATOR as int,
    );
    lemma_div_multiples_vanish(potential_win as int, BPS_DENOMINATOR as int);
}

/// Payout split exactness: however a potential payout is split at the
/// platform rate, the winner's share and the fee add back to the whole, and
/// the fee is exactly the rounded-down basis-point fraction.
pub proof fn lemma_payout_split_exact(potential_win: u64)
    ensures
        winner_amount_of(potential_win, PLATFORM_FEE_BPS) + fee_amount_of(
            potential_win,
            PLATFORM_FEE_BPS,
        ) == potential_win,
        fee_amount_of(potential_win, PLATFORM_FEE_BPS) == potential_win * PLATFORM_FEE_BPS / (
        BPS_DENOMINATOR as int),
        0 <= fee_amount_of(potential_win, PLATFORM_FEE_BPS) <= potential_win,
{
    lemma_fee_within_amount(potential_win, PLATFORM_FEE_BPS);
}

/// Splits a potential payout into `(winner_amount, fee_amount)`. The fee is
/// `floor(potential_win * fee_bps / BPS_DENOMINATOR)`; the winner's share is
/// the exact remainder, so the two always add back to `potential_win`.
pub fn payout_split(potential_win: u64, fee_bps: u64) -> (r: (u64, u64))
    requires
        fee_bps <= BPS_DENOMINATOR,
    ensures
        r.0 == winner_amount_of(potential_win, fee_bps),
        r.1 == fee_amount_of(potential_win, fee_bps),
        r.0 + r.1 == potential_win,
{
    proof {
        lemma_fee_within_amount(potential_win, fee_bps);
    }
    let fee128: u128 = (potential_win as u128) * (fee_bps as u128) / (BPS_DENOMINATOR as u128);
    let fee: u64 = fee128 as u64;
    let winner: u64 = potential_win - fee;
    (winner, fee)
}

} // verus!

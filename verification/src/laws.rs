//! Laws that hold across several operations and across whole runs of a
//! market: claims are one-shot, funds are conserved over any sequence of
//! accepted placements, and accepted position indices count up without gaps.

use vstd::prelude::*;

use crate::bid::Bid;
use crate::bid::BidOption;
use crate::bid::BidStatus;
use crate::errors::ErrorCode;
use crate::ids::AccountId;
use crate::odds::lemma_odds_bounds;
use crate::ops::claim_refund_check;
use crate::ops::claim_winnings_check;
use crate::ops::place_bid_check;
use crate::ops::place_bid_update;
use crate::poll::Poll;
use crate::poll::PollStatus;

verus! {

/// Sum of the staked amounts of a sequence of placement requests.
pub open spec fn amounts_total(reqs: Seq<(u64, BidOption)>) -> int
    decreases reqs.len(),
{
    if reqs.len() == 0 {
        0
    } else {
        reqs[0].0 + amounts_total(reqs.drop_first())
    }
}

/// The market after accepting each placement of `reqs` in order.
pub open spec fn place_all(poll: Poll, reqs: Seq<(u64, BidOption)>) -> Poll
    decreases reqs.len(),
{
    if reqs.len() == 0 {
        poll
    } else {
        place_all(place_bid_update(poll, reqs[0].0, reqs[0].1), reqs.drop_first())
    }
}

/// Every placement of `reqs`, made in order at time `now` and each claiming
/// the market's next index — the only index [`place_bid_check`] accepts — is
/// accepted.
pub open spec fn all_accepted(poll: Poll, reqs: Seq<(u64, BidOption)>, now: i64) -> bool
    decreases reqs.len(),
{
    reqs.len() == 0 || ({
        &&& place_bid_check(poll, reqs[0].0, poll.next_bid_index, now) is None
        &&& all_accepted(place_bid_update(poll, reqs[0].0, reqs[0].1), reqs.drop_first(), now)
    })
}

/// One accepted placement preserves the market invariant and grows the pool
/// and the position counter by exactly that placement.
pub proof fn lemma_place_bid_update_wf(poll: Poll, amount: u64, option: BidOption, now: i64)
    requires
        poll.wf(),
        place_bid_check(poll, amount, poll.next_bid_index, now) is None,
    ensures
        place_bid_update(poll, amount, option).wf(),
        place_bid_update(poll, amount, option).total_pool == poll.total_pool + amount,
        place_bid_update(poll, amount, option).next_bid_index == poll.next_bid_index + 1,
{
    let updated = place_bid_update(poll, amount, option);
    lemma_odds_bounds(updated.option_a_stake, updated.option_b_stake);
    lemma_odds_bounds(updated.option_b_stake, updated.option_a_stake);
}

/// A prefix of a run of accepted placements is itself a run of accepted
/// placements, so the laws below hold at every intermediate point of a run,
/// not only at its end.
pub proof fn lemma_all_accepted_prefix(poll: Poll, reqs: Seq<(u64, BidOption)>, now: i64, i: int)
    requires
        all_accepted(poll, reqs, now),
        0 <= i <= reqs.len(),
    ensures
        all_accepted(poll, reqs.take(i), now),
    decreases reqs.len(),
{
    if i == 0 {
        assert(reqs.take(0) =~= Seq::<(u64, BidOption)>::empty());
    } else {
        let upd = place_bid_update(poll, reqs[0].0, reqs[0].1);
        lemma_all_accepted_prefix(upd, reqs.drop_first(), now, i - 1);
        let t = reqs.take(i);
        assert(t[0] == reqs[0]);
        assert(t.drop_first() =~= reqs.drop_first().take(i - 1));
    }
}

/// Conservation law: over any sequence of accepted placements, the pool
/// grows by exactly the amounts placed and stays the exact sum of the two
/// sides' stakes — and since each accepted placement creates exactly one
/// position carrying its amount, the pool is the sum of the staked amounts
/// of the positions created. Through [`lemma_all_accepted_prefix`] the same
/// holds after every prefix of the run.
pub proof fn lemma_conservation(poll: Poll, reqs: Seq<(u64, BidOption)>, now: i64)
    requires
        poll.wf(),
        all_accepted(poll, reqs, now),
    ensures
        place_all(poll, reqs).wf(),
        place_all(poll, reqs).total_pool == poll.total_pool + amounts_total(reqs),
        place_all(poll, reqs).total_pool == place_all(poll, reqs).option_a_stake + place_all(
            poll,
            reqs,
        ).option_b_stake,
    decreases reqs.len(),
{
    if reqs.len() > 0 {
        lemma_place_bid_update_wf(poll, reqs[0].0, reqs[0].1, now);
        lemma_conservation(place_bid_update(poll, reqs[0].0, reqs[0].1), reqs.drop_first(), now);
    }
}

/// Index monotonicity law: accepted placements take the indices
/// `next, next + 1, next + 2, ...` in order — from a fresh market, the exact
/// sequence `0, 1, 2, ...` — while [`place_bid_check`] refuses any other
/// claimed index with `InvalidBidIndex`.
pub proof fn lemma_index_monotonic(poll: Poll, reqs: Seq<(u64, BidOption)>, now: i64)
    requires
        poll.wf(),
        all_accepted(poll, reqs, now),
    ensures
        place_all(poll, reqs).next_bid_index == poll.next_bid_index + reqs.len(),
        forall|i: int|
            0 <= i < reqs.len() ==> place_all(poll, #[trigger] reqs.take(i)).next_bid_index
                == poll.next_bid_index + i,
    decreases reqs.len(),
{
    if reqs.len() > 0 {
        let upd = place_bid_update(poll, reqs[0].0, reqs[0].1);
        lemma_place_bid_update_wf(poll, reqs[0].0, reqs[0].1, now);
        lemma_index_monotonic(upd, reqs.drop_first(), now);
        assert forall|i: int|
            0 <= i < reqs.len() implies place_all(poll, #[trigger] reqs.take(i)).next_bid_index
            == poll.next_bid_index + i by {
            if i == 0 {
                assert(reqs.take(0) =~= Seq::<(u64, BidOption)>::empty());
            } else {
                let t = reqs.take(i);
                assert(t[0] == reqs[0]);
                assert(t.drop_first() =~= reqs.drop_first().take(i - 1));
                assert(place_all(poll, t) == place_all(upd, reqs.drop_first().take(i - 1)));
            }
        }
    }
}

/// One-shot claim law, first claim a winnings claim: once a winnings claim
/// has succeeded on a position, no claim of either kind ever succeeds on it
/// again — against any market state and any caller — and when the rightful
/// bettor retries against a market in the matching state, the refusal is
/// exactly `BidAlreadyClaimed`.
pub proof fn lemma_claim_one_shot_after_winnings(
    bid: Bid,
    poll: Poll,
    caller: AccountId,
    later_poll: Poll,
    later_caller: AccountId,
)
    requires
        claim_winnings_check(bid, poll, caller) is None,
    ensures
        claim_winnings_check((Bid { status: BidStatus::Won, ..bid }), later_poll, later_caller)
            is Some,
        claim_refund_check((Bid { status: BidStatus::Won, ..bid }), later_poll, later_caller)
            is Some,
        later_caller == bid.bettor && later_poll.status == PollStatus::Settled
            ==> claim_winnings_check(
            (Bid { status: BidStatus::Won, ..bid }),
            later_poll,
            later_caller,
        ) == Some(ErrorCode::BidAlreadyClaimed),
        later_caller == bid.bettor && later_poll.status == PollStatus::Cancelled
            ==> claim_refund_check(
            (Bid { status: BidStatus::Won, ..bid }),
            later_poll,
            later_caller,
        ) == Some(ErrorCode::BidAlreadyClaimed),
{
}

/// One-shot claim law, first claim a refund: once a refund has succeeded on
/// a position, no claim of either kind ever succeeds on it again, and the
/// rightful bettor's retry against a market in the matching state is refused
/// exactly with `BidAlreadyClaimed`.
pub proof fn lemma_claim_one_shot_after_refund(
    bid: Bid,
    poll: Poll,
    caller: AccountId,
    later_poll: Poll,
    later_caller: AccountId,
)
    requires
        claim_refund_check(bid, poll, caller) is None,
    ensures
        claim_winnings_check(
            (Bid { status: BidStatus::Refunded, ..bid }),
            later_poll,
            later_caller,
        ) is Some,
        claim_refund_check((Bid { status: BidStatus::Refunded, ..bid }), later_poll, later_caller)
            is Some,
        later_caller == bid.bettor && later_poll.status == PollStatus::Settled
            ==> claim_winnings_check(
            (Bid { status: BidStatus::Refunded, ..bid }),
            later_poll,
            later_caller,
        ) == Some(ErrorCode::BidAlreadyClaimed),
        later_caller == bid.bettor && later_poll.status == PollStatus::Cancelled
            ==> claim_refund_check(
            (Bid { status: BidStatus::Refunded, ..bid }),
            later_poll,
            later_caller,
        ) == Some(ErrorCode::BidAlreadyClaimed),
{
}

} // verus!

//! The six market operations. Each is a pure transition: it takes the loaded
//! entities, the authenticated caller and the current time, validates, and
//! either returns the new state with its event or returns an error and leaves
//! every entity exactly as it was. The `*_check` spec functions state, in the
//! order the checks are made, exactly which error comes back on which inputs;
//! `None` means the operation is owed success.
//!
//! Fund movements accompany the events: an accepted position deposits
//! `amount` into the market's escrow; a winnings claim releases `payout` to
//! the bettor and `platform_fee` to the treasury; a refund claim releases
//! `amount` back to the bettor. Performing those transfers is the
//! surrounding runtime's business.

use vstd::prelude::*;

use crate::bid::Bid;
use crate::bid::BidOption;
use crate::bid::BidStatus;
use crate::bytes::copy_bytes;
use crate::errors::ErrorCode;
use crate::escrow::fee_amount_of;
use crate::escrow::payout_split;
use crate::escrow::winner_amount_of;
use crate::events::BidPlaced;
use crate::events::PollCancelled;
use crate::events::PollCreated;
use crate::events::PollSettled;
use crate::events::RefundClaimed;
use crate::events::WinningsClaimed;
use crate::ids::AccountId;
use crate::odds::lemma_odds_bounds;
use crate::odds::odds_of;
use crate::odds::update_amm_odds;
use crate::poll::Poll;
use crate::poll::PollStatus;
use crate::BPS_DENOMINATOR;
use crate::INITIAL_ODDS_BPS;
use crate::MAX_BET_AMOUNT;
use crate::MAX_OPTION_TEXT_LEN;
use crate::MAX_POLL_ID_LEN;
use crate::MAX_TITLE_LEN;
use crate::MIN_BET_AMOUNT;
use crate::PLATFORM_FEE_BPS;
use vstd::arithmetic::div_mod::lemma_div_nonincreasing;

verus! {

/// Why market creation fails, or `None` when it is owed success.
pub open spec fn initialize_poll_check(
    poll_id: Seq<u8>,
    title: Seq<u8>,
    option_a_text: Seq<u8>,
    option_b_text: Seq<u8>,
    end_timestamp: i64,
    now: i64,
) -> Option<ErrorCode> {
    if poll_id.len() > MAX_POLL_ID_LEN {
        Some(ErrorCode::PollIdTooLong)
    } else if title.len() > MAX_TITLE_LEN {
        Some(ErrorCode::TitleTooLong)
    } else if option_a_text.len() > MAX_OPTION_TEXT_LEN {
        Some(ErrorCode::OptionTextTooLong)
    } else if option_b_text.len() > MAX_OPTION_TEXT_LEN {
        Some(ErrorCode::OptionTextTooLong)
    } else if end_timestamp <= now {
        Some(ErrorCode::InvalidEndTime)
    } else {
        None
    }
}

/// The market a successful creation returns: empty pool, even odds, active,
/// no winner, position counter at zero.
pub open spec fn fresh_poll(
    authority: AccountId,
    poll_id: Vec<u8>,
    title: Vec<u8>,
    option_a_text: Vec<u8>,
    option_b_text: Vec<u8>,
    end_timestamp: i64,
    vault_bump: u8,
    bump: u8,
) -> Poll {
    Poll {
        authority,
        poll_id,
        title,
        option_a_text,
        option_b_text,
        option_a_stake: 0,
        option_b_stake: 0,
        total_pool: 0,
        option_a_odds: INITIAL_ODDS_BPS,
        option_b_odds: INITIAL_ODDS_BPS,
        end_timestamp,
        status: PollStatus::Active,
        winner: None,
        vault_bump,
        bump,
        next_bid_index: 0,
    }
}

/// Creates a market. `now` is the current time as the runtime's clock gives
/// it; `vault_bump` and `bump` are the derivation nonces of the market's
/// escrow and own accounts, which the substrate derives from `poll_id`.
pub fn initialize_poll(
    authority: AccountId,
    poll_id: Vec<u8>,
    title: Vec<u8>,
    option_a_text: Vec<u8>,
    option_b_text: Vec<u8>,
    end_timestamp: i64,
    now: i64,
    vault_bump: u8,
    bump: u8,
) -> (r: Result<(Poll, PollCreated), ErrorCode>)
    ensures
        match r {
            Ok(pe) => ({
                &&& initialize_poll_check(
                    poll_id@,
                    title@,
                    option_a_text@,
                    option_b_text@,
                    end_timestamp,
                    now,
                ) is None
                &&& pe.0 == fresh_poll(
                    authority,
                    poll_id,
                    title,
                    option_a_text,
                    option_b_text,
                    end_timestamp,
                    vault_bump,
                    bump,
                )
                &&& pe.0.wf()
                &&& pe.1.authority == authority
                &&& pe.1.poll_id@ == poll_id@
                &&& pe.1.title@ == title@
                &&& pe.1.end_timestamp == end_timestamp
            }),
            Err(e) => initialize_poll_check(
                poll_id@,
                title@,
                option_a_text@,
                option_b_text@,
                end_timestamp,
                now,
            ) == Some(e),
        },
{
    if poll_id.len() > MAX_POLL_ID_LEN {
        return Err(ErrorCode::PollIdTooLong);
    }
    if title.len() > MAX_TITLE_LEN {
        return Err(ErrorCode::TitleTooLong);
    }
    if option_a_text.len() > MAX_OPTION_TEXT_LEN {
        return Err(ErrorCode::OptionTextTooLong);
    }
    if option_b_text.len() > MAX_OPTION_TEXT_LEN {
        return Err(ErrorCode::OptionTextTooLong);
    }
    if end_timestamp <= now {
        return Err(ErrorCode::InvalidEndTime);
    }
    let ev = PollCreated {
        authority,
        poll_id: copy_bytes(&poll_id),
        title: copy_bytes(&title),
        end_timestamp,
    };
    let poll = Poll {
        authority,
        poll_id,
        title,
        option_a_text,
        option_b_text,
        option_a_stake: 0,
        option_b_stake: 0,
        total_pool: 0,
        option_a_odds: INITIAL_ODDS_BPS,
        option_b_odds: INITIAL_ODDS_BPS,
        end_timestamp,
        status: PollStatus::Active,
        winner: None,
        vault_bump,
        bump,
        next_bid_index: 0,
    };
    Ok((poll, ev))
}

/// The odds the backed option carries before the stake moves them.
pub open spec fn current_odds_for(poll: Poll, option: BidOption) -> u64 {
    match option {
        BidOption::OptionA => poll.option_a_odds,
        BidOption::OptionB => poll.option_b_odds,
    }
}

/// `floor(amount * BPS_DENOMINATOR / odds)`: what a stake of `amount` at
/// `odds` pays before the fee if it wins.
pub open spec fn potential_win_of(amount: u64, odds: u64) -> int {
    amount * BPS_DENOMINATOR / (odds as int)
}

/// Why a placement fails, or `None` when it is owed success.
pub open spec fn place_bid_check(poll: Poll, amount: u64, bid_index: u64, now: i64) -> Option<
    ErrorCode,
> {
    if bid_index != poll.next_bid_index {
        Some(ErrorCode::InvalidBidIndex)
    } else if poll.status != PollStatus::Active {
        Some(ErrorCode::PollNotActive)
    } else if now >= poll.end_timestamp {
        Some(ErrorCode::PollEnded)
    } else if amount < MIN_BET_AMOUNT || amount > MAX_BET_AMOUNT {
        Some(ErrorCode::InvalidBetAmount)
    } else if poll.total_pool + amount > u64::MAX || poll.next_bid_index + 1 > u64::MAX {
        Some(ErrorCode::ArithmeticOverflow)
    } else {
        None
    }
}

/// The market after it accepts a stake of `amount` on `option`: the chosen
/// side's stake and the pool grow by `amount`, both sides' odds are
/// recomputed from the new stakes, and the position counter moves on.
pub open spec fn place_bid_update(poll: Poll, amount: u64, option: BidOption) -> Poll {
    let a = if option == BidOption::OptionA {
        (poll.option_a_stake + amount) as u64
    } else {
        poll.option_a_stake
    };
    let b = if option == BidOption::OptionB {
        (poll.option_b_stake + amount) as u64
    } else {
        poll.option_b_stake
    };
    Poll {
        option_a_stake: a,
        option_b_stake: b,
        total_pool: (poll.total_pool + amount) as u64,
        option_a_odds: odds_of(a, b) as u64,
        option_b_odds: odds_of(b, a) as u64,
        next_bid_index: (poll.next_bid_index + 1) as u64,
        ..poll
    }
}

/// Accepts a stake on a market. On success the market is exactly
/// [`place_bid_update`] of its old value, and the returned position freezes
/// the pre-update odds and the payout they imply; on failure the market is
/// untouched and the error is exactly what [`place_bid_check`] says.
pub fn place_bid(
    poll: &mut Poll,
    bettor: AccountId,
    amount: u64,
    option: BidOption,
    timestamp: i64,
    bid_index: u64,
    now: i64,
    bid_bump: u8,
) -> (r: Result<(Bid, BidPlaced), ErrorCode>)
    requires
        old(poll).wf(),
    ensures
        final(poll).wf(),
        match r {
            Ok(be) => ({
                &&& place_bid_check(*old(poll), amount, bid_index, now) is None
                &&& *final(poll) == place_bid_update(*old(poll), amount, option)
                &&& be.0.bettor == bettor
                &&& be.0.poll@ == old(poll).poll_id@
                &&& be.0.amount == amount
                &&& be.0.option == option
                &&& be.0.odds_at_purchase == current_odds_for(*old(poll), option)
                &&& be.0.potential_win == potential_win_of(
                    amount,
                    current_odds_for(*old(poll), option),
                )
                &&& be.0.status == BidStatus::Active
                &&& be.0.timestamp == timestamp
                &&& be.0.index == bid_index
                &&& be.0.bump == bid_bump
                &&& be.1 == (BidPlaced {
                    bettor,
                    amount,
                    option,
                    odds: be.0.odds_at_purchase,
                    potential_win: be.0.potential_win,
                })
            }),
            Err(e) => ({
                &&& *final(poll) == *old(poll)
                &&& place_bid_check(*old(poll), amount, bid_index, now) == Some(e)
            }),
        },
{
    if bid_index != poll.next_bid_index {
        return Err(ErrorCode::InvalidBidIndex);
    }
    if poll.status != PollStatus::Active {
        return Err(ErrorCode::PollNotActive);
    }
    if now >= poll.end_timestamp {
        return Err(ErrorCode::PollEnded);
    }
    if amount < MIN_BET_AMOUNT || amount > MAX_BET_AMOUNT {
        return Err(ErrorCode::InvalidBetAmount);
    }
    if amount > u64::MAX - poll.total_pool || poll.next_bid_index == u64::MAX {
        return Err(ErrorCode::ArithmeticOverflow);
    }
    let current_odds = match option {
        BidOption::OptionA => poll.option_a_odds,
        BidOption::OptionB => poll.option_b_odds,
    };
    proof {
        lemma_odds_bounds(poll.option_a_stake, poll.option_b_stake);
        lemma_odds_bounds(poll.option_b_stake, poll.option_a_stake);
        lemma_div_nonincreasing(amount * BPS_DENOMINATOR, current_odds as int);
    }
    let pw128: u128 = (amount as u128) * (BPS_DENOMINATOR as u128) / (current_odds as u128);
    let potential_win: u64 = pw128 as u64;
    match option {
        BidOption::OptionA => {
            poll.option_a_stake = poll.option_a_stake + amount;
        },
        BidOption::OptionB => {
            poll.option_b_stake = poll.option_b_stake + amount;
        },
    }
    poll.total_pool = poll.total_pool + amount;
    update_amm_odds(poll);
    poll.next_bid_index = poll.next_bid_index + 1;
    let bid = Bid {
        bettor,
        poll: copy_bytes(&poll.poll_id),
        amount,
        option,
        odds_at_purchase: current_odds,
        potential_win,
        status: BidStatus::Active,
        timestamp,
        index: bid_index,
        bump: bid_bump,
    };
    let ev = BidPlaced { bettor, amount, option, odds: current_odds, potential_win };
    Ok((bid, ev))
}

/// Why settling fails, or `None` when it is owed success.
pub open spec fn settle_poll_check(poll: Poll, caller: AccountId, now: i64) -> Option<ErrorCode> {
    if caller != poll.authority {
        Some(ErrorCode::Unauthorized)
    } else if poll.status != PollStatus::Active {
        Some(ErrorCode::PollNotActive)
    } else if now < poll.end_timestamp {
        Some(ErrorCode::PollNotEnded)
    } else {
        None
    }
}

/// Settles a market: only its authority, only while active, only once the
/// end time has been reached. The winner is recorded exactly here, once.
pub fn settle_poll(poll: &mut Poll, caller: AccountId, winning_option: BidOption, now: i64) -> (r:
    Result<PollSettled, ErrorCode>)
    requires
        old(poll).wf(),
    ensures
        final(poll).wf(),
        match r {
            Ok(ev) => ({
                &&& settle_poll_check(*old(poll), caller, now) is None
                &&& *final(poll) == (Poll {
                    status: PollStatus::Settled,
                    winner: Some(winning_option),
                    ..*old(poll)
                })
                &&& ev == (PollSettled { winner: winning_option, total_pool: old(poll).total_pool })
            }),
            Err(e) => ({
                &&& *final(poll) == *old(poll)
                &&& settle_poll_check(*old(poll), caller, now) == Some(e)
            }),
        },
{
    if caller != poll.authority {
        return Err(ErrorCode::Unauthorized);
    }
    if poll.status != PollStatus::Active {
        return Err(ErrorCode::PollNotActive);
    }
    if now < poll.end_timestamp {
        return Err(ErrorCode::PollNotEnded);
    }
    poll.status = PollStatus::Settled;
    poll.winner = Some(winning_option);
    Ok(PollSettled { winner: winning_option, total_pool: poll.total_pool })
}

/// Why cancelling fails, or `None` when it is owed success. There is no
/// deadline check: cancellation is an emergency override open any time the
/// market is still active.
pub open spec fn cancel_poll_check(poll: Poll, caller: AccountId) -> Option<ErrorCode> {
    if caller != poll.authority {
        Some(ErrorCode::Unauthorized)
    } else if poll.status != PollStatus::Active {
        Some(ErrorCode::PollNotActive)
    } else {
        None
    }
}

/// Cancels a market: only its authority, only while active. Positions then
/// claim their stakes back one by one.
pub fn cancel_poll(poll: &mut Poll, caller: AccountId) -> (r: Result<PollCancelled, ErrorCode>)
    requires
        old(poll).wf(),
    ensures
        final(poll).wf(),
        match r {
            Ok(ev) => ({
                &&& cancel_poll_check(*old(poll), caller) is None
                &&& *final(poll) == (Poll { status: PollStatus::Cancelled, ..*old(poll) })
                &&& ev == (PollCancelled { total_pool: old(poll).total_pool })
            }),
            Err(e) => ({
                &&& *final(poll) == *old(poll)
                &&& cancel_poll_check(*old(poll), caller) == Some(e)
            }),
        },
{
    if caller != poll.authority {
        return Err(ErrorCode::Unauthorized);
    }
    if poll.status != PollStatus::Active {
        return Err(ErrorCode::PollNotActive);
    }
    poll.status = PollStatus::Cancelled;
    Ok(PollCancelled { total_pool: poll.total_pool })
}

/// Whether the position backed the option the market settled on.
pub open spec fn bid_wins(bid: Bid, poll: Poll) -> bool {
    match (bid.option, poll.winner) {
        (BidOption::OptionA, Some(BidOption::OptionA)) => true,
        (BidOption::OptionB, Some(BidOption::OptionB)) => true,
        _ => false,
    }
}

/// Why a winnings claim fails, or `None` when it is owed success.
pub open spec fn claim_winnings_check(bid: Bid, poll: Poll, caller: AccountId) -> Option<
    ErrorCode,
> {
    if bid.bettor != caller {
        Some(ErrorCode::Unauthorized)
    } else if poll.status != PollStatus::Settled {
        Some(ErrorCode::PollNotSettled)
    } else if bid.status != BidStatus::Active {
        Some(ErrorCode::BidAlreadyClaimed)
    } else if !bid_wins(bid, poll) {
        Some(ErrorCode::BidDidNotWin)
    } else {
        None
    }
}

/// Pays out a winning position: only its bettor, only on a settled market,
/// only while the position is still unclaimed, only if its option won. The
/// escrow owes `payout` to the bettor and `platform_fee` to the treasury,
/// which add back exactly to the frozen potential payout; the position moves
/// to `Won`, its one claim spent.
pub fn claim_winnings(bid: &mut Bid, poll: &Poll, caller: AccountId) -> (r: Result<
    WinningsClaimed,
    ErrorCode,
>)
    ensures
        match r {
            Ok(ev) => ({
                &&& claim_winnings_check(*old(bid), *poll, caller) is None
                &&& *final(bid) == (Bid { status: BidStatus::Won, ..*old(bid) })
                &&& ev.bettor == old(bid).bettor
                &&& ev.payout == winner_amount_of(old(bid).potential_win, PLATFORM_FEE_BPS)
                &&& ev.platform_fee == fee_amount_of(old(bid).potential_win, PLATFORM_FEE_BPS)
                &&& ev.payout + ev.platform_fee == old(bid).potential_win
            }),
            Err(e) => ({
                &&& *final(bid) == *old(bid)
                &&& claim_winnings_check(*old(bid), *poll, caller) == Some(e)
            }),
        },
{
    if bid.bettor != caller {
        return Err(ErrorCode::Unauthorized);
    }
    if poll.status != PollStatus::Settled {
        return Err(ErrorCode::PollNotSettled);
    }
    if bid.status != BidStatus::Active {
        return Err(ErrorCode::BidAlreadyClaimed);
    }
    let did_win = match (bid.option, poll.winner) {
        (BidOption::OptionA, Some(BidOption::OptionA)) => true,
        (BidOption::OptionB, Some(BidOption::OptionB)) => true,
        _ => false,
    };
    if !did_win {
        return Err(ErrorCode::BidDidNotWin);
    }
    let (payout, platform_fee) = payout_split(bid.potential_win, PLATFORM_FEE_BPS);
    bid.status = BidStatus::Won;
    Ok(WinningsClaimed { bettor: bid.bettor, payout, platform_fee })
}

/// Why a refund claim fails, or `None` when it is owed success.
pub open spec fn claim_refund_check(bid: Bid, poll: Poll, caller: AccountId) -> Option<ErrorCode> {
    if bid.bettor != caller {
        Some(ErrorCode::Unauthorized)
    } else if poll.status != PollStatus::Cancelled {
        Some(ErrorCode::PollNotCancelled)
    } else if bid.status != BidStatus::Active {
        Some(ErrorCode::BidAlreadyClaimed)
    } else {
        None
    }
}

/// Refunds a position of a cancelled market: only its bettor, only while the
/// position is still unclaimed. The escrow owes the original stake — not the
/// potential payout — back to the bettor; the position moves to `Refunded`,
/// its one claim spent.
pub fn claim_refund(bid: &mut Bid, poll: &Poll, caller: AccountId) -> (r: Result<
    RefundClaimed,
    ErrorCode,
>)
    ensures
        match r {
            Ok(ev) => ({
                &&& claim_refund_check(*old(bid), *poll, caller) is None
                &&& *final(bid) == (Bid { status: BidStatus::Refunded, ..*old(bid) })
                &&& ev == (RefundClaimed { bettor: old(bid).bettor, amount: old(bid).amount })
            }),
            Err(e) => ({
                &&& *final(bid) == *old(bid)
                &&& claim_refund_check(*old(bid), *poll, caller) == Some(e)
            }),
        },
{
    if bid.bettor != caller {
        return Err(ErrorCode::Unauthorized);
    }
    if poll.status != PollStatus::Cancelled {
        return Err(ErrorCode::PollNotCancelled);
    }
    if bid.status != BidStatus::Active {
        return Err(ErrorCode::BidAlreadyClaimed);
    }
    bid.status = BidStatus::Refunded;
    Ok(RefundClaimed { bettor: bid.bettor, amount: bid.amount })
}

} // verus!

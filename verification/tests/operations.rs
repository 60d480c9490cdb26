//! End-to-end exercises of the six operations: creation, placement,
//! settlement, claims, cancellation and refunds, with their error paths.

use opinion_trading::bid::Bid;
use opinion_trading::bid::BidOption;
use opinion_trading::bid::BidStatus;
use opinion_trading::errors::ErrorCode;
use opinion_trading::ids::AccountId;
use opinion_trading::ops::cancel_poll;
use opinion_trading::ops::claim_refund;
use opinion_trading::ops::claim_winnings;
use opinion_trading::ops::initialize_poll;
use opinion_trading::ops::place_bid;
use opinion_trading::ops::settle_poll;
use opinion_trading::poll::Poll;
use opinion_trading::poll::PollStatus;
use opinion_trading::INITIAL_ODDS_BPS;
use opinion_trading::MAX_BET_AMOUNT;
use opinion_trading::MIN_BET_AMOUNT;

fn account(n: u64) -> AccountId {
    AccountId { w0: n, w1: n + 1, w2: n + 2, w3: n + 3 }
}

const NOW: i64 = 1_000_000;

fn active_poll(authority: AccountId) -> Poll {
    let (poll, _ev) = initialize_poll(
        authority,
        b"poll-1".to_vec(),
        b"Will it rain tomorrow?".to_vec(),
        b"Yes".to_vec(),
        b"No".to_vec(),
        NOW + 3600,
        NOW,
        254,
        255,
    )
    .expect("creation must succeed");
    poll
}

fn active_bid(bettor: AccountId, amount: u64, option: BidOption) -> Bid {
    Bid {
        bettor,
        poll: b"poll-1".to_vec(),
        amount,
        option,
        odds_at_purchase: INITIAL_ODDS_BPS,
        potential_win: amount * 2,
        status: BidStatus::Active,
        timestamp: NOW,
        index: 0,
        bump: 253,
    }
}

#[test]
fn create_initializes_fresh_market() {
    let authority = account(1);
    let (poll, ev) = initialize_poll(
        authority,
        b"poll-1".to_vec(),
        b"Will it rain tomorrow?".to_vec(),
        b"Yes".to_vec(),
        b"No".to_vec(),
        NOW + 3600,
        NOW,
        254,
        255,
    )
    .expect("creation must succeed");
    assert!(poll.is_well_formed());
    assert_eq!(poll.authority, authority);
    assert_eq!(poll.poll_id, b"poll-1".to_vec());
    assert_eq!(poll.option_a_stake, 0);
    assert_eq!(poll.option_b_stake, 0);
    assert_eq!(poll.total_pool, 0);
    assert_eq!(poll.option_a_odds, 5000);
    assert_eq!(poll.option_b_odds, 5000);
    assert_eq!(poll.end_timestamp, NOW + 3600);
    assert_eq!(poll.status, PollStatus::Active);
    assert!(poll.winner.is_none());
    assert_eq!(poll.vault_bump, 254);
    assert_eq!(poll.bump, 255);
    assert_eq!(poll.next_bid_index, 0);
    assert_eq!(ev.authority, authority);
    assert_eq!(ev.poll_id, b"poll-1".to_vec());
    assert_eq!(ev.title, b"Will it rain tomorrow?".to_vec());
    assert_eq!(ev.end_timestamp, NOW + 3600);
}

#[test]
fn create_rejects_oversized_and_late_inputs() {
    let authority = account(1);
    let long_id = vec![b'x'; 65];
    let r = initialize_poll(
        authority,
        long_id,
        b"t".to_vec(),
        b"A".to_vec(),
        b"B".to_vec(),
        NOW + 1,
        NOW,
        0,
        0,
    );
    assert!(matches!(r, Err(ErrorCode::PollIdTooLong)));

    let long_title = vec![b't'; 257];
    let r = initialize_poll(
        authority,
        b"p".to_vec(),
        long_title,
        b"A".to_vec(),
        b"B".to_vec(),
        NOW + 1,
        NOW,
        0,
        0,
    );
    assert!(matches!(r, Err(ErrorCode::TitleTooLong)));

    let long_label = vec![b'a'; 129];
    let r = initialize_poll(
        authority,
        b"p".to_vec(),
        b"t".to_vec(),
        long_label.clone(),
        b"B".to_vec(),
        NOW + 1,
        NOW,
        0,
        0,
    );
    assert!(matches!(r, Err(ErrorCode::OptionTextTooLong)));

    let r = initialize_poll(
        authority,
        b"p".to_vec(),
        b"t".to_vec(),
        b"A".to_vec(),
        long_label,
        NOW + 1,
        NOW,
        0,
        0,
    );
    assert!(matches!(r, Err(ErrorCode::OptionTextTooLong)));

    // The end time must be strictly after the current time.
    let r = initialize_poll(
        authority,
        b"p".to_vec(),
        b"t".to_vec(),
        b"A".to_vec(),
        b"B".to_vec(),
        NOW,
        NOW,
        0,
        0,
    );
    assert!(matches!(r, Err(ErrorCode::InvalidEndTime)));
}

#[test]
fn create_accepts_inputs_at_the_limits() {
    let r = initialize_poll(
        account(1),
        vec![b'i'; 64],
        vec![b't'; 256],
        vec![b'a'; 128],
        vec![b'b'; 128],
        NOW + 1,
        NOW,
        0,
        0,
    );
    assert!(r.is_ok());
}

#[test]
fn scenario_two_placements_move_odds() {
    // Stakes of 10 and 20 units: odds become 3333 / 6666, the pool 30 units.
    let unit = MIN_BET_AMOUNT;
    let mut poll = active_poll(account(1));
    let (bid_a, ev_a) = place_bid(
        &mut poll,
        account(10),
        10 * unit,
        BidOption::OptionA,
        NOW + 1,
        0,
        NOW + 1,
        9,
    )
    .expect("first placement must succeed");
    assert_eq!(bid_a.odds_at_purchase, 5000);
    // At even odds the frozen payout is twice the stake.
    assert_eq!(bid_a.potential_win, 20 * unit);
    assert_eq!(bid_a.index, 0);
    assert_eq!(bid_a.poll, b"poll-1".to_vec());
    assert_eq!(bid_a.bump, 9);
    assert_eq!(ev_a.amount, 10 * unit);
    assert_eq!(ev_a.odds, 5000);
    assert_eq!(ev_a.potential_win, 20 * unit);

    let (bid_b, _ev_b) = place_bid(
        &mut poll,
        account(20),
        20 * unit,
        BidOption::OptionB,
        NOW + 2,
        1,
        NOW + 2,
        9,
    )
    .expect("second placement must succeed");
    // The second bettor buys at the odds the first stake left behind: with
    // everything on option A, option B sits at the 5% floor.
    assert_eq!(bid_b.odds_at_purchase, 500);
    assert_eq!(bid_b.potential_win, 400 * unit);
    assert_eq!(bid_b.index, 1);

    assert!(poll.is_well_formed());
    assert_eq!(poll.option_a_stake, 10 * unit);
    assert_eq!(poll.option_b_stake, 20 * unit);
    assert_eq!(poll.total_pool, 30 * unit);
    assert_eq!(poll.option_a_odds, 3333);
    assert_eq!(poll.option_b_odds, 6666);
    assert_eq!(poll.next_bid_index, 2);
}

#[test]
fn scenario_index_conflict_leaves_state_unchanged() {
    let mut poll = active_poll(account(1));
    poll.next_bid_index = 3;
    assert!(poll.is_well_formed());
    let r = place_bid(
        &mut poll,
        account(10),
        MIN_BET_AMOUNT,
        BidOption::OptionA,
        NOW + 1,
        5,
        NOW + 1,
        0,
    );
    assert!(matches!(r, Err(ErrorCode::InvalidBidIndex)));
    assert_eq!(poll.next_bid_index, 3);
    assert_eq!(poll.total_pool, 0);
    assert_eq!(poll.status, PollStatus::Active);
}

#[test]
fn place_bid_validates_state_time_and_amount() {
    let authority = account(1);

    let mut poll = active_poll(authority);
    let r = place_bid(
        &mut poll,
        account(10),
        MIN_BET_AMOUNT - 1,
        BidOption::OptionA,
        NOW + 1,
        0,
        NOW + 1,
        0,
    );
    assert!(matches!(r, Err(ErrorCode::InvalidBetAmount)));
    let r = place_bid(
        &mut poll,
        account(10),
        MAX_BET_AMOUNT + 1,
        BidOption::OptionA,
        NOW + 1,
        0,
        NOW + 1,
        0,
    );
    assert!(matches!(r, Err(ErrorCode::InvalidBetAmount)));
    // Both bounds themselves are accepted.
    let r = place_bid(&mut poll, account(10), MIN_BET_AMOUNT, BidOption::OptionA, NOW + 1, 0, NOW + 1, 0);
    assert!(r.is_ok());
    let r = place_bid(&mut poll, account(10), MAX_BET_AMOUNT, BidOption::OptionB, NOW + 2, 1, NOW + 2, 0);
    assert!(r.is_ok());

    // At the end time itself the market no longer accepts positions.
    let mut poll = active_poll(authority);
    let r = place_bid(
        &mut poll,
        account(10),
        MIN_BET_AMOUNT,
        BidOption::OptionA,
        NOW + 3600,
        0,
        NOW + 3600,
        0,
    );
    assert!(matches!(r, Err(ErrorCode::PollEnded)));

    // A settled market refuses placements.
    let mut poll = active_poll(authority);
    settle_poll(&mut poll, authority, BidOption::OptionA, NOW + 3600).expect("settle must succeed");
    let r = place_bid(
        &mut poll,
        account(10),
        MIN_BET_AMOUNT,
        BidOption::OptionA,
        NOW + 3601,
        0,
        NOW + 3601,
        0,
    );
    assert!(matches!(r, Err(ErrorCode::PollNotActive)));
}

#[test]
fn place_bid_refuses_a_pool_overflow() {
    let mut poll = active_poll(account(1));
    poll.option_a_stake = u64::MAX - 1;
    poll.total_pool = u64::MAX - 1;
    poll.option_a_odds = 9500;
    poll.option_b_odds = 500;
    assert!(poll.is_well_formed());
    let r = place_bid(
        &mut poll,
        account(10),
        MIN_BET_AMOUNT,
        BidOption::OptionA,
        NOW + 1,
        0,
        NOW + 1,
        0,
    );
    assert!(matches!(r, Err(ErrorCode::ArithmeticOverflow)));
    assert_eq!(poll.total_pool, u64::MAX - 1);
}

#[test]
fn place_bid_refuses_an_index_counter_overflow() {
    let mut poll = active_poll(account(1));
    poll.next_bid_index = u64::MAX;
    assert!(poll.is_well_formed());
    let r = place_bid(
        &mut poll,
        account(10),
        MIN_BET_AMOUNT,
        BidOption::OptionA,
        NOW + 1,
        u64::MAX,
        NOW + 1,
        0,
    );
    assert!(matches!(r, Err(ErrorCode::ArithmeticOverflow)));
    assert_eq!(poll.next_bid_index, u64::MAX);
    assert_eq!(poll.total_pool, 0);
}

#[test]
fn well_formedness_detects_broken_accounting_and_stale_odds() {
    let mut poll = active_poll(account(1));
    assert!(poll.is_well_formed());
    poll.total_pool = 1;
    assert!(!poll.is_well_formed());
    poll.total_pool = 0;
    poll.option_a_odds = 501;
    assert!(!poll.is_well_formed());
    poll.option_a_odds = 5000;
    poll.winner = Some(BidOption::OptionA);
    assert!(!poll.is_well_formed());
}

#[test]
fn settle_gates_on_authority_state_and_time() {
    let authority = account(1);
    let mut poll = active_poll(authority);

    let r = settle_poll(&mut poll, account(2), BidOption::OptionA, NOW + 3600);
    assert!(matches!(r, Err(ErrorCode::Unauthorized)));

    // Settling is refused strictly before the end time.
    let r = settle_poll(&mut poll, authority, BidOption::OptionA, NOW + 3599);
    assert!(matches!(r, Err(ErrorCode::PollNotEnded)));

    // At the end time itself it is allowed.
    let ev = settle_poll(&mut poll, authority, BidOption::OptionA, NOW + 3600)
        .expect("settle must succeed");
    assert_eq!(ev.winner, BidOption::OptionA);
    assert_eq!(ev.total_pool, 0);
    assert_eq!(poll.status, PollStatus::Settled);
    assert_eq!(poll.winner, Some(BidOption::OptionA));
    assert!(poll.is_well_formed());

    // Settled is terminal.
    let r = settle_poll(&mut poll, authority, BidOption::OptionB, NOW + 3601);
    assert!(matches!(r, Err(ErrorCode::PollNotActive)));
    assert_eq!(poll.winner, Some(BidOption::OptionA));
}

#[test]
fn cancel_gates_on_authority_and_state() {
    let authority = account(1);
    let mut poll = active_poll(authority);

    let r = cancel_poll(&mut poll, account(2));
    assert!(matches!(r, Err(ErrorCode::Unauthorized)));

    // No deadline check: an active market can be cancelled at any time.
    let ev = cancel_poll(&mut poll, authority).expect("cancel must succeed");
    assert_eq!(ev.total_pool, 0);
    assert_eq!(poll.status, PollStatus::Cancelled);
    assert!(poll.winner.is_none());
    assert!(poll.is_well_formed());

    // Cancelled is terminal.
    let r = cancel_poll(&mut poll, authority);
    assert!(matches!(r, Err(ErrorCode::PollNotActive)));
    let r = settle_poll(&mut poll, authority, BidOption::OptionA, NOW + 3600);
    assert!(matches!(r, Err(ErrorCode::PollNotActive)));
}

#[test]
fn scenario_winning_claim_pays_fee_and_remainder() {
    // A stake of 10 at odds 2000 freezes a payout of 50; claiming it pays
    // 49 to the bettor and 1 to the treasury.
    let authority = account(1);
    let bettor = account(10);
    let mut poll = active_poll(authority);
    settle_poll(&mut poll, authority, BidOption::OptionA, NOW + 3600).expect("settle must succeed");

    let mut bid = active_bid(bettor, 10, BidOption::OptionA);
    bid.odds_at_purchase = 2000;
    bid.potential_win = 50;

    let ev = claim_winnings(&mut bid, &poll, bettor).expect("claim must succeed");
    assert_eq!(ev.payout, 49);
    assert_eq!(ev.platform_fee, 1);
    assert_eq!(ev.payout + ev.platform_fee, 50);
    assert_eq!(ev.bettor, bettor);
    assert_eq!(bid.status, BidStatus::Won);

    // One-shot: the second claim is refused.
    let r = claim_winnings(&mut bid, &poll, bettor);
    assert!(matches!(r, Err(ErrorCode::BidAlreadyClaimed)));
    let r = claim_refund(&mut bid, &poll, bettor);
    assert!(matches!(r, Err(ErrorCode::PollNotCancelled)));
    assert_eq!(bid.status, BidStatus::Won);
}

#[test]
fn scenario_losing_claim_is_refused() {
    let authority = account(1);
    let bettor = account(10);
    let mut poll = active_poll(authority);
    settle_poll(&mut poll, authority, BidOption::OptionA, NOW + 3600).expect("settle must succeed");

    let mut bid = active_bid(bettor, 10, BidOption::OptionB);
    let r = claim_winnings(&mut bid, &poll, bettor);
    assert!(matches!(r, Err(ErrorCode::BidDidNotWin)));
    // The losing position stays Active: nothing ever marks it Lost.
    assert_eq!(bid.status, BidStatus::Active);
}

#[test]
fn claim_winnings_gates_on_caller_and_market_state() {
    let authority = account(1);
    let bettor = account(10);
    let poll = active_poll(authority);
    let mut bid = active_bid(bettor, 10, BidOption::OptionA);

    let r = claim_winnings(&mut bid, &poll, account(11));
    assert!(matches!(r, Err(ErrorCode::Unauthorized)));

    // The market is still active, not settled.
    let r = claim_winnings(&mut bid, &poll, bettor);
    assert!(matches!(r, Err(ErrorCode::PollNotSettled)));
    assert_eq!(bid.status, BidStatus::Active);
}

#[test]
fn scenario_cancel_then_refund_is_one_shot() {
    // Cancel an active market, then refund a position of 7 units: exactly 7
    // come back, and the second refund is refused.
    let authority = account(1);
    let bettor = account(10);
    let mut poll = active_poll(authority);
    cancel_poll(&mut poll, authority).expect("cancel must succeed");

    let mut bid = active_bid(bettor, 7, BidOption::OptionB);
    let r = claim_refund(&mut bid, &poll, account(11));
    assert!(matches!(r, Err(ErrorCode::Unauthorized)));

    let ev = claim_refund(&mut bid, &poll, bettor).expect("refund must succeed");
    assert_eq!(ev.amount, 7);
    assert_eq!(ev.bettor, bettor);
    assert_eq!(bid.status, BidStatus::Refunded);

    let r = claim_refund(&mut bid, &poll, bettor);
    assert!(matches!(r, Err(ErrorCode::BidAlreadyClaimed)));
    let r = claim_winnings(&mut bid, &poll, bettor);
    assert!(matches!(r, Err(ErrorCode::PollNotSettled)));
    assert_eq!(bid.status, BidStatus::Refunded);
}

#[test]
fn claim_refund_needs_a_cancelled_market() {
    let authority = account(1);
    let bettor = account(10);
    let mut poll = active_poll(authority);
    let mut bid = active_bid(bettor, 10, BidOption::OptionA);

    let r = claim_refund(&mut bid, &poll, bettor);
    assert!(matches!(r, Err(ErrorCode::PollNotCancelled)));

    settle_poll(&mut poll, authority, BidOption::OptionA, NOW + 3600).expect("settle must succeed");
    let r = claim_refund(&mut bid, &poll, bettor);
    assert!(matches!(r, Err(ErrorCode::PollNotCancelled)));
    assert_eq!(bid.status, BidStatus::Active);
}

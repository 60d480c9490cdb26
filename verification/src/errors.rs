//! The failure kinds of the market core. Every operation either fully applies
//! or returns one of these; no partial mutation is ever observable.

use vstd::prelude::*;

verus! {

/// Why an operation was refused. Each operation's contract states exactly
/// which variant comes back on which inputs.
#[derive(Clone, Copy, Debug, PartialEq, Eq, Structural)]
pub enum ErrorCode {
    /// The market identifier is longer than [`crate::MAX_POLL_ID_LEN`] bytes.
    PollIdTooLong,
    /// The title is longer than [`crate::MAX_TITLE_LEN`] bytes.
    TitleTooLong,
    /// An option label is longer than [`crate::MAX_OPTION_TEXT_LEN`] bytes.
    OptionTextTooLong,
    /// The end time is not strictly after the current time.
    InvalidEndTime,
    /// The market is not in the `Active` state.
    PollNotActive,
    /// The market's end time has passed, so no more positions are accepted.
    PollEnded,
    /// The market's end time has not been reached, so it cannot be settled.
    PollNotEnded,
    /// The stake is outside `[MIN_BET_AMOUNT, MAX_BET_AMOUNT]`.
    InvalidBetAmount,
    /// The caller is not the required authority or owner.
    Unauthorized,
    /// The market is not settled, so winnings cannot be claimed.
    PollNotSettled,
    /// The position already went through its one claim.
    BidAlreadyClaimed,
    /// The position's option is not the market's winner.
    BidDidNotWin,
    /// The market is not cancelled, so refunds cannot be claimed.
    PollNotCancelled,
    /// The supplied position index is not the market's next free index.
    InvalidBidIndex,
    /// A checked arithmetic step would overflow.
    ArithmeticOverflow,
}

} // verus!

use vstd::prelude::*;

verus! {

/// Every way in which an operation on a lobby can be rejected. A rejected
/// operation leaves every record as it was.
#[derive(Clone, Copy, Debug, PartialEq, Eq, Structural)]
pub enum ErrorCode {
    /// A join came at or after the market's close.
    MarketClosed,
    /// The player already has a status record in this lobby.
    AlreadyJoined,
    /// The player has no deposit in this lobby.
    NotJoined,
    /// The player has already been verified.
    AlreadyVerified,
    /// A resolve or a claim came before the market's close.
    MarketNotClosed,
    /// The player has not been verified.
    NotVerified,
    /// The player has already claimed a payout.
    AlreadyClaimed,
    /// The signer is not the party that the operation requires.
    Unauthorized,
    /// A lobby was asked for with an entry fee of zero.
    InvalidEntryFee,
    /// A lobby was asked for with a close time that is not in the future.
    InvalidMarketClose,
    /// A lobby was asked for with a task description too long to store.
    DescriptionTooLong,
    /// A payout was asked for with no verified player.
    NoWinners,
    /// A payout was asked for with more verified players than players.
    InvalidWinnerCount,
    /// An amount or a count would not fit in its integer type.
    ArithmeticOverflow,
}

impl ErrorCode {
    /// The message of each error.
    pub open spec fn message_spec(&self) -> Seq<char> {
        match self {
            ErrorCode::MarketClosed => "Market has already closed"@,
            ErrorCode::AlreadyJoined => "Player has already joined this lobby"@,
            ErrorCode::NotJoined => "Player has not joined this lobby"@,
            ErrorCode::AlreadyVerified => "Player has already been verified"@,
            ErrorCode::MarketNotClosed => "Market has not closed yet"@,
            ErrorCode::NotVerified => "Player is not verified"@,
            ErrorCode::AlreadyClaimed => "Player has already claimed winnings"@,
            ErrorCode::Unauthorized => "Signer is not authorized for this operation"@,
            ErrorCode::InvalidEntryFee => "Entry fee must be positive"@,
            ErrorCode::InvalidMarketClose => "Market close must be in the future"@,
            ErrorCode::DescriptionTooLong => "Task description is too long"@,
            ErrorCode::NoWinners => "No verified player to pay out"@,
            ErrorCode::InvalidWinnerCount => "More verified players than players"@,
            ErrorCode::ArithmeticOverflow => "Arithmetic overflow"@,
        }
    }

    /// A human-readable message for the error.
    pub fn message(&self) -> (r: String)
        ensures
            r@ == self.message_spec(),
    {
        match self {
            ErrorCode::MarketClosed => String::from_str("Market has already closed"),
            ErrorCode::AlreadyJoined => String::from_str("Player has already joined this lobby"),
            ErrorCode::NotJoined => String::from_str("Player has not joined this lobby"),
            ErrorCode::AlreadyVerified => String::from_str("Player has already been verified"),
            ErrorCode::MarketNotClosed => String::from_str("Market has not closed yet"),
            ErrorCode::NotVerified => String::from_str("Player is not verified"),
            ErrorCode::AlreadyClaimed => String::from_str("Player has already claimed winnings"),
            ErrorCode::Unauthorized => String::from_str("Signer is not authorized for this operation"),
            ErrorCode::InvalidEntryFee => String::from_str("Entry fee must be positive"),
            ErrorCode::InvalidMarketClose => String::from_str("Market close must be in the future"),
            ErrorCode::DescriptionTooLong => String::from_str("Task description is too long"),
            ErrorCode::NoWinners => String::from_str("No verified player to pay out"),
            ErrorCode::InvalidWinnerCount => String::from_str("More verified players than players"),
            ErrorCode::ArithmeticOverflow => String::from_str("Arithmetic overflow"),
        }
    }
}

} // verus!

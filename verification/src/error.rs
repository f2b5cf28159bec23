use vstd::prelude::*;

verus! {

/// Why an operation was refused. A refused operation leaves every state it
/// was handed exactly as it found it.
#[derive(Clone, Copy, Debug, PartialEq, Eq, Structural)]
pub enum GameError {
    GamePaused,
    RoundNotActive,
    RoundInProgress,
    BetTooLow,
    BetTooHigh,
    RoundFull,
    NotEnoughPlayers,
    EmptyPool,
    Unauthorized,
    InvalidBetLimits,
    CommissionTooHigh,
    InvalidMaxPlayers,
    TransferFailed,
}

impl GameError {
    /// What the error says, as a sequence of characters.
    pub open spec fn text(self) -> Seq<char> {
        match self {
            GameError::GamePaused => "Game is currently paused"@,
            GameError::RoundNotActive => "Round is not active"@,
            GameError::RoundInProgress => "Round is already in progress"@,
            GameError::BetTooLow => "Bet amount is too low"@,
            GameError::BetTooHigh => "Bet amount is too high"@,
            GameError::RoundFull => "Round is full"@,
            GameError::NotEnoughPlayers => "Not enough players to resolve round"@,
            GameError::EmptyPool => "Pool is empty"@,
            GameError::Unauthorized => "Unauthorized operation"@,
            GameError::InvalidBetLimits => "Invalid bet limits"@,
            GameError::CommissionTooHigh => "Commission rate too high"@,
            GameError::InvalidMaxPlayers => "Invalid number of players"@,
            GameError::TransferFailed => "Transfer failed"@,
        }
    }

    /// What the error says.
    pub fn message(&self) -> (message: &'static str)
        ensures
            message@ == self.text(),
    {
        match self {
            GameError::GamePaused => "Game is currently paused",
            GameError::RoundNotActive => "Round is not active",
            GameError::RoundInProgress => "Round is already in progress",
            GameError::BetTooLow => "Bet amount is too low",
            GameError::BetTooHigh => "Bet amount is too high",
            GameError::RoundFull => "Round is full",
            GameError::NotEnoughPlayers => "Not enough players to resolve round",
            GameError::EmptyPool => "Pool is empty",
            GameError::Unauthorized => "Unauthorized operation",
            GameError::InvalidBetLimits => "Invalid bet limits",
            GameError::CommissionTooHigh => "Commission rate too high",
            GameError::InvalidMaxPlayers => "Invalid number of players",
            GameError::TransferFailed => "Transfer failed",
        }
    }
}

} // verus!

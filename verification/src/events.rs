use vstd::prelude::*;
use crate::identity::Identity;

verus! {

/// Notification: the configuration was created.
#[derive(Clone, Copy, Debug, PartialEq, Eq)]
pub struct GameStateInitialized {
    pub operator_wallet: Identity,
    pub min_bet: u64,
    pub max_bet: u64,
    pub max_players: u8,
    pub commission_rate: u16,
}

/// Notification: a round was opened.
#[derive(Clone, Copy, Debug, PartialEq, Eq)]
pub struct RoundCreated {
    pub round_id: u64,
    pub round_pubkey: Identity,
}

/// Notification: a bet was credited. `total_amount` is what the player has
/// staked in the round so far, this bet included.
#[derive(Clone, Copy, Debug, PartialEq, Eq)]
pub struct BetPlaced {
    pub round_id: u64,
    pub player: Identity,
    pub amount: u64,
    pub total_amount: u64,
    pub total_pool: u64,
    pub player_count: u8,
}

/// Notification: a round got its second player and can now be resolved.
#[derive(Clone, Copy, Debug, PartialEq, Eq)]
pub struct RoundActivated {
    pub round_id: u64,
    pub player_count: u8,
    pub total_pool: u64,
}

/// Notification: a round was drawn. `commission` is owed to the operator and
/// `total_to_winner` to the winner, both out of the round's vault.
#[derive(Clone, Copy, Debug, PartialEq, Eq)]
pub struct RoundResolved {
    pub round_id: u64,
    pub winner: Identity,
    pub winner_bet: u64,
    pub total_pool: u64,
    pub gross_winnings: u64,
    pub net_winnings: u64,
    pub commission: u64,
    pub total_to_winner: u64,
}

/// Notification: betting was suspended.
#[derive(Clone, Copy, Debug, PartialEq, Eq)]
pub struct GamePaused {}

/// Notification: betting was resumed.
#[derive(Clone, Copy, Debug, PartialEq, Eq)]
pub struct GameUnpaused {}

/// Notification: the bounds on a single bet were replaced.
#[derive(Clone, Copy, Debug, PartialEq, Eq)]
pub struct BetLimitsUpdated {
    pub min_bet: u64,
    pub max_bet: u64,
}

/// Notification: the commission rate was replaced.
#[derive(Clone, Copy, Debug, PartialEq, Eq)]
pub struct CommissionRateUpdated {
    pub commission_rate: u16,
}

/// Notification: a round's vault was swept to the operator.
#[derive(Clone, Copy, Debug, PartialEq, Eq)]
pub struct EmergencyWithdrawal {
    pub amount: u64,
}

} // verus!

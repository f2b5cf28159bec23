pub mod admin;
pub mod betting;
pub mod error;
pub mod events;
pub mod identity;
pub mod laws;
pub mod ledger;
pub mod resolution;
pub mod state;
pub mod validation;

pub use admin::{
    emergency_withdraw, initialize, pause_game, unpause_game, update_bet_limits,
    update_commission_rate,
};
pub use betting::{check_bet, create_round, find_player, place_bet};
pub use error::GameError;
pub use events::{
    BetLimitsUpdated, BetPlaced, CommissionRateUpdated, EmergencyWithdrawal, GamePaused,
    GameStateInitialized, GameUnpaused, RoundActivated, RoundCreated, RoundResolved,
};
pub use identity::Identity;
pub use resolution::{
    compute_payout, plan_resolution, resolve_round, select_weighted_winner, Payout,
};
pub use state::{GameState, PlayerBet, Round, RoundStatus, RoundView, Stake};

use vstd::prelude::*;
use crate::error::GameError;
use crate::events::{
    BetLimitsUpdated, CommissionRateUpdated, EmergencyWithdrawal, GamePaused,
    GameStateInitialized, GameUnpaused,
};
use crate::identity::Identity;
use crate::state::{GameState, MAX_COMMISSION_RATE, MAX_PLAYERS_PER_ROUND};

verus! {

/// Why a configuration with these values cannot be, if it cannot: the bet
/// limits are tested first, then the commission, then the capacity.
pub open spec fn configuration_error(
    min_bet: u64,
    max_bet: u64,
    max_players: u8,
    commission_rate: u16,
) -> Option<GameError> {
    if min_bet >= max_bet {
        Some(GameError::InvalidBetLimits)
    } else if commission_rate > MAX_COMMISSION_RATE {
        Some(GameError::CommissionTooHigh)
    } else if max_players < 2 || max_players > MAX_PLAYERS_PER_ROUND {
        Some(GameError::InvalidMaxPlayers)
    } else {
        None
    }
}

/// Creates the configuration: not paused, no round counted, none open.
pub fn initialize(
    operator_wallet: Identity,
    min_bet: u64,
    max_bet: u64,
    max_players: u8,
    commission_rate: u16,
) -> (result: Result<(GameState, GameStateInitialized), GameError>)
    ensures
        match result {
            Ok((state, event)) => {
                &&& configuration_error(min_bet, max_bet, max_players, commission_rate) is None
                &&& state == (GameState {
                    operator_wallet,
                    min_bet,
                    max_bet,
                    max_players,
                    commission_rate,
                    is_paused: false,
                    round_count: 0,
                    current_round: None,
                })
                &&& state.wf()
                &&& event == (GameStateInitialized {
                    operator_wallet,
                    min_bet,
                    max_bet,
                    max_players,
                    commission_rate,
                })
            },
            Err(error) => configuration_error(min_bet, max_bet, max_players, commission_rate)
                == Some(error),
        },
{
    if min_bet >= max_bet {
        return Err(GameError::InvalidBetLimits);
    }
    if commission_rate > MAX_COMMISSION_RATE {
        return Err(GameError::CommissionTooHigh);
    }
    if max_players < 2 || max_players > MAX_PLAYERS_PER_ROUND {
        return Err(GameError::InvalidMaxPlayers);
    }
    let state = GameState {
        operator_wallet,
        min_bet,
        max_bet,
        max_players,
        commission_rate,
        is_paused: false,
        round_count: 0,
        current_round: None,
    };
    let event = GameStateInitialized {
        operator_wallet,
        min_bet,
        max_bet,
        max_players,
        commission_rate,
    };
    Ok((state, event))
}

/// Suspends betting and the opening of rounds. Only the operator may.
pub fn pause_game(game_state: &mut GameState, authority: &Identity) -> (result: Result<
    GamePaused,
    GameError,
>)
    ensures
        match result {
            Ok(_) => {
                &&& *authority == old(game_state).operator_wallet
                &&& *final(game_state) == (GameState { is_paused: true, ..*old(game_state) })
            },
            Err(error) => {
                &&& error == GameError::Unauthorized
                &&& *authority != old(game_state).operator_wallet
                &&& *final(game_state) == *old(game_state)
            },
        },
        old(game_state).wf() ==> final(game_state).wf(),
{
    if !authority.same(&game_state.operator_wallet) {
        return Err(GameError::Unauthorized);
    }
    game_state.is_paused = true;
    Ok(GamePaused {  })
}

/// Resumes betting and the opening of rounds. Only the operator may.
pub fn unpause_game(game_state: &mut GameState, authority: &Identity) -> (result: Result<
    GameUnpaused,
    GameError,
>)
    ensures
        match result {
            Ok(_) => {
                &&& *authority == old(game_state).operator_wallet
                &&& *final(game_state) == (GameState { is_paused: false, ..*old(game_state) })
            },
            Err(error) => {
                &&& error == GameError::Unauthorized
                &&& *authority != old(game_state).operator_wallet
                &&& *final(game_state) == *old(game_state)
            },
        },
        old(game_state).wf() ==> final(game_state).wf(),
{
    if !authority.same(&game_state.operator_wallet) {
        return Err(GameError::Unauthorized);
    }
    game_state.is_paused = false;
    Ok(GameUnpaused {  })
}

/// Why `authority` may not set these bet limits, if it may not: that it is
/// the operator is tested first.
pub open spec fn bet_limits_error(
    game_state: GameState,
    authority: Identity,
    min_bet: u64,
    max_bet: u64,
) -> Option<GameError> {
    if authority != game_state.operator_wallet {
        Some(GameError::Unauthorized)
    } else if min_bet >= max_bet {
        Some(GameError::InvalidBetLimits)
    } else {
        None
    }
}

/// Replaces the bounds on a single bet. Only the operator may, and the lower
/// bound stays below the upper.
pub fn update_bet_limits(
    game_state: &mut GameState,
    authority: &Identity,
    min_bet: u64,
    max_bet: u64,
) -> (result: Result<BetLimitsUpdated, GameError>)
    ensures
        match result {
            Ok(event) => {
                &&& bet_limits_error(*old(game_state), *authority, min_bet, max_bet) is None
                &&& *final(game_state) == (GameState { min_bet, max_bet, ..*old(game_state) })
                &&& event == (BetLimitsUpdated { min_bet, max_bet })
            },
            Err(error) => {
                &&& bet_limits_error(*old(game_state), *authority, min_bet, max_bet) == Some(
                    error,
                )
                &&& *final(game_state) == *old(game_state)
            },
        },
        old(game_state).wf() ==> final(game_state).wf(),
{
    if !authority.same(&game_state.operator_wallet) {
        return Err(GameError::Unauthorized);
    }
    if min_bet >= max_bet {
        return Err(GameError::InvalidBetLimits);
    }
    game_state.min_bet = min_bet;
    game_state.max_bet = max_bet;
    Ok(BetLimitsUpdated { min_bet, max_bet })
}

/// Why `authority` may not set this commission rate, if it may not: that it
/// is the operator is tested first.
pub open spec fn commission_rate_error(
    game_state: GameState,
    authority: Identity,
    commission_rate: u16,
) -> Option<GameError> {
    if authority != game_state.operator_wallet {
        Some(GameError::Unauthorized)
    } else if commission_rate > MAX_COMMISSION_RATE {
        Some(GameError::CommissionTooHigh)
    } else {
        None
    }
}

/// Replaces the commission rate. Only the operator may, and the rate stays
/// at or below the highest allowed.
pub fn update_commission_rate(
    game_state: &mut GameState,
    authority: &Identity,
    commission_rate: u16,
) -> (result: Result<CommissionRateUpdated, GameError>)
    ensures
        match result {
            Ok(event) => {
                &&& commission_rate_error(*old(game_state), *authority, commission_rate) is None
                &&& *final(game_state) == (GameState { commission_rate, ..*old(game_state) })
                &&& event == (CommissionRateUpdated { commission_rate })
            },
            Err(error) => {
                &&& commission_rate_error(*old(game_state), *authority, commission_rate)
                    == Some(error)
                &&& *final(game_state) == *old(game_state)
            },
        },
        old(game_state).wf() ==> final(game_state).wf(),
{
    if !authority.same(&game_state.operator_wallet) {
        return Err(GameError::Unauthorized);
    }
    if commission_rate > MAX_COMMISSION_RATE {
        return Err(GameError::CommissionTooHigh);
    }
    game_state.commission_rate = commission_rate;
    Ok(CommissionRateUpdated { commission_rate })
}

/// Decides an emergency sweep of a round's vault, which holds
/// `vault_balance`. Only the operator may; the operator is then owed the
/// whole balance, whatever state the round is in. No round and no
/// configuration is changed by it: the round's pool, bets and status stay as
/// they were, whatever the vault then holds.
pub fn emergency_withdraw(game_state: &GameState, authority: &Identity, vault_balance: u64) -> (result:
    Result<EmergencyWithdrawal, GameError>)
    ensures
        match result {
            Ok(event) => {
                &&& *authority == game_state.operator_wallet
                &&& event == (EmergencyWithdrawal { amount: vault_balance })
            },
            Err(error) => {
                &&& error == GameError::Unauthorized
                &&& *authority != game_state.operator_wallet
            },
        },
{
    if !authority.same(&game_state.operator_wallet) {
        return Err(GameError::Unauthorized);
    }
    Ok(EmergencyWithdrawal { amount: vault_balance })
}

} // verus!

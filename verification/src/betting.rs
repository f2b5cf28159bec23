use vstd::prelude::*;
use crate::error::GameError;
use crate::events::{BetPlaced, RoundActivated, RoundCreated};
use crate::identity::Identity;
use crate::laws::law_bet_keeps_round_valid;
use crate::ledger::{has_player, lemma_stake_at_most_total, slot_of};
use crate::state::{stakes_of, GameState, PlayerBet, Round, RoundStatus, RoundView};

verus! {

/// Why a round cannot be opened under `game_state`, if it cannot.
pub open spec fn opening_error(game_state: GameState) -> Option<GameError> {
    if game_state.is_paused {
        Some(GameError::GamePaused)
    } else if game_state.current_round is Some {
        Some(GameError::RoundInProgress)
    } else {
        None
    }
}

/// Opens a round, to be stored under `round_key`, at time `now`. The round
/// gets the next number, has no bets and waits for players, and the
/// configuration points to it. No round is opened while the lottery is
/// paused or another round is open.
pub fn create_round(game_state: &mut GameState, round_key: Identity, now: i64) -> (result: Result<
    (Round, RoundCreated),
    GameError,
>)
    requires
        old(game_state).round_count < u64::MAX,
    ensures
        match result {
            Ok((round, event)) => {
                &&& opening_error(*old(game_state)) is None
                &&& *final(game_state) == old(game_state).with_round_opened(round_key)
                &&& round@ == RoundView::opened(final(game_state).round_count, now)
                &&& round.wf()
                &&& round.within_capacity(final(game_state))
                &&& event == (RoundCreated { round_id: round.round_id, round_pubkey: round_key })
            },
            Err(error) => {
                &&& opening_error(*old(game_state)) == Some(error)
                &&& *final(game_state) == *old(game_state)
            },
        },
        old(game_state).wf() ==> final(game_state).wf(),
{
    if game_state.is_paused {
        return Err(GameError::GamePaused);
    }
    if game_state.current_round.is_some() {
        return Err(GameError::RoundInProgress);
    }
    game_state.round_count = game_state.round_count + 1;
    game_state.current_round = Some(round_key);
    let round = Round {
        round_id: game_state.round_count,
        status: RoundStatus::WaitingForPlayers,
        total_pool: 0,
        player_count: 0,
        players: Vec::new(),
        created_at: now,
        resolved_at: None,
        winner: None,
    };
    assert(round@.stakes =~= Seq::empty());
    let event = RoundCreated { round_id: round.round_id, round_pubkey: round_key };
    Ok((round, event))
}

/// Where the bet of `player` stands in `players`: the first place that holds
/// one, if any does.
pub fn find_player(players: &Vec<PlayerBet>, player: &Identity) -> (found: Option<usize>)
    ensures
        match found {
            Some(slot) => {
                &&& slot < players.len()
                &&& players[slot as int].player == *player
                &&& forall|j: int| 0 <= j < slot ==> players[j].player != *player
            },
            None => forall|j: int| 0 <= j < players.len() ==> players[j].player != *player,
        },
        found is Some == has_player(stakes_of(players@), *player),
{
    let mut i: usize = 0;
    while i < players.len()
        invariant
            i <= players.len(),
            forall|j: int| 0 <= j < i ==> players[j].player != *player,
        decreases players.len() - i,
    {
        if players[i].player.same(player) {
            assert(stakes_of(players@)[i as int].player == *player);
            return Some(i);
        }
        i += 1;
    }
    None
}

/// Why a bet of `amount` by `player` is not taken in `round` under
/// `game_state`, if it is not. The tests are made in this order: the lottery
/// is not paused; the round takes bets; the amount is within the limits on a
/// single bet, whatever the player has staked before; and a player who has
/// no stake in the round finds a free place.
pub open spec fn bet_error(
    game_state: GameState,
    round: RoundView,
    player: Identity,
    amount: u64,
) -> Option<GameError> {
    if game_state.is_paused {
        Some(GameError::GamePaused)
    } else if !round.status.accepts_bets() {
        Some(GameError::RoundNotActive)
    } else if amount < game_state.min_bet {
        Some(GameError::BetTooLow)
    } else if amount > game_state.max_bet {
        Some(GameError::BetTooHigh)
    } else if !has_player(round.stakes, player) && round.stakes.len() >= game_state.max_players {
        Some(GameError::RoundFull)
    } else {
        None
    }
}

/// Decides whether a bet of `amount` by `player` can be taken in `round`.
/// Where it can, `amount` is to be moved from the player into the round's
/// vault, and `place_bet` told how that went.
pub fn check_bet(game_state: &GameState, round: &Round, player: &Identity, amount: u64) -> (result:
    Result<(), GameError>)
    ensures
        match result {
            Ok(_) => bet_error(*game_state, round@, *player, amount) is None,
            Err(error) => bet_error(*game_state, round@, *player, amount) == Some(error),
        },
{
    if game_state.is_paused {
        return Err(GameError::GamePaused);
    }
    match round.status {
        RoundStatus::WaitingForPlayers | RoundStatus::Active => {},
        _ => {
            return Err(GameError::RoundNotActive);
        },
    }
    if amount < game_state.min_bet {
        return Err(GameError::BetTooLow);
    }
    if amount > game_state.max_bet {
        return Err(GameError::BetTooHigh);
    }
    if find_player(&round.players, player).is_none() && round.players.len()
        >= game_state.max_players as usize {
        return Err(GameError::RoundFull);
    }
    Ok(())
}

/// Why a bet is not credited, if it is not: for one of the reasons that
/// `bet_error` gives, or else because the player's money did not reach the
/// round's vault.
pub open spec fn placement_error(
    game_state: GameState,
    round: RoundView,
    player: Identity,
    amount: u64,
    transfer_completed: bool,
) -> Option<GameError> {
    if bet_error(game_state, round, player, amount) is Some {
        bet_error(game_state, round, player, amount)
    } else if !transfer_completed {
        Some(GameError::TransferFailed)
    } else {
        None
    }
}

/// Credits a bet of `amount` by `player` to `round`, once the transfer of
/// `amount` into the round's vault has been tried: `transfer_completed` says
/// whether the money arrived. The bet is credited when `check_bet` accepts
/// it and the money arrived; the round is then as `with_bet` says, and
/// otherwise as it was. The first notification reports the bet, the second
/// that this bet made the round active.
pub fn place_bet(
    game_state: &GameState,
    round: &mut Round,
    player: Identity,
    amount: u64,
    transfer_completed: bool,
) -> (result: Result<(BetPlaced, Option<RoundActivated>), GameError>)
    requires
        game_state.wf(),
        old(round).wf(),
        old(round).total_pool + amount <= u64::MAX,
    ensures
        final(round).wf(),
        old(round).status.may_become(final(round).status),
        old(round).within_capacity(game_state) ==> final(round).within_capacity(game_state),
        match result {
            Ok((placed, activated)) => {
                &&& placement_error(*game_state, old(round)@, player, amount, transfer_completed)
                    is None
                &&& final(round)@ == old(round)@.with_bet(player, amount as nat)
                &&& placed.round_id == old(round).round_id
                &&& placed.player == player
                &&& placed.amount == amount
                &&& placed.total_amount == final(round)@.stake_of(player)
                &&& placed.total_pool == final(round).total_pool
                &&& placed.player_count == final(round).player_count
                &&& activated == if old(round).status != final(round).status {
                    Some(
                        RoundActivated {
                            round_id: old(round).round_id,
                            player_count: final(round).player_count,
                            total_pool: final(round).total_pool,
                        },
                    )
                } else {
                    None
                }
            },
            Err(error) => {
                &&& placement_error(*game_state, old(round)@, player, amount, transfer_completed)
                    == Some(error)
                &&& *final(round) == *old(round)
            },
        },
{
    match check_bet(game_state, round, &player, amount) {
        Err(error) => {
            return Err(error);
        },
        Ok(_) => {},
    }
    if !transfer_completed {
        return Err(GameError::TransferFailed);
    }
    let ghost before = round@;
    proof {
        law_bet_keeps_round_valid(before, player, amount as nat);
    }
    let total_amount: u64;
    match find_player(&round.players, &player) {
        Some(slot) => {
            let bet = round.players[slot];
            proof {
                assert(before.stakes[slot as int].player == player);
                assert(slot_of(before.stakes, player) == slot as int);
                lemma_stake_at_most_total(before.stakes, slot as int);
            }
            total_amount = bet.bet_amount + amount;
            round.players.set(slot, PlayerBet { player: bet.player, bet_amount: total_amount });
            assert(stakes_of(round.players@) =~= before.with_bet(player, amount as nat).stakes);
        },
        None => {
            total_amount = amount;
            round.players.push(PlayerBet { player, bet_amount: amount });
            round.player_count = round.player_count + 1;
            assert(stakes_of(round.players@) =~= before.with_bet(player, amount as nat).stakes);
        },
    }
    round.total_pool = round.total_pool + amount;
    let mut activated: Option<RoundActivated> = None;
    if round.status == RoundStatus::WaitingForPlayers && round.player_count >= 2 {
        round.status = RoundStatus::Active;
        activated = Some(
            RoundActivated {
                round_id: round.round_id,
                player_count: round.player_count,
                total_pool: round.total_pool,
            },
        );
    }
    let placed = BetPlaced {
        round_id: round.round_id,
        player,
        amount,
        total_amount,
        total_pool: round.total_pool,
        player_count: round.player_count,
    };
    Ok((placed, activated))
}

} // verus!

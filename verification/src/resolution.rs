use vstd::prelude::*;
use crate::error::GameError;
use crate::events::RoundResolved;
use crate::ledger::{
    commission_of, drawn_slot, has_player, is_drawn, lemma_drawn_slot_unique,
    lemma_stake_at_most_total, lemma_staked_before_monotone, lemma_staked_before_step,
    staked_before,
};
use crate::state::{GameState, Round, RoundStatus, RoundView, Stake, BASIS_POINTS};

verus! {

/// Picks the winner of `round` from `random_seed`. The seed is reduced to a
/// number below the pool; the players are gone through in the order in which
/// they joined, their stakes being added up, and the first player at whom the
/// sum exceeds that number wins. So each player wins for as many of the
/// numbers below the pool as the player has staked.
pub fn select_weighted_winner(round: &Round, random_seed: u64) -> (result: Result<usize, GameError>)
    requires
        round.wf(),
    ensures
        match result {
            Ok(slot) => {
                &&& round.player_count > 0
                &&& round.total_pool > 0
                &&& is_drawn(round@.stakes, round@.draw(random_seed), slot as int)
                &&& slot as int == drawn_slot(round@.stakes, round@.draw(random_seed))
            },
            Err(error) => {
                &&& error == GameError::EmptyPool
                &&& (round.player_count == 0 || round.total_pool == 0)
            },
        },
{
    if round.player_count == 0 || round.total_pool == 0 {
        return Err(GameError::EmptyPool);
    }
    let random_value = random_seed % round.total_pool;
    let ghost stakes = round@.stakes;
    let ghost draw = round@.draw(random_seed);
    let mut cumulative_sum: u64 = 0;
    let mut index: usize = 0;
    proof {
        lemma_staked_before_step(stakes, 0);
    }
    while index < round.players.len()
        invariant
            round.wf(),
            round.player_count > 0,
            round.total_pool > 0,
            stakes == round@.stakes,
            draw == round@.draw(random_seed),
            draw == random_value,
            draw < round.total_pool,
            index <= round.players.len(),
            cumulative_sum == staked_before(stakes, index as int),
            cumulative_sum <= draw,
        decreases round.players.len() - index,
    {
        proof {
            lemma_staked_before_step(stakes, index as int);
            lemma_staked_before_monotone(stakes, index + 1, stakes.len() as int);
        }
        cumulative_sum = cumulative_sum + round.players[index].bet_amount;
        if random_value < cumulative_sum {
            proof {
                assert(is_drawn(stakes, draw, index as int));
                lemma_drawn_slot_unique(stakes, draw, index as int, drawn_slot(stakes, draw));
            }
            return Ok(index);
        }
        index += 1;
    }
    // The stakes add up to the pool, which is more than the number drawn, so
    // the loop has returned. The last player stands in for a sum that falls
    // short of the pool.
    proof {
        lemma_staked_before_step(stakes, 0);
        assert(cumulative_sum == round.total_pool);
    }
    Ok(round.players.len() - 1)
}

/// How a resolved round's pool is shared out.
#[derive(Clone, Copy, Debug, PartialEq, Eq)]
pub struct Payout {
    /// What the other players staked.
    pub gross_winnings: u64,
    /// The operator's share of the gross winnings.
    pub commission: u64,
    /// The gross winnings less the commission.
    pub net_winnings: u64,
    /// The winner's own stake and the net winnings.
    pub total_to_winner: u64,
}

/// Shares out a pool of `total_pool`, to which the winner staked
/// `winner_bet`, at a commission of `commission_rate` basis points. The
/// commission is taken from what the others staked, rounded down, never from
/// the winner's own stake; commission and payment to the winner together
/// are the pool.
pub fn compute_payout(total_pool: u64, winner_bet: u64, commission_rate: u16) -> (payout: Payout)
    requires
        winner_bet <= total_pool,
        commission_rate <= BASIS_POINTS,
    ensures
        payout.gross_winnings == total_pool - winner_bet,
        payout.commission == commission_of(
            (total_pool - winner_bet) as nat,
            commission_rate as nat,
        ),
        payout.net_winnings == payout.gross_winnings - payout.commission,
        payout.total_to_winner == winner_bet + payout.net_winnings,
        payout.commission + payout.total_to_winner == total_pool,
{
    let gross_winnings = total_pool - winner_bet;
    let gross: u128 = gross_winnings as u128;
    let rate: u128 = commission_rate as u128;
    assert(gross * rate <= gross * 10000 <= 0xffff_ffff_ffff_ffff * 10000) by (nonlinear_arith)
        requires
            0 <= gross <= 0xffff_ffff_ffff_ffff,
            0 <= rate <= 10000,
    ;
    let scaled: u128 = gross * rate;
    assert(scaled / 10000 <= gross) by (nonlinear_arith)
        requires
            0 <= scaled <= gross * 10000,
    ;
    let commission = (scaled / 10000) as u64;
    let net_winnings = gross_winnings - commission;
    let total_to_winner = winner_bet + net_winnings;
    Payout { gross_winnings, commission, net_winnings, total_to_winner }
}

/// Why `round` cannot be drawn, if it cannot: it must be active, have two
/// players at least, and a pool that is not empty.
pub open spec fn resolution_error(round: RoundView) -> Option<GameError> {
    if round.status != RoundStatus::Active {
        Some(GameError::RoundNotActive)
    } else if round.stakes.len() < 2 {
        Some(GameError::NotEnoughPlayers)
    } else if round.total_pool == 0 {
        Some(GameError::EmptyPool)
    } else {
        None
    }
}

/// Whether `event` reports the drawing of `round` from `random_seed` at a
/// commission of `commission_rate` basis points: the winner is the player
/// whose stake the seed draws, and the pool is shared out between the winner
/// and the operator as `compute_payout` says.
pub open spec fn settles(
    event: RoundResolved,
    round: RoundView,
    commission_rate: u16,
    random_seed: u64,
) -> bool {
    let stake = round.stakes[drawn_slot(round.stakes, round.draw(random_seed))];
    let gross = (round.total_pool - stake.amount) as nat;
    let commission = commission_of(gross, commission_rate as nat);
    &&& event.round_id == round.round_id
    &&& event.winner == stake.player
    &&& event.winner_bet == stake.amount
    &&& event.total_pool == round.total_pool
    &&& event.gross_winnings == gross
    &&& event.commission == commission
    &&& event.net_winnings == gross - commission
    &&& event.total_to_winner == stake.amount + gross - commission
    &&& event.commission + event.total_to_winner == round.total_pool
}

/// Decides the drawing of `round` from `random_seed` without changing
/// anything. Where the round can be drawn, the notification names the winner
/// and the two payments to be made out of the round's vault: `commission` to
/// the operator and `total_to_winner` to the winner. `resolve_round` is then
/// told how the payments went.
pub fn plan_resolution(game_state: &GameState, round: &Round, random_seed: u64) -> (result: Result<
    RoundResolved,
    GameError,
>)
    requires
        game_state.wf(),
        round.wf(),
    ensures
        match result {
            Ok(event) => {
                &&& resolution_error(round@) is None
                &&& settles(event, round@, game_state.commission_rate, random_seed)
                &&& has_player(round@.stakes, event.winner)
            },
            Err(error) => resolution_error(round@) == Some(error),
        },
{
    match round.status {
        RoundStatus::Active => {},
        _ => {
            return Err(GameError::RoundNotActive);
        },
    }
    if round.player_count < 2 {
        return Err(GameError::NotEnoughPlayers);
    }
    if round.total_pool == 0 {
        return Err(GameError::EmptyPool);
    }
    let winner_index = match select_weighted_winner(round, random_seed) {
        Ok(slot) => slot,
        Err(error) => {
            return Err(error);
        },
    };
    let winner = round.players[winner_index].player;
    let winner_bet_amount = round.players[winner_index].bet_amount;
    proof {
        lemma_stake_at_most_total(round@.stakes, winner_index as int);
        assert(round@.stakes[winner_index as int].player == winner);
    }
    let payout = compute_payout(round.total_pool, winner_bet_amount, game_state.commission_rate);
    Ok(
        RoundResolved {
            round_id: round.round_id,
            winner,
            winner_bet: winner_bet_amount,
            total_pool: round.total_pool,
            gross_winnings: payout.gross_winnings,
            net_winnings: payout.net_winnings,
            commission: payout.commission,
            total_to_winner: payout.total_to_winner,
        },
    )
}

/// Why a round is not resolved, if it is not: for one of the reasons that
/// `resolution_error` gives, or else because the payments out of the round's
/// vault were not both made.
pub open spec fn settlement_error(round: RoundView, transfers_completed: bool) -> Option<
    GameError,
> {
    if resolution_error(round) is Some {
        resolution_error(round)
    } else if !transfers_completed {
        Some(GameError::TransferFailed)
    } else {
        None
    }
}

/// Resolves `round` at time `now`, once the two payments that
/// `plan_resolution` names for `random_seed` have been tried:
/// `transfers_completed` says whether both were made. Where the round can be
/// drawn and they were, the round is resolved with its winner, and the
/// configuration points to no round any more, so that the next can be opened.
/// Otherwise round and configuration are as they were.
pub fn resolve_round(
    game_state: &mut GameState,
    round: &mut Round,
    random_seed: u64,
    now: i64,
    transfers_completed: bool,
) -> (result: Result<RoundResolved, GameError>)
    requires
        old(game_state).wf(),
        old(round).wf(),
    ensures
        final(game_state).wf(),
        final(round).wf(),
        old(round).status.may_become(final(round).status),
        old(round).within_capacity(old(game_state)) ==> final(round).within_capacity(
            final(game_state),
        ),
        match result {
            Ok(event) => {
                &&& settlement_error(old(round)@, transfers_completed) is None
                &&& settles(event, old(round)@, old(game_state).commission_rate, random_seed)
                &&& final(round)@ == old(round)@.resolved(event.winner, now)
                &&& *final(game_state) == old(game_state).with_round_closed()
            },
            Err(error) => {
                &&& settlement_error(old(round)@, transfers_completed) == Some(error)
                &&& *final(round) == *old(round)
                &&& *final(game_state) == *old(game_state)
            },
        },
{
    let event = match plan_resolution(game_state, round, random_seed) {
        Ok(event) => event,
        Err(error) => {
            return Err(error);
        },
    };
    if !transfers_completed {
        return Err(GameError::TransferFailed);
    }
    round.winner = Some(event.winner);
    round.status = RoundStatus::Resolved;
    round.resolved_at = Some(now);
    game_state.current_round = None;
    Ok(event)
}

} // verus!

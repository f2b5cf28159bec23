use vstd::prelude::*;
use crate::betting::find_player;
use crate::ledger::{distinct_players, lemma_staked_before_step, staked_before, total_staked};
use crate::state::{
    stakes_of, GameState, PlayerBet, Round, RoundStatus, MAX_COMMISSION_RATE,
    MAX_PLAYERS_PER_ROUND,
};

verus! {

impl GameState {
    /// Whether this is a valid configuration. One that was read from storage
    /// is to be tested before it is handed to an operation that asks for a
    /// valid one.
    pub fn is_valid(&self) -> (valid: bool)
        ensures
            valid == self.wf(),
    {
        self.min_bet < self.max_bet && 1 < self.max_players && self.max_players
            <= MAX_PLAYERS_PER_ROUND && self.commission_rate <= MAX_COMMISSION_RATE
    }
}

/// Whether no player has two bets in `players`.
fn all_distinct(players: &Vec<PlayerBet>) -> (distinct: bool)
    ensures
        distinct == distinct_players(stakes_of(players@)),
{
    let ghost stakes = stakes_of(players@);
    let mut i: usize = 0;
    while i < players.len()
        invariant
            i <= players.len(),
            stakes == stakes_of(players@),
            forall|a: int, b: int|
                0 <= a < b < i ==> (#[trigger] stakes[a]).player != (#[trigger] stakes[b]).player,
        decreases players.len() - i,
    {
        match find_player(players, &players[i].player) {
            Some(first) => {
                if first != i {
                    assert(stakes[first as int].player == stakes[i as int].player);
                    return false;
                }
            },
            None => {
                return false;
            },
        }
        i += 1;
    }
    true
}

/// Whether the bets in `players` add up to `total_pool`.
fn adds_up_to(players: &Vec<PlayerBet>, total_pool: u64) -> (equal: bool)
    requires
        players.len() <= MAX_PLAYERS_PER_ROUND,
    ensures
        equal == (total_pool == total_staked(stakes_of(players@))),
{
    let ghost stakes = stakes_of(players@);
    let mut sum: u128 = 0;
    let mut i: usize = 0;
    while i < players.len()
        invariant
            i <= players.len() <= MAX_PLAYERS_PER_ROUND,
            stakes == stakes_of(players@),
            sum == staked_before(stakes, i as int),
            sum <= i * u64::MAX,
        decreases players.len() - i,
    {
        proof {
            lemma_staked_before_step(stakes, i as int);
        }
        sum = sum + players[i].bet_amount as u128;
        i += 1;
    }
    proof {
        assert(stakes.take(stakes.len() as int) =~= stakes);
    }
    sum == total_pool as u128
}

impl Round {
    /// Whether this is a valid round. One that was read from storage is to
    /// be tested before it is handed to an operation that asks for a valid
    /// one.
    pub fn is_valid(&self) -> (valid: bool)
        ensures
            valid == self.wf(),
    {
        if self.players.len() > MAX_PLAYERS_PER_ROUND as usize {
            return false;
        }
        if self.player_count as usize != self.players.len() {
            return false;
        }
        if !adds_up_to(&self.players, self.total_pool) {
            return false;
        }
        if !all_distinct(&self.players) {
            return false;
        }
        let resolved = match self.status {
            RoundStatus::Resolved => true,
            _ => false,
        };
        if self.resolved_at.is_some() != resolved {
            return false;
        }
        match &self.winner {
            Some(winner) => resolved && find_player(&self.players, winner).is_some(),
            None => !resolved,
        }
    }
}

} // verus!

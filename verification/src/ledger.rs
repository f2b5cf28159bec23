use vstd::prelude::*;
use crate::identity::Identity;
use crate::state::{RoundStatus, RoundView, Stake, MAX_PLAYERS_PER_ROUND};

verus! {

/// The sum of all stakes in the list.
pub open spec fn total_staked(stakes: Seq<Stake>) -> nat
    decreases stakes.len(),
{
    if stakes.len() == 0 {
        0
    } else {
        total_staked(stakes.drop_last()) + stakes.last().amount
    }
}

/// The sum of the first `k` stakes in the list.
pub open spec fn staked_before(stakes: Seq<Stake>, k: int) -> nat {
    total_staked(stakes.take(k))
}

/// Whether `player` has a stake in the list.
pub open spec fn has_player(stakes: Seq<Stake>, player: Identity) -> bool {
    exists|i: int| 0 <= i < stakes.len() && (#[trigger] stakes[i]).player == player
}

/// Whether no player has two stakes in the list.
pub open spec fn distinct_players(stakes: Seq<Stake>) -> bool {
    forall|i: int, j: int|
        0 <= i < j < stakes.len() ==> (#[trigger] stakes[i]).player != (#[trigger] stakes[j]).player
}

/// Where the stake of `player` stands in the list, if the player has one.
pub open spec fn slot_of(stakes: Seq<Stake>, player: Identity) -> int {
    choose|i: int| 0 <= i < stakes.len() && (#[trigger] stakes[i]).player == player
}

/// Whether the stake at `slot` wins when `draw` is drawn: each stake covers
/// as many consecutive numbers as it is worth, the first stake from 0 on,
/// and the winner is the one whose numbers hold `draw`. That is the first
/// stake at which the running sum exceeds `draw`.
pub open spec fn is_drawn(stakes: Seq<Stake>, draw: nat, slot: int) -> bool {
    &&& 0 <= slot < stakes.len()
    &&& staked_before(stakes, slot) <= draw < staked_before(stakes, slot + 1)
}

/// The slot that wins when `draw` is drawn.
pub open spec fn drawn_slot(stakes: Seq<Stake>, draw: nat) -> int {
    choose|slot: int| is_drawn(stakes, draw, slot)
}

/// The operator's share of `gross_winnings` at `commission_rate` basis
/// points, rounded down.
pub open spec fn commission_of(gross_winnings: nat, commission_rate: nat) -> nat {
    gross_winnings * commission_rate / 10000
}

impl RoundView {
    /// What holds of every round: it is within the hard limit on players, no
    /// player has two stakes, the pool is the sum of the stakes, and it has a
    /// winner and a time of resolution exactly when it is resolved, the
    /// winner being one of its players.
    pub open spec fn wf(self) -> bool {
        &&& self.stakes.len() <= MAX_PLAYERS_PER_ROUND
        &&& distinct_players(self.stakes)
        &&& self.total_pool == total_staked(self.stakes)
        &&& (self.winner is Some) == (self.status == RoundStatus::Resolved)
        &&& (self.resolved_at is Some) == (self.status == RoundStatus::Resolved)
        &&& (self.winner matches Some(w) ==> has_player(self.stakes, w))
    }

    /// The round with number `round_id` as it is opened at time `now`: it
    /// waits for players and has no bets.
    pub open spec fn opened(round_id: u64, now: i64) -> RoundView {
        RoundView {
            round_id,
            status: RoundStatus::WaitingForPlayers,
            total_pool: 0,
            stakes: Seq::empty(),
            created_at: now,
            resolved_at: None,
            winner: None,
        }
    }

    /// What `player` has staked in the round so far.
    pub open spec fn stake_of(self, player: Identity) -> nat {
        if has_player(self.stakes, player) {
            self.stakes[slot_of(self.stakes, player)].amount
        } else {
            0
        }
    }

    /// The round after `player` has staked `amount` more: the stake is added
    /// to the one the player has, or joins the list at its end; the pool
    /// grows by it; and a waiting round that now has two players is active.
    pub open spec fn with_bet(self, player: Identity, amount: nat) -> RoundView {
        let stakes = if has_player(self.stakes, player) {
            let slot = slot_of(self.stakes, player);
            self.stakes.update(slot, Stake { player, amount: self.stakes[slot].amount + amount })
        } else {
            self.stakes.push(Stake { player, amount })
        };
        RoundView {
            stakes,
            total_pool: self.total_pool + amount,
            status: if self.status == RoundStatus::WaitingForPlayers && stakes.len() >= 2 {
                RoundStatus::Active
            } else {
                self.status
            },
            ..self
        }
    }

    /// The number that `random_seed` draws from a pool that is not empty.
    pub open spec fn draw(self, random_seed: u64) -> nat {
        (random_seed as nat) % self.total_pool
    }

    /// The round after `winner` has been drawn at time `now`.
    pub open spec fn resolved(self, winner: Identity, now: i64) -> RoundView {
        RoundView {
            status: RoundStatus::Resolved,
            winner: Some(winner),
            resolved_at: Some(now),
            ..self
        }
    }
}

/// A stake added at the end adds its amount to the sum.
pub proof fn lemma_total_staked_push(stakes: Seq<Stake>, stake: Stake)
    ensures
        total_staked(stakes.push(stake)) == total_staked(stakes) + stake.amount,
{
    assert(stakes.push(stake).drop_last() =~= stakes);
}

/// A stake replaced changes the sum by the difference of the two amounts.
pub proof fn lemma_total_staked_update(stakes: Seq<Stake>, slot: int, stake: Stake)
    requires
        0 <= slot < stakes.len(),
    ensures
        total_staked(stakes.update(slot, stake)) + stakes[slot].amount == total_staked(stakes)
            + stake.amount,
    decreases stakes.len(),
{
    let updated = stakes.update(slot, stake);
    if slot == stakes.len() - 1 {
        assert(updated.drop_last() =~= stakes.drop_last());
    } else {
        assert(updated.drop_last() =~= stakes.drop_last().update(slot, stake));
        lemma_total_staked_update(stakes.drop_last(), slot, stake);
    }
}

/// No stake is more than the sum of all.
pub proof fn lemma_stake_at_most_total(stakes: Seq<Stake>, slot: int)
    requires
        0 <= slot < stakes.len(),
    ensures
        stakes[slot].amount <= total_staked(stakes),
    decreases stakes.len(),
{
    if slot < stakes.len() - 1 {
        lemma_stake_at_most_total(stakes.drop_last(), slot);
    }
}

/// The running sum grows by each stake in turn, from 0 to the sum of all.
pub proof fn lemma_staked_before_step(stakes: Seq<Stake>, k: int)
    requires
        0 <= k < stakes.len(),
    ensures
        staked_before(stakes, 0) == 0,
        staked_before(stakes, k + 1) == staked_before(stakes, k) + stakes[k].amount,
        staked_before(stakes, stakes.len() as int) == total_staked(stakes),
{
    assert(stakes.take(k + 1).drop_last() =~= stakes.take(k));
    assert(stakes.take(stakes.len() as int) =~= stakes);
}

/// The running sum never falls.
pub proof fn lemma_staked_before_monotone(stakes: Seq<Stake>, i: int, j: int)
    requires
        0 <= i <= j <= stakes.len(),
    ensures
        staked_before(stakes, i) <= staked_before(stakes, j),
    decreases j - i,
{
    if i < j {
        lemma_staked_before_monotone(stakes, i, j - 1);
        lemma_staked_before_step(stakes, j - 1);
    }
}

/// At most one stake wins a draw.
pub proof fn lemma_drawn_slot_unique(stakes: Seq<Stake>, draw: nat, a: int, b: int)
    requires
        is_drawn(stakes, draw, a),
        is_drawn(stakes, draw, b),
    ensures
        a == b,
{
    if a < b {
        lemma_staked_before_monotone(stakes, a + 1, b);
    }
    if b < a {
        lemma_staked_before_monotone(stakes, b + 1, a);
    }
}

} // verus!

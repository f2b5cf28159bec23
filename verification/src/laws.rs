use vstd::prelude::*;
use crate::identity::Identity;
use crate::ledger::{
    commission_of, distinct_players, drawn_slot, has_player, is_drawn, lemma_drawn_slot_unique,
    lemma_staked_before_monotone, lemma_staked_before_step, lemma_total_staked_push,
    lemma_total_staked_update, slot_of, staked_before, total_staked,
};
use crate::state::{GameState, RoundStatus, RoundView, Stake, MAX_PLAYERS_PER_ROUND};

verus! {

/// Two bets by one player count as one bet of their sum: the round that took
/// `first` and then `second` from `player` is the round that took
/// `first + second` at once.
pub proof fn law_bets_merge(round: RoundView, player: Identity, first: nat, second: nat)
    requires
        round.wf(),
    ensures
        round.with_bet(player, first).with_bet(player, second) == round.with_bet(
            player,
            first + second,
        ),
{
    let once = round.with_bet(player, first);
    let twice = once.with_bet(player, second);
    let merged = round.with_bet(player, first + second);
    let slot = if has_player(round.stakes, player) {
        slot_of(round.stakes, player)
    } else {
        round.stakes.len() as int
    };
    assert(once.stakes[slot].player == player);
    assert(slot_of(once.stakes, player) == slot);
    assert(twice.stakes =~= merged.stakes);
}

/// The status of a round never goes back: what a status may become is that
/// status itself or a later one, whatever may follow that may follow the
/// first, and two different statuses cannot each become the other. A round
/// that is resolved or cancelled stays so.
pub proof fn law_status_moves_forward(a: RoundStatus, b: RoundStatus, c: RoundStatus)
    ensures
        a.may_become(a),
        a.may_become(b) && b.may_become(c) ==> a.may_become(c),
        a.may_become(b) && b.may_become(a) ==> a == b,
        a.is_terminal() && a.may_become(b) ==> a == b,
        RoundStatus::WaitingForPlayers.may_become(b),
        b.may_become(RoundStatus::WaitingForPlayers) ==> b == RoundStatus::WaitingForPlayers,
{
}

/// A bet and a draw move a round's status forward or leave it: a bet makes
/// a waiting round active or changes no status, and a draw resolves.
pub proof fn law_operations_move_forward(
    round: RoundView,
    player: Identity,
    amount: nat,
    now: i64,
)
    ensures
        round.status.accepts_bets() ==> round.with_bet(player, amount).status.accepts_bets(),
        round.status.may_become(round.with_bet(player, amount).status),
        round.status == RoundStatus::Active ==> round.status.may_become(
            round.resolved(player, now).status,
        ),
{
}

/// The configuration points to one round at most.
pub proof fn law_one_round_pointed_to(game_state: GameState, a: Identity, b: Identity)
    requires
        game_state.points_to(a),
        game_state.points_to(b),
    ensures
        a == b,
{
}

/// Whether, of the rounds stored under their addresses, none is still open
/// but the one that the configuration points to.
pub open spec fn one_round_open(game_state: GameState, rounds: Map<Identity, RoundView>) -> bool {
    forall|key: Identity|
        rounds.dom().contains(key) && !(#[trigger] rounds[key]).status.is_terminal()
            ==> game_state.points_to(key)
}

/// While only the pointed-to round is open, no two rounds are open at once.
pub proof fn law_at_most_one_round_open(
    game_state: GameState,
    rounds: Map<Identity, RoundView>,
    a: Identity,
    b: Identity,
)
    requires
        one_round_open(game_state, rounds),
        rounds.dom().contains(a),
        rounds.dom().contains(b),
        !rounds[a].status.is_terminal(),
        !rounds[b].status.is_terminal(),
    ensures
        a == b,
{
}

/// Opening a round keeps it so that only the pointed-to round is open: a
/// round can be opened only while the configuration points to none.
pub proof fn law_opening_keeps_one_round_open(
    game_state: GameState,
    rounds: Map<Identity, RoundView>,
    round_key: Identity,
    now: i64,
)
    requires
        one_round_open(game_state, rounds),
        game_state.current_round is None,
    ensures
        one_round_open(
            game_state.with_round_opened(round_key),
            rounds.insert(
                round_key,
                RoundView::opened(game_state.with_round_opened(round_key).round_count, now),
            ),
        ),
{
}

/// A bet keeps it so that only the pointed-to round is open.
pub proof fn law_betting_keeps_one_round_open(
    game_state: GameState,
    rounds: Map<Identity, RoundView>,
    round_key: Identity,
    player: Identity,
    amount: nat,
)
    requires
        one_round_open(game_state, rounds),
        rounds.dom().contains(round_key),
        rounds[round_key].status.accepts_bets(),
    ensures
        one_round_open(
            game_state,
            rounds.insert(round_key, rounds[round_key].with_bet(player, amount)),
        ),
{
}

/// Resolving the active round leaves no round open, so that the next can be
/// opened.
pub proof fn law_resolving_keeps_one_round_open(
    game_state: GameState,
    rounds: Map<Identity, RoundView>,
    round_key: Identity,
    winner: Identity,
    now: i64,
)
    requires
        one_round_open(game_state, rounds),
        rounds.dom().contains(round_key),
        rounds[round_key].status == RoundStatus::Active,
    ensures
        one_round_open(
            game_state.with_round_closed(),
            rounds.insert(round_key, rounds[round_key].resolved(winner, now)),
        ),
        forall|key: Identity|
            rounds.dom().contains(key) ==> (#[trigger] rounds.insert(
                round_key,
                rounds[round_key].resolved(winner, now),
            )[key]).status.is_terminal(),
{
}

/// The pool is shared out without remainder: the commission is no more than
/// what the others staked, the winner gets the own stake back in full, and
/// commission and payment to the winner together are the pool.
pub proof fn law_payout_reconciles(total_pool: nat, winner_bet: nat, commission_rate: nat)
    requires
        winner_bet <= total_pool,
        commission_rate <= 10000,
    ensures
        commission_of((total_pool - winner_bet) as nat, commission_rate) <= total_pool
            - winner_bet,
        winner_bet <= winner_bet + (total_pool - winner_bet) - commission_of(
            (total_pool - winner_bet) as nat,
            commission_rate,
        ),
        commission_of((total_pool - winner_bet) as nat, commission_rate) + (winner_bet + (
        total_pool - winner_bet) - commission_of(
            (total_pool - winner_bet) as nat,
            commission_rate,
        )) == total_pool,
{
    let gross = (total_pool - winner_bet) as nat;
    assert(gross * commission_rate / 10000 <= gross) by (nonlinear_arith)
        requires
            0 <= commission_rate <= 10000,
            0 <= gross,
    ;
}

/// Every number below the pool draws exactly one stake.
pub proof fn law_every_draw_has_one_winner(stakes: Seq<Stake>, draw: nat)
    requires
        draw < total_staked(stakes),
    ensures
        is_drawn(stakes, draw, drawn_slot(stakes, draw)),
        forall|slot: int| is_drawn(stakes, draw, slot) ==> slot == drawn_slot(stakes, draw),
{
    assert(stakes.take(stakes.len() as int) =~= stakes);
    lemma_some_stake_is_drawn(stakes, draw, stakes.len() as int);
    let chosen = drawn_slot(stakes, draw);
    assert forall|slot: int| is_drawn(stakes, draw, slot) implies slot == chosen by {
        lemma_drawn_slot_unique(stakes, draw, slot, chosen);
    }
}

/// A number below the sum of the first `k` stakes draws one of them.
proof fn lemma_some_stake_is_drawn(stakes: Seq<Stake>, draw: nat, k: int)
    requires
        0 <= k <= stakes.len(),
        draw < staked_before(stakes, k),
    ensures
        exists|slot: int| is_drawn(stakes, draw, slot),
    decreases k,
{
    if k > 0 {
        lemma_staked_before_step(stakes, k - 1);
        if draw < staked_before(stakes, k - 1) {
            lemma_some_stake_is_drawn(stakes, draw, k - 1);
        } else {
            assert(is_drawn(stakes, draw, k - 1));
        }
    }
}

/// A stake wins for as many numbers as it is worth: the numbers that draw
/// the stake at `slot` are those from the sum of the stakes before it up to,
/// and without, that sum and the stake's amount. So of the numbers below the
/// pool, each player's share is the player's share of the pool.
pub proof fn law_stake_wins_its_worth(stakes: Seq<Stake>, slot: int, draw: nat)
    requires
        0 <= slot < stakes.len(),
    ensures
        is_drawn(stakes, draw, slot) <==> staked_before(stakes, slot) <= draw < staked_before(
            stakes,
            slot,
        ) + stakes[slot].amount,
        staked_before(stakes, slot) + stakes[slot].amount <= total_staked(stakes),
{
    lemma_staked_before_step(stakes, slot);
    lemma_staked_before_monotone(stakes, slot + 1, stakes.len() as int);
}

/// A valid round that takes a bet which finds a place in it is a valid
/// round again: its pool is the sum of its stakes, no player has two, and it
/// has as many players as before, or one more where the player is new. What
/// the player has staked has grown by the bet.
pub proof fn law_bet_keeps_round_valid(round: RoundView, player: Identity, amount: nat)
    requires
        round.wf(),
        round.status.accepts_bets(),
        has_player(round.stakes, player) || round.stakes.len() < MAX_PLAYERS_PER_ROUND,
    ensures
        round.with_bet(player, amount).wf(),
        round.with_bet(player, amount).total_pool == total_staked(
            round.with_bet(player, amount).stakes,
        ),
        distinct_players(round.with_bet(player, amount).stakes),
        has_player(round.with_bet(player, amount).stakes, player),
        round.with_bet(player, amount).stakes.len() == round.stakes.len() + (if has_player(
            round.stakes,
            player,
        ) {
            0int
        } else {
            1int
        }),
        round.with_bet(player, amount).stake_of(player) == round.stake_of(player) + amount,
{
    let after = round.with_bet(player, amount);
    if has_player(round.stakes, player) {
        let slot = slot_of(round.stakes, player);
        lemma_total_staked_update(round.stakes, slot, after.stakes[slot]);
        assert(after.stakes[slot].player == player);
        assert(distinct_players(after.stakes));
        assert(slot_of(after.stakes, player) == slot);
    } else {
        let last = round.stakes.len() as int;
        lemma_total_staked_push(round.stakes, after.stakes[last]);
        assert(after.stakes[last].player == player);
        assert(distinct_players(after.stakes));
        assert(slot_of(after.stakes, player) == last);
    }
}

} // verus!

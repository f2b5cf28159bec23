use vstd::prelude::*;
use crate::identity::Identity;

verus! {

/// No round ever holds more players than this, whatever the configuration.
pub const MAX_PLAYERS_PER_ROUND: u8 = 50;

/// The highest commission the operator may set, in basis points (20%).
pub const MAX_COMMISSION_RATE: u16 = 2000;

/// One whole, in basis points.
pub const BASIS_POINTS: u64 = 10000;

/// Where a round stands in its life.
#[derive(Clone, Copy, Debug, PartialEq, Eq, Structural)]
pub enum RoundStatus {
    WaitingForPlayers,
    Active,
    Resolved,
    Cancelled,
}

impl RoundStatus {
    /// Bets are taken while a round waits for players or is active.
    pub open spec fn accepts_bets(self) -> bool {
        self == RoundStatus::WaitingForPlayers || self == RoundStatus::Active
    }

    /// A resolved or cancelled round never changes again.
    pub open spec fn is_terminal(self) -> bool {
        self == RoundStatus::Resolved || self == RoundStatus::Cancelled
    }

    /// How far along its life a round is: waiting, then active, then over.
    pub open spec fn stage(self) -> nat {
        match self {
            RoundStatus::WaitingForPlayers => 0,
            RoundStatus::Active => 1,
            RoundStatus::Resolved => 2,
            RoundStatus::Cancelled => 2,
        }
    }

    /// Whether a round in status `self` may later be found in status `next`:
    /// it stays where it is or moves forward, and once over it stays as it is.
    pub open spec fn may_become(self, next: RoundStatus) -> bool {
        self == next || self.stage() < next.stage()
    }
}

/// One player's stake in a round, as stored.
#[derive(Clone, Copy, Debug, PartialEq, Eq)]
pub struct PlayerBet {
    pub player: Identity,
    pub bet_amount: u64,
}

/// One player's stake in a round, as a mathematical value.
pub struct Stake {
    pub player: Identity,
    pub amount: nat,
}

impl View for PlayerBet {
    type V = Stake;

    open spec fn view(&self) -> Stake {
        Stake { player: self.player, amount: self.bet_amount as nat }
    }
}

/// The configuration of the lottery. There is one, created by `initialize`
/// and changed only by the operator.
#[derive(Clone, Copy, Debug, PartialEq, Eq)]
pub struct GameState {
    pub operator_wallet: Identity,
    pub min_bet: u64,
    pub max_bet: u64,
    pub max_players: u8,
    /// In basis points: 1000 is 10%.
    pub commission_rate: u16,
    pub is_paused: bool,
    pub round_count: u64,
    /// The address of the round that is open, if one is.
    pub current_round: Option<Identity>,
}

impl GameState {
    /// What holds of every configuration that `initialize` made and the
    /// operator changed.
    pub open spec fn wf(&self) -> bool {
        &&& self.min_bet < self.max_bet
        &&& 1 < self.max_players <= MAX_PLAYERS_PER_ROUND
        &&& self.commission_rate <= MAX_COMMISSION_RATE
    }

    /// Whether `round_key` is the address of the open round.
    pub open spec fn points_to(&self, round_key: Identity) -> bool {
        self.current_round == Some(round_key)
    }

    /// The configuration after a round has been opened under `round_key`:
    /// one more round is counted, and that round is the open one.
    pub open spec fn with_round_opened(self, round_key: Identity) -> GameState {
        GameState {
            round_count: (self.round_count + 1) as u64,
            current_round: Some(round_key),
            ..self
        }
    }

    /// The configuration after the open round has been resolved: no round is
    /// open.
    pub open spec fn with_round_closed(self) -> GameState {
        GameState { current_round: None, ..self }
    }
}

/// One round of the lottery, as stored.
#[derive(Clone, Debug, PartialEq, Eq)]
pub struct Round {
    pub round_id: u64,
    pub status: RoundStatus,
    pub total_pool: u64,
    pub player_count: u8,
    /// In the order in which the players joined.
    pub players: Vec<PlayerBet>,
    pub created_at: i64,
    pub resolved_at: Option<i64>,
    pub winner: Option<Identity>,
}

/// One round of the lottery, as a mathematical value.
pub struct RoundView {
    pub round_id: u64,
    pub status: RoundStatus,
    pub total_pool: nat,
    /// In the order in which the players joined.
    pub stakes: Seq<Stake>,
    pub created_at: i64,
    pub resolved_at: Option<i64>,
    pub winner: Option<Identity>,
}

/// The stakes that a list of stored bets stands for, in the same order.
pub open spec fn stakes_of(players: Seq<PlayerBet>) -> Seq<Stake> {
    Seq::new(players.len(), |i: int| players[i]@)
}

impl View for Round {
    type V = RoundView;

    open spec fn view(&self) -> RoundView {
        RoundView {
            round_id: self.round_id,
            status: self.status,
            total_pool: self.total_pool as nat,
            stakes: stakes_of(self.players@),
            created_at: self.created_at,
            resolved_at: self.resolved_at,
            winner: self.winner,
        }
    }
}

impl Round {
    /// What holds of every round that `create_round` made and the operations
    /// of this library changed: the stored count is the number of stored
    /// bets, and the round it stands for is a valid one.
    pub open spec fn wf(&self) -> bool {
        &&& self.player_count as nat == self.players@.len()
        &&& self@.wf()
    }

    /// Whether the round respects the capacity that `config` sets.
    pub open spec fn within_capacity(&self, config: &GameState) -> bool {
        self.player_count <= config.max_players
    }
}

} // verus!

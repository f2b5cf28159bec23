use spinza::{
    emergency_withdraw, initialize, pause_game, unpause_game, update_bet_limits,
    update_commission_rate, BetLimitsUpdated, CommissionRateUpdated, EmergencyWithdrawal,
    GameError, GameState, GameStateInitialized, Identity,
};

fn id(n: u8) -> Identity {
    Identity::new([n; 32])
}

fn config() -> GameState {
    initialize(id(1), 10, 100, 5, 1000).unwrap().0
}

#[test]
fn initialize_sets_every_field() {
    let (state, event) = initialize(id(1), 10, 100, 5, 1000).unwrap();
    assert_eq!(
        state,
        GameState {
            operator_wallet: id(1),
            min_bet: 10,
            max_bet: 100,
            max_players: 5,
            commission_rate: 1000,
            is_paused: false,
            round_count: 0,
            current_round: None,
        }
    );
    assert_eq!(
        event,
        GameStateInitialized {
            operator_wallet: id(1),
            min_bet: 10,
            max_bet: 100,
            max_players: 5,
            commission_rate: 1000,
        }
    );
    assert!(state.is_valid());
}

#[test]
fn initialize_rejects_equal_bet_limits() {
    assert_eq!(initialize(id(1), 100, 100, 5, 1000), Err(GameError::InvalidBetLimits));
}

#[test]
fn initialize_rejects_inverted_bet_limits() {
    assert_eq!(initialize(id(1), 101, 100, 5, 1000), Err(GameError::InvalidBetLimits));
}

#[test]
fn initialize_accepts_adjacent_bet_limits_and_zero_minimum() {
    let (state, _) = initialize(id(1), 0, 1, 2, 0).unwrap();
    assert_eq!(state.min_bet, 0);
    assert_eq!(state.max_bet, 1);
}

#[test]
fn initialize_rejects_commission_above_twenty_percent() {
    assert_eq!(initialize(id(1), 10, 100, 5, 2001), Err(GameError::CommissionTooHigh));
}

#[test]
fn initialize_accepts_commission_of_twenty_percent() {
    let (state, _) = initialize(id(1), 10, 100, 5, 2000).unwrap();
    assert_eq!(state.commission_rate, 2000);
}

#[test]
fn initialize_reports_bet_limits_before_commission() {
    assert_eq!(initialize(id(1), 100, 10, 0, 9999), Err(GameError::InvalidBetLimits));
}

#[test]
fn initialize_reports_commission_before_capacity() {
    assert_eq!(initialize(id(1), 10, 100, 0, 9999), Err(GameError::CommissionTooHigh));
}

#[test]
fn initialize_rejects_capacity_out_of_range() {
    assert_eq!(initialize(id(1), 10, 100, 0, 1000), Err(GameError::InvalidMaxPlayers));
    assert_eq!(initialize(id(1), 10, 100, 1, 1000), Err(GameError::InvalidMaxPlayers));
    assert_eq!(initialize(id(1), 10, 100, 51, 1000), Err(GameError::InvalidMaxPlayers));
    assert_eq!(initialize(id(1), 10, 100, 255, 1000), Err(GameError::InvalidMaxPlayers));
}

#[test]
fn initialize_accepts_capacity_at_both_ends() {
    assert_eq!(initialize(id(1), 10, 100, 2, 1000).unwrap().0.max_players, 2);
    assert_eq!(initialize(id(1), 10, 100, 50, 1000).unwrap().0.max_players, 50);
}

#[test]
fn pause_and_unpause_by_operator() {
    let mut state = config();
    assert!(pause_game(&mut state, &id(1)).is_ok());
    assert!(state.is_paused);
    assert_eq!(state, GameState { is_paused: true, ..config() });
    assert!(pause_game(&mut state, &id(1)).is_ok());
    assert!(state.is_paused);
    assert!(unpause_game(&mut state, &id(1)).is_ok());
    assert_eq!(state, config());
}

#[test]
fn pause_by_stranger_is_unauthorized() {
    let mut state = config();
    assert_eq!(pause_game(&mut state, &id(2)), Err(GameError::Unauthorized));
    assert_eq!(state, config());
}

#[test]
fn unpause_by_stranger_is_unauthorized() {
    let mut state = config();
    pause_game(&mut state, &id(1)).unwrap();
    assert_eq!(unpause_game(&mut state, &id(2)), Err(GameError::Unauthorized));
    assert!(state.is_paused);
}

#[test]
fn operator_differs_in_last_byte_only_is_unauthorized() {
    let mut bytes = [1u8; 32];
    bytes[31] = 2;
    let mut state = config();
    assert_eq!(pause_game(&mut state, &Identity::new(bytes)), Err(GameError::Unauthorized));
    assert!(!state.is_paused);
}

#[test]
fn update_bet_limits_replaces_both() {
    let mut state = config();
    let event = update_bet_limits(&mut state, &id(1), 20, 200).unwrap();
    assert_eq!(event, BetLimitsUpdated { min_bet: 20, max_bet: 200 });
    assert_eq!(state, GameState { min_bet: 20, max_bet: 200, ..config() });
    assert!(state.is_valid());
}

#[test]
fn update_bet_limits_rejects_invalid_and_changes_nothing() {
    let mut state = config();
    assert_eq!(update_bet_limits(&mut state, &id(1), 200, 200), Err(GameError::InvalidBetLimits));
    assert_eq!(update_bet_limits(&mut state, &id(1), 201, 200), Err(GameError::InvalidBetLimits));
    assert_eq!(state, config());
}

#[test]
fn update_bet_limits_tests_operator_first() {
    let mut state = config();
    assert_eq!(update_bet_limits(&mut state, &id(2), 200, 200), Err(GameError::Unauthorized));
    assert_eq!(update_bet_limits(&mut state, &id(2), 20, 200), Err(GameError::Unauthorized));
    assert_eq!(state, config());
}

#[test]
fn update_commission_rate_replaces_it() {
    let mut state = config();
    let event = update_commission_rate(&mut state, &id(1), 2000).unwrap();
    assert_eq!(event, CommissionRateUpdated { commission_rate: 2000 });
    assert_eq!(state, GameState { commission_rate: 2000, ..config() });
    update_commission_rate(&mut state, &id(1), 0).unwrap();
    assert_eq!(state.commission_rate, 0);
}

#[test]
fn update_commission_rate_rejects_too_high_and_changes_nothing() {
    let mut state = config();
    assert_eq!(
        update_commission_rate(&mut state, &id(1), 2001),
        Err(GameError::CommissionTooHigh)
    );
    assert_eq!(state, config());
}

#[test]
fn update_commission_rate_tests_operator_first() {
    let mut state = config();
    assert_eq!(update_commission_rate(&mut state, &id(2), 2001), Err(GameError::Unauthorized));
    assert_eq!(update_commission_rate(&mut state, &id(2), 500), Err(GameError::Unauthorized));
    assert_eq!(state, config());
}

#[test]
fn emergency_withdraw_sweeps_whole_balance_to_operator() {
    let state = config();
    assert_eq!(
        emergency_withdraw(&state, &id(1), 12345),
        Ok(EmergencyWithdrawal { amount: 12345 })
    );
    assert_eq!(emergency_withdraw(&state, &id(1), 0), Ok(EmergencyWithdrawal { amount: 0 }));
    assert_eq!(
        emergency_withdraw(&state, &id(1), u64::MAX),
        Ok(EmergencyWithdrawal { amount: u64::MAX })
    );
}

#[test]
fn emergency_withdraw_by_stranger_is_unauthorized() {
    let state = config();
    assert_eq!(emergency_withdraw(&state, &id(2), 12345), Err(GameError::Unauthorized));
}

#[test]
fn emergency_withdraw_works_while_paused() {
    let mut state = config();
    pause_game(&mut state, &id(1)).unwrap();
    assert_eq!(emergency_withdraw(&state, &id(1), 7), Ok(EmergencyWithdrawal { amount: 7 }));
}

#[test]
fn configuration_validity_is_tested() {
    assert!(config().is_valid());
    assert!(!GameState { min_bet: 100, ..config() }.is_valid());
    assert!(!GameState { max_players: 1, ..config() }.is_valid());
    assert!(!GameState { max_players: 51, ..config() }.is_valid());
    assert!(!GameState { commission_rate: 2001, ..config() }.is_valid());
}

#[test]
fn identities_are_the_same_when_all_bytes_agree() {
    let mut bytes = [7u8; 32];
    assert!(Identity::new(bytes).same(&id(7)));
    assert_eq!(Identity::new(bytes).to_bytes(), [7u8; 32]);
    bytes[0] = 8;
    assert!(!Identity::new(bytes).same(&id(7)));
    bytes[0] = 7;
    bytes[31] = 0;
    assert!(!Identity::new(bytes).same(&id(7)));
    bytes[31] = 7;
    bytes[16] = 9;
    assert!(!Identity::new(bytes).same(&id(7)));
    assert_eq!(Identity::new(bytes).to_bytes()[16], 9);
}

#[test]
fn every_error_has_its_message() {
    assert_eq!(GameError::GamePaused.message(), "Game is currently paused");
    assert_eq!(GameError::RoundNotActive.message(), "Round is not active");
    assert_eq!(GameError::RoundInProgress.message(), "Round is already in progress");
    assert_eq!(GameError::BetTooLow.message(), "Bet amount is too low");
    assert_eq!(GameError::BetTooHigh.message(), "Bet amount is too high");
    assert_eq!(GameError::RoundFull.message(), "Round is full");
    assert_eq!(GameError::NotEnoughPlayers.message(), "Not enough players to resolve round");
    assert_eq!(GameError::EmptyPool.message(), "Pool is empty");
    assert_eq!(GameError::Unauthorized.message(), "Unauthorized operation");
    assert_eq!(GameError::InvalidBetLimits.message(), "Invalid bet limits");
    assert_eq!(GameError::CommissionTooHigh.message(), "Commission rate too high");
    assert_eq!(GameError::InvalidMaxPlayers.message(), "Invalid number of players");
    assert_eq!(GameError::TransferFailed.message(), "Transfer failed");
}

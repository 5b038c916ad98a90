use pebbles_game::{
    handle, init, DifficultyLevel, GameState, PebblesAction, PebblesEvent, PebblesInit, Player,
    RandomSource,
};

#[test]
fn test_init() {
    let init_data = PebblesInit {
        difficulty: DifficultyLevel::Easy,
        pebbles_count: 15,
        max_pebbles_per_turn: 2,
    };
    let mut rng = RandomSource::fixed(0);
    let game_state = init(init_data, &mut rng).unwrap();
    assert_eq!(game_state.pebbles_count, 15);
    assert_eq!(game_state.max_pebbles_per_turn, 2);
}

#[test]
fn test_handle_user_win() {
    let game_state = GameState {
        pebbles_count: 5,
        max_pebbles_per_turn: 2,
        pebbles_remaining: 2,
        difficulty: DifficultyLevel::Easy,
        first_player: Player::User,
        winner: None,
    };
    let mut rng = RandomSource::fixed(0);
    let (_, event) = handle(game_state, PebblesAction::Turn(2), &mut rng).unwrap();
    assert_eq!(event, Some(PebblesEvent::Won(Player::User)));
}

use pebbles_game::{
    handle, init, program_remove_count, state, DifficultyLevel, GameError, GameState,
    PebblesAction, PebblesEvent, PebblesInit, Player, RandomSource,
};

fn config(pebbles_count: u32, max_pebbles_per_turn: u32) -> PebblesInit {
    PebblesInit { difficulty: DifficultyLevel::Easy, pebbles_count, max_pebbles_per_turn }
}

fn live(pebbles_count: u32, max_pebbles_per_turn: u32, pebbles_remaining: u32) -> GameState {
    GameState {
        pebbles_count,
        max_pebbles_per_turn,
        pebbles_remaining,
        difficulty: DifficultyLevel::Easy,
        first_player: Player::User,
        winner: None,
    }
}

#[test]
fn init_even_draw_gives_user_the_first_turn() {
    let mut rng = RandomSource::fixed(4);
    let game = init(config(15, 2), &mut rng).unwrap();
    assert_eq!(game.first_player, Player::User);
    assert_eq!(game.pebbles_remaining, 15);
    assert_eq!(game.winner, None);
    assert_eq!(game.difficulty, DifficultyLevel::Easy);
}

#[test]
fn init_odd_draw_plays_program_opening() {
    // first draw 1: the program moves; second draw 1: removes 1 % 2 + 1 = 2
    let mut rng = RandomSource::fixed(1);
    let game = init(config(15, 2), &mut rng).unwrap();
    assert_eq!(game.first_player, Player::Program);
    assert_eq!(game.pebbles_remaining, 13);
    assert_eq!(game.winner, None);
}

#[test]
fn init_uses_the_second_draw_for_the_opening() {
    let mut rng = RandomSource::new(vec![3, 6]).unwrap();
    let game = init(config(20, 4), &mut rng).unwrap();
    assert_eq!(game.first_player, Player::Program);
    // 6 % 4 + 1 = 3
    assert_eq!(game.pebbles_remaining, 17);
}

#[test]
fn init_keeps_difficulty() {
    let mut rng = RandomSource::fixed(0);
    let cfg = PebblesInit { difficulty: DifficultyLevel::Hard, pebbles_count: 7, max_pebbles_per_turn: 3 };
    let game = init(cfg, &mut rng).unwrap();
    assert_eq!(game.difficulty, DifficultyLevel::Hard);
    assert_eq!(game.max_pebbles_per_turn, 3);
}

#[test]
fn init_forced_opening_empties_the_pile_and_turn_detects_the_win() {
    let mut rng = RandomSource::fixed(1);
    let game = init(config(2, 3), &mut rng).unwrap();
    assert_eq!(game.first_player, Player::Program);
    assert_eq!(game.pebbles_remaining, 0);
    assert_eq!(game.winner, None);
    let (next, event) = handle(game, PebblesAction::Turn(1), &mut rng).unwrap();
    assert_eq!(event, Some(PebblesEvent::Won(Player::Program)));
    assert_eq!(next.winner, Some(Player::Program));
}

#[test]
fn init_rejects_empty_pile() {
    let mut rng = RandomSource::fixed(0);
    assert_eq!(init(config(0, 2), &mut rng), Err(GameError::InvalidConfig));
}

#[test]
fn init_rejects_zero_turn_limit() {
    let mut rng = RandomSource::fixed(0);
    assert_eq!(init(config(10, 0), &mut rng), Err(GameError::InvalidConfig));
}

#[test]
fn validate_checks_both_counts() {
    assert!(config(1, 1).validate());
    assert!(!config(0, 1).validate());
    assert!(!config(1, 0).validate());
}

#[test]
fn turn_with_counter_turn() {
    let mut rng = RandomSource::fixed(0);
    let (next, event) = handle(live(5, 2, 5), PebblesAction::Turn(2), &mut rng).unwrap();
    assert_eq!(event, Some(PebblesEvent::CounterTurn(1)));
    assert_eq!(next.pebbles_remaining, 2);
    assert_eq!(next.winner, None);
    assert_eq!(next.pebbles_count, 5);
}

#[test]
fn turn_program_finishes_the_pile() {
    let mut rng = RandomSource::fixed(0);
    let (next, event) = handle(live(10, 2, 4), PebblesAction::Turn(2), &mut rng).unwrap();
    assert_eq!(event, Some(PebblesEvent::Won(Player::Program)));
    assert_eq!(next.pebbles_remaining, 0);
    assert_eq!(next.winner, Some(Player::Program));
}

#[test]
fn turn_user_empties_the_pile() {
    let mut rng = RandomSource::fixed(0);
    let (next, event) = handle(live(10, 3, 3), PebblesAction::Turn(3), &mut rng).unwrap();
    assert_eq!(event, Some(PebblesEvent::Won(Player::User)));
    assert_eq!(next.pebbles_remaining, 0);
    assert_eq!(next.winner, Some(Player::User));
}

#[test]
fn turn_of_zero_is_illegal() {
    let mut rng = RandomSource::fixed(0);
    assert_eq!(handle(live(10, 3, 8), PebblesAction::Turn(0), &mut rng), Err(GameError::IllegalMove));
}

#[test]
fn turn_over_the_limit_is_illegal() {
    let mut rng = RandomSource::fixed(0);
    assert_eq!(handle(live(10, 3, 8), PebblesAction::Turn(4), &mut rng), Err(GameError::IllegalMove));
}

#[test]
fn turn_over_the_pile_is_illegal() {
    let mut rng = RandomSource::fixed(0);
    assert_eq!(handle(live(10, 9, 2), PebblesAction::Turn(3), &mut rng), Err(GameError::IllegalMove));
}

#[test]
fn turn_after_a_win_is_refused() {
    let mut rng = RandomSource::fixed(0);
    let mut game = live(10, 3, 4);
    game.winner = Some(Player::User);
    assert_eq!(handle(game, PebblesAction::Turn(1), &mut rng), Err(GameError::GameOver));
}

#[test]
fn give_up_is_won_by_the_program() {
    let mut rng = RandomSource::fixed(0);
    let (next, event) = handle(live(12, 3, 7), PebblesAction::GiveUp, &mut rng).unwrap();
    assert_eq!(event, Some(PebblesEvent::Won(Player::Program)));
    assert_eq!(next.pebbles_count, 12);
    assert_eq!(next.max_pebbles_per_turn, 3);
    assert_eq!(next.pebbles_remaining, 7);
    assert_eq!(next.winner, Some(Player::Program));
}

#[test]
fn give_up_after_a_win_keeps_the_winner() {
    let mut rng = RandomSource::fixed(0);
    let mut game = live(12, 3, 0);
    game.winner = Some(Player::User);
    let (next, event) = handle(game, PebblesAction::GiveUp, &mut rng).unwrap();
    assert_eq!(event, Some(PebblesEvent::Won(Player::Program)));
    assert_eq!(next.winner, Some(Player::User));
}

#[test]
fn restart_with_user_first_gives_a_full_pile() {
    let mut rng = RandomSource::fixed(2);
    let mut game = live(5, 2, 1);
    game.winner = Some(Player::Program);
    let action = PebblesAction::Restart {
        difficulty: DifficultyLevel::Hard,
        pebbles_count: 30,
        max_pebbles_per_turn: 5,
    };
    let (next, event) = handle(game, action, &mut rng).unwrap();
    assert_eq!(event, None);
    assert_eq!(next.pebbles_count, 30);
    assert_eq!(next.pebbles_remaining, 30);
    assert_eq!(next.max_pebbles_per_turn, 5);
    assert_eq!(next.difficulty, DifficultyLevel::Hard);
    assert_eq!(next.first_player, Player::User);
    assert_eq!(next.winner, None);
}

#[test]
fn restart_with_program_first_replays_the_opening() {
    let mut rng = RandomSource::new(vec![1, 7]).unwrap();
    let action = PebblesAction::Restart {
        difficulty: DifficultyLevel::Easy,
        pebbles_count: 30,
        max_pebbles_per_turn: 5,
    };
    let (next, _) = handle(live(5, 2, 1), action, &mut rng).unwrap();
    assert_eq!(next.first_player, Player::Program);
    // 7 % 5 + 1 = 3
    assert_eq!(next.pebbles_remaining, 27);
}

#[test]
fn restart_rejects_invalid_config() {
    let mut rng = RandomSource::fixed(0);
    let action = PebblesAction::Restart {
        difficulty: DifficultyLevel::Easy,
        pebbles_count: 0,
        max_pebbles_per_turn: 5,
    };
    assert_eq!(handle(live(5, 2, 1), action, &mut rng), Err(GameError::InvalidConfig));
}

#[test]
fn query_state_twice_is_the_same_snapshot() {
    let game = live(9, 2, 4);
    let first = state(&game);
    let second = state(&first);
    assert_eq!(first, game);
    assert_eq!(second, first);
}

#[test]
fn program_move_is_forced_when_the_limit_covers_the_pile() {
    let mut rng = RandomSource::fixed(9);
    assert_eq!(program_remove_count(3, 3, &mut rng), 3);
    assert_eq!(program_remove_count(2, 5, &mut rng), 2);
}

#[test]
fn program_move_stays_in_range() {
    let mut rng = RandomSource::new(vec![0, 1, 2, 3, 4, 5, u32::MAX]).unwrap();
    let expected = [1, 2, 3, 1, 2, 3, u32::MAX % 3 + 1];
    for want in expected {
        let got = program_remove_count(10, 3, &mut rng);
        assert_eq!(got, want);
        assert!(got >= 1 && got <= 3);
    }
}

#[test]
fn random_source_cycles_through_its_script() {
    let mut rng = RandomSource::new(vec![5, 6]).unwrap();
    assert_eq!(rng.next_u32(), 5);
    assert_eq!(rng.next_u32(), 6);
    assert_eq!(rng.next_u32(), 5);
}

#[test]
fn random_source_needs_a_value() {
    assert!(RandomSource::new(Vec::new()).is_none());
}

#[test]
fn consistency_of_a_state() {
    assert!(live(5, 2, 5).is_consistent());
    assert!(!live(5, 2, 6).is_consistent());
    assert!(!live(5, 0, 5).is_consistent());
}

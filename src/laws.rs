use vstd::prelude::*;

use crate::game::{handle_result, init_result, program_take, snapshot, turn_result};
use crate::types::{DifficultyLevel, GameState, PebblesAction, PebblesEvent, PebblesInit, Player};

verus! {

/// A valid configuration starts a live game whose pile lies between zero
/// and its original size, whatever the draws.
pub proof fn lemma_init_fresh(config: PebblesInit, first: u32, second: u32)
    requires
        config.is_valid(),
    ensures
        init_result(config, first, second) matches Ok(game) && game.pebbles_remaining
            <= game.pebbles_count && game.winner is None,
{
}

/// On a non-empty pile the program removes at least one pebble, and no more
/// than the turn limit or the pile allows.
pub proof fn lemma_program_take_bounds(remaining: u32, max_per_turn: u32, draw: u32)
    requires
        remaining > 0,
        max_per_turn > 0,
    ensures
        1 <= program_take(remaining, max_per_turn, draw),
        program_take(remaining, max_per_turn, draw) <= max_per_turn,
        program_take(remaining, max_per_turn, draw) <= remaining,
{
    assert(draw % max_per_turn < max_per_turn) by (nonlinear_arith)
        requires
            max_per_turn > 0,
    ;
}

/// In a live game, the program's reply to a turn removes between one pebble
/// and the turn limit, leaves pebbles on the pile, and the pile shrinks by
/// exactly the two removals.
pub proof fn lemma_counter_turn_bounds(game: GameState, count: u32, draw: u32)
    requires
        game.wf(),
        game.winner is None,
    ensures
        turn_result(game, count, draw) matches Ok((next, PebblesEvent::CounterTurn(take))) ==> {
            &&& 1 <= take <= game.max_pebbles_per_turn
            &&& next.pebbles_remaining > 0
            &&& next.pebbles_remaining == game.pebbles_remaining - count - take
            &&& next.winner is None
        },
{
    let left = (game.pebbles_remaining - count) as u32;
    if game.pebbles_remaining > 0 && 0 < count < game.pebbles_remaining
        && game.max_pebbles_per_turn < left {
        lemma_program_take_bounds(left, game.max_pebbles_per_turn, draw);
    }
}

/// Giving up always reports the program's win and leaves the settings and
/// the pile as they were; a live game is then won by the program.
pub proof fn lemma_give_up(game: GameState, first: u32, second: u32)
    ensures
        handle_result(game, PebblesAction::GiveUp, first, second) matches Ok(
            (next, Some(PebblesEvent::Won(Player::Program))),
        ) && next.pebbles_count == game.pebbles_count && next.max_pebbles_per_turn
            == game.max_pebbles_per_turn && next.pebbles_remaining == game.pebbles_remaining
            && next.difficulty == game.difficulty && next.first_player == game.first_player && (
        game.winner is None ==> next.winner == Some(Player::Program)),
{
}

/// A valid restart in which the user moves first gives a live game with a
/// full pile of the new size, whatever the game before it.
pub proof fn lemma_restart_fresh(
    game: GameState,
    difficulty: DifficultyLevel,
    pebbles_count: u32,
    max_pebbles_per_turn: u32,
    first: u32,
    second: u32,
)
    requires
        pebbles_count > 0,
        max_pebbles_per_turn > 0,
        first % 2 == 0,
    ensures
        handle_result(
            game,
            PebblesAction::Restart { difficulty, pebbles_count, max_pebbles_per_turn },
            first,
            second,
        ) matches Ok((next, None)) && next.pebbles_remaining == pebbles_count && next.pebbles_count
            == pebbles_count && next.max_pebbles_per_turn == max_pebbles_per_turn
            && next.winner is None,
{
}

/// Reading the state twice gives the same snapshot, and reading changes nothing.
pub proof fn lemma_snapshot_idempotent(game: GameState)
    ensures
        snapshot(snapshot(game)) == snapshot(game),
        snapshot(game) == game,
{
}

} // verus!

//! The rules: starting a game, the program's move policy, and the user's
//! actions.
//!
//! Choices made where the rules leave room:
//! - a `Turn` outside `1..=min(max_pebbles_per_turn, pebbles_remaining)` is
//!   refused with `IllegalMove` before any subtraction, the state unchanged;
//! - a `Turn` on a game that has a winner is refused with `GameOver`;
//! - a `Turn` on a pile that the program's opening move emptied reports the
//!   program's win;
//! - `Restart` validates its configuration as `init` does;
//! - `GiveUp` records the program's win in the returned state, unless the
//!   game already had a winner.
use vstd::prelude::*;

use crate::random::{lemma_advance_then, RandomSource};
use crate::types::{
    DifficultyLevel, GameError, GameState, PebblesAction, PebblesEvent, PebblesInit, Player,
};

verus! {

/// The side that a draw chooses to move first: even for the user, odd for
/// the program.
pub open spec fn player_for(draw: u32) -> Player {
    if draw % 2 == 0 {
        Player::User
    } else {
        Player::Program
    }
}

/// How many pebbles the program removes from a pile of `remaining` under a
/// limit of `max_per_turn`: the whole pile when the limit covers it, else
/// `draw % max_per_turn + 1`.
pub open spec fn program_take(remaining: u32, max_per_turn: u32, draw: u32) -> u32 {
    if max_per_turn >= remaining {
        remaining
    } else {
        (draw % max_per_turn + 1) as u32
    }
}

/// How many draws the program's move takes: none when it is forced.
pub open spec fn program_draws(remaining: u32, max_per_turn: u32) -> nat {
    if max_per_turn >= remaining {
        0
    } else {
        1
    }
}

/// A fresh game for a valid `config`, where `first` picks the side to move
/// first and `second` sizes the program's opening move, if it has one.
pub open spec fn opening(config: PebblesInit, first: u32, second: u32) -> GameState {
    let first_player = player_for(first);
    let count = config.pebbles_count;
    let max = config.max_pebbles_per_turn;
    GameState {
        pebbles_count: count,
        max_pebbles_per_turn: max,
        pebbles_remaining: if first_player == Player::Program {
            (count - program_take(count, max, second)) as u32
        } else {
            count
        },
        difficulty: config.difficulty,
        first_player,
        winner: None,
    }
}

/// What starting a game with `config` gives, on the next two draws.
pub open spec fn init_result(config: PebblesInit, first: u32, second: u32) -> Result<
    GameState,
    GameError,
> {
    if config.is_valid() {
        Ok(opening(config, first, second))
    } else {
        Err(GameError::InvalidConfig)
    }
}

/// How many draws starting a game with `config` takes.
pub open spec fn init_draws(config: PebblesInit, first: u32) -> nat {
    if !config.is_valid() {
        0
    } else if player_for(first) == Player::Program {
        1 + program_draws(config.pebbles_count, config.max_pebbles_per_turn)
    } else {
        1
    }
}

/// `game` with a new pile and winner, its settings kept.
pub open spec fn settled(game: GameState, remaining: u32, winner: Option<Player>) -> GameState {
    GameState {
        pebbles_count: game.pebbles_count,
        max_pebbles_per_turn: game.max_pebbles_per_turn,
        pebbles_remaining: remaining,
        difficulty: game.difficulty,
        first_player: game.first_player,
        winner,
    }
}

/// What the user's removal of `count` pebbles gives, `draw` sizing the
/// program's reply.
///
/// A game already won refuses further turns. A pile that the program's
/// opening move emptied is the program's win. Otherwise the removal must lie
/// in `1..=min(max_pebbles_per_turn, pebbles_remaining)`.
pub open spec fn turn_result(game: GameState, count: u32, draw: u32) -> Result<
    (GameState, PebblesEvent),
    GameError,
> {
    let remaining = game.pebbles_remaining;
    let max = game.max_pebbles_per_turn;
    if game.winner is Some {
        Err(GameError::GameOver)
    } else if remaining == 0 {
        Ok((settled(game, 0, Some(Player::Program)), PebblesEvent::Won(Player::Program)))
    } else if count == 0 || count > max || count > remaining {
        Err(GameError::IllegalMove)
    } else if count == remaining {
        Ok((settled(game, 0, Some(Player::User)), PebblesEvent::Won(Player::User)))
    } else {
        let left = (remaining - count) as u32;
        if max >= left {
            Ok((settled(game, 0, Some(Player::Program)), PebblesEvent::Won(Player::Program)))
        } else {
            let take = program_take(left, max, draw);
            Ok((settled(game, (left - take) as u32, None), PebblesEvent::CounterTurn(take)))
        }
    }
}

/// How many draws the user's removal of `count` pebbles takes.
pub open spec fn turn_draws(game: GameState, count: u32) -> nat {
    let remaining = game.pebbles_remaining;
    let max = game.max_pebbles_per_turn;
    if game.winner is None && 0 < count && count <= max && count < remaining {
        program_draws((remaining - count) as u32, max)
    } else {
        0
    }
}

/// The configuration that a `Restart` carries.
pub open spec fn restart_config(
    difficulty: DifficultyLevel,
    pebbles_count: u32,
    max_pebbles_per_turn: u32,
) -> PebblesInit {
    PebblesInit { difficulty, pebbles_count, max_pebbles_per_turn }
}

/// What `action` does to `game`, on the next two draws: the new state, and
/// the event for a `Turn` or a `GiveUp` (a `Restart` has none).
pub open spec fn handle_result(game: GameState, action: PebblesAction, first: u32, second: u32) -> Result<
    (GameState, Option<PebblesEvent>),
    GameError,
> {
    match action {
        PebblesAction::Turn(count) => match turn_result(game, count, first) {
            Ok((next, event)) => Ok((next, Some(event))),
            Err(e) => Err(e),
        },
        PebblesAction::GiveUp => {
            let winner = if game.winner is Some {
                game.winner
            } else {
                Some(Player::Program)
            };
            Ok(
                (
                    settled(game, game.pebbles_remaining, winner),
                    Some(PebblesEvent::Won(Player::Program)),
                ),
            )
        },
        PebblesAction::Restart { difficulty, pebbles_count, max_pebbles_per_turn } => {
            match init_result(
                restart_config(difficulty, pebbles_count, max_pebbles_per_turn),
                first,
                second,
            ) {
                Ok(next) => Ok((next, None)),
                Err(e) => Err(e),
            }
        },
    }
}

/// How many draws `action` takes.
pub open spec fn handle_draws(game: GameState, action: PebblesAction, first: u32) -> nat {
    match action {
        PebblesAction::Turn(count) => turn_draws(game, count),
        PebblesAction::GiveUp => 0,
        PebblesAction::Restart { difficulty, pebbles_count, max_pebbles_per_turn } => init_draws(
            restart_config(difficulty, pebbles_count, max_pebbles_per_turn),
            first,
        ),
    }
}

/// A read of the state: the state itself.
pub open spec fn snapshot(game: GameState) -> GameState {
    game
}

/// Draws the side that moves first.
fn choose_first_player(rng: &mut RandomSource) -> (r: Player)
    requires
        old(rng).wf(),
    ensures
        final(rng).wf(),
        r == player_for(old(rng).draw(0)),
        old(rng).advanced_to(final(rng), 1),
{
    if rng.next_u32() % 2 == 0 {
        Player::User
    } else {
        Player::Program
    }
}

/// The program's move on a pile of `remaining`: the whole pile when the
/// limit covers it, else a draw in `1..=max_per_turn`.
pub fn program_remove_count(remaining: u32, max_per_turn: u32, rng: &mut RandomSource) -> (r: u32)
    requires
        old(rng).wf(),
        max_per_turn > 0,
    ensures
        final(rng).wf(),
        r == program_take(remaining, max_per_turn, old(rng).draw(0)),
        old(rng).advanced_to(final(rng), program_draws(remaining, max_per_turn)),
        remaining > 0 ==> 1 <= r && r <= max_per_turn && r <= remaining,
{
    if max_per_turn >= remaining {
        proof {
            vstd::arithmetic::div_mod::lemma_small_mod(
                rng.position(),
                rng.script().len(),
            );
        }
        remaining
    } else {
        let draw = rng.next_u32();
        assert(draw % max_per_turn < max_per_turn) by (nonlinear_arith)
            requires
                max_per_turn > 0,
        ;
        draw % max_per_turn + 1
    }
}

/// Starts a game from a valid `config`, playing the program's opening move
/// when the draw gives it the first turn.
fn start(config: PebblesInit, rng: &mut RandomSource) -> (r: GameState)
    requires
        old(rng).wf(),
        config.is_valid(),
    ensures
        final(rng).wf(),
        r == opening(config, old(rng).draw(0), old(rng).draw(1)),
        old(rng).advanced_to(final(rng), init_draws(config, old(rng).draw(0))),
{
    let ghost before = *rng;
    let first_player = choose_first_player(rng);
    let ghost middle = *rng;
    let mut pebbles_remaining = config.pebbles_count;
    match first_player {
        Player::Program => {
            let remove_count = program_remove_count(
                pebbles_remaining,
                config.max_pebbles_per_turn,
                rng,
            );
            pebbles_remaining = pebbles_remaining - remove_count;
        },
        Player::User => {
            proof {
                vstd::arithmetic::div_mod::lemma_small_mod(
                    rng.position(),
                    rng.script().len(),
                );
            }
        },
    }
    proof {
        lemma_advance_then(&before, &middle, rng, 1, (init_draws(config, before.draw(0)) - 1) as nat);
        assert(middle.draw(0) == before.draw(1));
    }
    GameState {
        pebbles_count: config.pebbles_count,
        max_pebbles_per_turn: config.max_pebbles_per_turn,
        pebbles_remaining,
        difficulty: config.difficulty,
        first_player,
        winner: None,
    }
}

/// Starts a game: `InvalidConfig` when the pile or the turn limit is zero.
pub fn init(config: PebblesInit, rng: &mut RandomSource) -> (r: Result<GameState, GameError>)
    requires
        old(rng).wf(),
    ensures
        final(rng).wf(),
        r == init_result(config, old(rng).draw(0), old(rng).draw(1)),
        old(rng).advanced_to(final(rng), init_draws(config, old(rng).draw(0))),
        r matches Ok(game) ==> game.wf() && game.winner is None,
{
    if !config.validate() {
        proof {
            vstd::arithmetic::div_mod::lemma_small_mod(rng.position(), rng.script().len());
        }
        return Err(GameError::InvalidConfig);
    }
    Ok(start(config, rng))
}

/// The user removes `count` pebbles and, unless that ends the game, the
/// program replies.
fn play_turn(game: GameState, count: u32, rng: &mut RandomSource) -> (r: Result<
    (GameState, PebblesEvent),
    GameError,
>)
    requires
        old(rng).wf(),
        game.wf(),
    ensures
        final(rng).wf(),
        r == turn_result(game, count, old(rng).draw(0)),
        old(rng).advanced_to(final(rng), turn_draws(game, count)),
{
    proof {
        vstd::arithmetic::div_mod::lemma_small_mod(rng.position(), rng.script().len());
    }
    let remaining = game.pebbles_remaining;
    let max = game.max_pebbles_per_turn;
    if game.winner.is_some() {
        return Err(GameError::GameOver);
    }
    if remaining == 0 {
        let next = GameState { winner: Some(Player::Program), ..game };
        return Ok((next, PebblesEvent::Won(Player::Program)));
    }
    if count == 0 || count > max || count > remaining {
        return Err(GameError::IllegalMove);
    }
    if count == remaining {
        let next = GameState { pebbles_remaining: 0, winner: Some(Player::User), ..game };
        return Ok((next, PebblesEvent::Won(Player::User)));
    }
    let left = remaining - count;
    let take = program_remove_count(left, max, rng);
    if take == left {
        let next = GameState { pebbles_remaining: 0, winner: Some(Player::Program), ..game };
        Ok((next, PebblesEvent::Won(Player::Program)))
    } else {
        let next = GameState { pebbles_remaining: left - take, ..game };
        Ok((next, PebblesEvent::CounterTurn(take)))
    }
}

/// Applies the user's `action` to `game`: the new state, and the event for a
/// `Turn` or a `GiveUp`. On an error nothing changes.
pub fn handle(game: GameState, action: PebblesAction, rng: &mut RandomSource) -> (r: Result<
    (GameState, Option<PebblesEvent>),
    GameError,
>)
    requires
        old(rng).wf(),
        game.wf(),
    ensures
        final(rng).wf(),
        r == handle_result(game, action, old(rng).draw(0), old(rng).draw(1)),
        old(rng).advanced_to(final(rng), handle_draws(game, action, old(rng).draw(0))),
        r matches Ok((next, _)) ==> next.wf(),
{
    match action {
        PebblesAction::Turn(count) => match play_turn(game, count, rng) {
            Ok((next, event)) => Ok((next, Some(event))),
            Err(e) => Err(e),
        },
        PebblesAction::GiveUp => {
            proof {
                vstd::arithmetic::div_mod::lemma_small_mod(rng.position(), rng.script().len());
            }
            let winner = match game.winner {
                Some(p) => Some(p),
                None => Some(Player::Program),
            };
            Ok((GameState { winner, ..game }, Some(PebblesEvent::Won(Player::Program))))
        },
        PebblesAction::Restart { difficulty, pebbles_count, max_pebbles_per_turn } => {
            let config = PebblesInit { difficulty, pebbles_count, max_pebbles_per_turn };
            match init(config, rng) {
                Ok(next) => Ok((next, None)),
                Err(e) => Err(e),
            }
        },
    }
}

/// A read of the stored state; nothing changes.
pub fn state(game: &GameState) -> (r: GameState)
    ensures
        r == snapshot(*game),
{
    *game
}

} // verus!

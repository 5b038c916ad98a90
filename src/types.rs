use vstd::prelude::*;

verus! {

/// Strength of the program's play. It does not change the engine's
/// behaviour; it is kept and carried through as given.
#[derive(Debug, Clone, Copy, PartialEq, Eq, Structural)]
pub enum DifficultyLevel {
    Easy,
    Hard,
}

/// One of the two sides of a game.
#[derive(Debug, Clone, Copy, PartialEq, Eq, Structural)]
pub enum Player {
    User,
    Program,
}

/// Settings of a new game.
#[derive(Debug, Clone, Copy, PartialEq, Eq)]
pub struct PebblesInit {
    pub difficulty: DifficultyLevel,
    pub pebbles_count: u32,
    pub max_pebbles_per_turn: u32,
}

/// What the user asks of the engine.
#[derive(Debug, Clone, Copy, PartialEq, Eq)]
pub enum PebblesAction {
    /// The user removes this many pebbles.
    Turn(u32),
    /// The user concedes.
    GiveUp,
    /// The game starts over with new settings.
    Restart { difficulty: DifficultyLevel, pebbles_count: u32, max_pebbles_per_turn: u32 },
}

/// What the engine answers to a `Turn` or a `GiveUp`.
#[derive(Debug, Clone, Copy, PartialEq, Eq)]
pub enum PebblesEvent {
    /// The game goes on; the program removed this many pebbles.
    CounterTurn(u32),
    /// The game is over and this side won.
    Won(Player),
}

/// The state of one game, kept by the host between calls.
#[derive(Debug, Clone, Copy, PartialEq, Eq)]
pub struct GameState {
    pub pebbles_count: u32,
    pub max_pebbles_per_turn: u32,
    pub pebbles_remaining: u32,
    pub difficulty: DifficultyLevel,
    pub first_player: Player,
    pub winner: Option<Player>,
}

/// Why the engine refused a call; the state is then left as it was.
#[derive(Debug, Clone, Copy, PartialEq, Eq, Structural)]
pub enum GameError {
    /// A pile or a turn limit of zero.
    InvalidConfig,
    /// A removal of zero pebbles, or of more than the turn limit or the pile allows.
    IllegalMove,
    /// A turn played after the game was won.
    GameOver,
}

impl PebblesInit {
    pub open spec fn is_valid(&self) -> bool {
        self.pebbles_count > 0 && self.max_pebbles_per_turn > 0
    }

    /// Whether both the pile and the turn limit are positive.
    pub fn validate(&self) -> (r: bool)
        ensures
            r == self.is_valid(),
    {
        self.pebbles_count > 0 && self.max_pebbles_per_turn > 0
    }
}

impl GameState {
    /// The invariant of a stored game: positive settings, and a pile no
    /// larger than it started.
    pub open spec fn wf(&self) -> bool {
        &&& self.pebbles_count > 0
        &&& self.max_pebbles_per_turn > 0
        &&& self.pebbles_remaining <= self.pebbles_count
    }

    /// Whether the state meets its invariant.
    pub fn is_consistent(&self) -> (r: bool)
        ensures
            r == self.wf(),
    {
        self.pebbles_count > 0 && self.max_pebbles_per_turn > 0
            && self.pebbles_remaining <= self.pebbles_count
    }
}

} // verus!

pub mod game;
pub mod laws;
pub mod tictactoe;

use crate::error::GameError;
use crate::games::tictactoe::{MoveOutcome, Phase, Seats, SessionState, TicTacToe};
use crate::types::{IncomingMessage, JsonTicTacToeMove, PlayerId};
use vstd::prelude::*;

verus! {

/// The games that the coordinator can run. It drives each of them through
/// the operations below and never looks at a game's own state.
#[derive(Clone, Copy, Debug)]
pub enum GameType {
    TicTacToe(TicTacToe),
}

impl View for GameType {
    type V = SessionState;

    open spec fn view(&self) -> SessionState {
        match self {
            GameType::TicTacToe(game) => game@,
        }
    }
}

impl GameType {
    /// Whether the game is in a state that its own operations can reach.
    pub open spec fn wf(&self) -> bool {
        match self {
            GameType::TicTacToe(game) => game.wf(),
        }
    }

    /// How many players must be connected before the game starts.
    pub open spec fn spec_min_players(&self) -> usize {
        match self {
            GameType::TicTacToe(_) => crate::games::tictactoe::MIN_PLAYERS,
        }
    }

    /// How many players must be connected before the game starts.
    #[verifier::when_used_as_spec(spec_min_players)]
    pub fn min_players(&self) -> (n: usize)
        ensures
            n == self.spec_min_players(),
    {
        match self {
            GameType::TicTacToe(game) => game.min_players(),
        }
    }

    /// How many seats the game has.
    pub open spec fn spec_max_players(&self) -> usize {
        match self {
            GameType::TicTacToe(_) => crate::games::tictactoe::MAX_PLAYERS,
        }
    }

    /// How many seats the game has.
    #[verifier::when_used_as_spec(spec_max_players)]
    pub fn max_players(&self) -> (n: usize)
        ensures
            n == self.spec_max_players(),
    {
        match self {
            GameType::TicTacToe(game) => game.max_players(),
        }
    }

    /// Where the session stands in its life.
    pub fn phase(&self) -> (phase: Phase)
        ensures
            phase == self@.phase,
    {
        match self {
            GameType::TicTacToe(game) => game.phase(),
        }
    }

    /// Seats `players`, the one at index `pick` first, and starts the game.
    pub fn init_with(&mut self, players: &Vec<PlayerId>, pick: usize) -> (seated: Result<
        Seats,
        GameError,
    >)
        requires
            old(self).wf(),
        ensures
            final(self).wf(),
            seated == old(self)@.seating(players@, pick as int),
            final(self)@ == match seated {
                Ok(seats) => old(self)@.started(seats),
                Err(_) => old(self)@,
            },
    {
        match self {
            GameType::TicTacToe(game) => game.init_with(players, pick),
        }
    }

    /// Seats `players`, one of them picked at random to be first, and starts
    /// the game.
    pub fn init(&mut self, players: &Vec<PlayerId>) -> (seated: Result<Seats, GameError>)
        requires
            old(self).wf(),
        ensures
            final(self).wf(),
            old(self)@.may_seat(players@, seated),
            final(self)@ == match seated {
                Ok(seats) => old(self)@.started(seats),
                Err(_) => old(self)@,
            },
    {
        match self {
            GameType::TicTacToe(game) => game.init(players),
        }
    }

    /// Lets `player` make the move `mv`, if the rules of the game allow it.
    pub fn apply_move(&mut self, player: PlayerId, mv: JsonTicTacToeMove) -> (outcome: MoveOutcome)
        requires
            old(self).wf(),
        ensures
            final(self).wf(),
            final(self)@ == old(self)@.after_move(player, mv.x as int, mv.y as int),
            outcome == old(self)@.outcome_of(player, mv.x, mv.y),
    {
        match self {
            GameType::TicTacToe(game) => game.apply_move(player, mv),
        }
    }

    /// Hands what a client has sent to the game.
    pub fn handle(&mut self, msg: &IncomingMessage) -> (reaction: Result<MoveOutcome, GameError>)
        requires
            old(self).wf(),
        ensures
            final(self).wf(),
            final(self)@ == old(self)@.after_message(*msg),
            reaction == old(self)@.reaction_to(*msg),
    {
        match self {
            GameType::TicTacToe(game) => game.handle(msg),
        }
    }
}

} // verus!

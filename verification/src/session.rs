//! The session state machine: no game yet, a live game, or a finished one.
//!
//! Only a live game accepts movement; a finished or unstarted session refuses
//! it and stays as it is, until a new session starts.

use vstd::prelude::*;

use crate::game::{intro_message, log_of, Game, GameError, MoveOutcome};
use crate::topology::{is_exit, valid_room};

verus! {

/// The shell's session state.
pub enum Model {
    GameOver(String),
    NewGame,
    Playing(Game),
}

/// A message from the shell: begin a session, or walk to a room.
#[derive(Debug, Clone)]
pub enum Msg {
    StartGame,
    SwitchRoom(u8),
}

impl Default for Model {
    /// Before anything happens there is no game.
    fn default() -> (m: Model)
        ensures
            m is NewGame,
    {
        Model::NewGame
    }
}

impl Model {
    /// A live game holds a well-formed state; the other variants hold none.
    pub open spec fn wf(self) -> bool {
        match self {
            Model::Playing(g) => g.wf(),
            _ => true,
        }
    }

    /// What a freshly started session looks like: a live game with its hazards
    /// placed, the player in room 1 with five arrows, and the opening line as
    /// the whole log.
    pub open spec fn started(self) -> bool {
        self matches Model::Playing(g) && g.wf() && g.placement_distinct() && g.current_room == 1
            && g.arrows == 5 && log_of(g.messages@) =~= seq![intro_message()]
    }

    /// What walking to `target` does to a session. A refused move, for
    /// whatever reason, leaves the session exactly as it was; a fatal move
    /// turns it into its terminal state; any other accepted move walks the
    /// player and appends the new room's warnings to the log.
    pub open spec fn moved(pre: Model, post: Model, target: u8, r: Result<(), GameError>) -> bool {
        &&& !(pre is Playing) ==> r == Err::<(), GameError>(GameError::IllegalMove) && post == pre
        &&& pre matches Model::Playing(g) ==> {
            &&& !valid_room(target as int) ==> r == Err::<(), GameError>(GameError::UnknownRoom)
                && post == pre
            &&& valid_room(target as int) && !is_exit(g.current_room as int, target as int)
                ==> r == Err::<(), GameError>(GameError::IllegalMove) && post == pre
            &&& is_exit(g.current_room as int, target as int) ==> {
                &&& r is Ok
                &&& match g.spec_terminal_at(target as int) {
                    Some(death) => post matches Model::GameOver(m) && m@ == death,
                    None => post matches Model::Playing(g2) && g2.current_room == target
                        && g2.wumpus == g.wumpus && g2.bats == g.bats && g2.pits == g.pits
                        && g2.arrows == g.arrows && log_of(g2.messages@) =~= log_of(g.messages@)
                        + g2.spec_warnings(),
                }
            }
        }
    }

    /// Begins a session seeded with `seed`: a fresh game, hazards placed, the
    /// player in room 1 with five arrows and the opening line in the log.
    pub fn start(&mut self, seed: u64)
        ensures
            final(self).wf(),
            final(self).started(),
    {
        *self = Model::Playing(Game::new_session(seed));
    }

    /// Walks the player to `target`, if a game is live and `target` is an exit
    /// of the player's room. A refused move, for whatever reason, leaves the
    /// session exactly as it was; a move that ends the game turns the session
    /// into its terminal state, which refuses all further moves.
    pub fn switch_room(&mut self, target: u8) -> (r: Result<(), GameError>)
        requires
            old(self).wf(),
        ensures
            final(self).wf(),
            Model::moved(*old(self), *final(self), target, r),
    {
        let outcome = match self {
            Model::Playing(game) => game.move_to(target),
            _ => Err(GameError::IllegalMove),
        };
        match outcome {
            Ok(MoveOutcome::Continue) => Ok(()),
            Ok(MoveOutcome::GameOver(m)) => {
                *self = Model::GameOver(m);
                Ok(())
            },
            Err(e) => Err(e),
        }
    }

    /// Handles one message from the shell: `StartGame` begins a session seeded
    /// with `seed`; `SwitchRoom` walks the player, `seed` unread.
    pub fn update(&mut self, msg: Msg, seed: u64) -> (r: Result<(), GameError>)
        requires
            old(self).wf(),
        ensures
            final(self).wf(),
            match msg {
                Msg::StartGame => r is Ok && final(self).started(),
                Msg::SwitchRoom(target) => Model::moved(*old(self), *final(self), target, r),
            },
    {
        match msg {
            Msg::StartGame => {
                self.start(seed);
                Ok(())
            },
            Msg::SwitchRoom(target) => self.switch_room(target),
        }
    }
}

} // verus!

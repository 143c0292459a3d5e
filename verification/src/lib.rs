//! The core of a four-seat, turn-based game session.
//!
//! The session is a state machine: the driver that owns the players'
//! queues, the timer and the board engine feeds it events, each with the
//! instant at which it happened, and carries out the commands it answers
//! with. Nothing here blocks or touches a queue, and only `epoch` reads a
//! clock.

pub mod chess_clock;
pub mod epoch;
pub mod game;
pub mod model;
pub mod players_states_diff;
pub mod protocol;
pub mod seat;

use crate::chess_clock::{ChessClock, ClockView};
use crate::players_states_diff::PlayersStates;
use crate::seat::Seat;
use vstd::prelude::*;

verus! {

/// A clock reading: the grace window and the bank that is left, in
/// nanoseconds.
#[derive(Debug, Clone, Copy, PartialEq, Eq, Structural)]
pub struct Timers {
    pub fast: u64,
    pub rest_of_time: u64,
}

impl Timers {
    /// The reading of a clock with the given view.
    pub open spec fn of(clock: ClockView) -> Timers {
        Timers { fast: clock.grace as u64, rest_of_time: clock.remaining as u64 }
    }
}

impl From<&mut ChessClock> for Timers {
    /// Reads the clock; the clock stays as it is.
    fn from(c: &mut ChessClock) -> (timers: Timers)
        ensures
            *final(c) == *old(c),
    {
        let t = c.timers();
        Timers { fast: t.0, rest_of_time: t.1 }
    }
}

impl vstd::std_specs::convert::FromSpecImpl<&mut ChessClock> for Timers {
    open spec fn obeys_from_spec() -> bool {
        true
    }

    open spec fn from_spec(c: &mut ChessClock) -> Timers {
        Timers::of(c@)
    }
}

/// What the session tells a player.
#[derive(Debug, PartialEq)]
pub enum ServerToPlayer<M, E> {
    /// It is `who`'s turn, and this is what `who`'s clock shows.
    CallToMove { who: Seat, timers: Timers },
    /// The board engine turned `mv` down for the reason `error`.
    MoveError { mv: M, error: E },
    /// The game is over and this seat has won.
    GameOver(Seat),
    /// This move was made.
    Move(M),
    /// These seats have a new status.
    StateChange(PlayersStates),
}

/// What a player tells the session.
#[derive(Debug, PartialEq)]
pub enum PlayerToServer<M> {
    /// The player wants to make this move.
    Move(M),
    /// The player gives up.
    Surrender,
}

impl<M: Clone, E: Clone> ServerToPlayer<M, E> {
    /// Whether `copy` is this message again: the same, but for a clone of
    /// the move and of the reason where the message carries them.
    pub open spec fn copied_as(self, copy: ServerToPlayer<M, E>) -> bool {
        match self {
            ServerToPlayer::MoveError { mv, error } => copy matches ServerToPlayer::MoveError {
                mv: m,
                error: e,
            } && cloned(mv, m) && cloned(error, e),
            ServerToPlayer::Move(mv) => copy matches ServerToPlayer::Move(m) && cloned(mv, m),
            _ => copy == self,
        }
    }
}

impl<M: Clone, E: Clone> Clone for ServerToPlayer<M, E> {
    fn clone(&self) -> (copy: ServerToPlayer<M, E>)
        ensures
            self.copied_as(copy),
    {
        match self {
            ServerToPlayer::CallToMove { who, timers } => ServerToPlayer::CallToMove {
                who: *who,
                timers: *timers,
            },
            ServerToPlayer::MoveError { mv, error } => ServerToPlayer::MoveError {
                mv: mv.clone(),
                error: error.clone(),
            },
            ServerToPlayer::GameOver(winner) => ServerToPlayer::GameOver(*winner),
            ServerToPlayer::Move(mv) => ServerToPlayer::Move(mv.clone()),
            ServerToPlayer::StateChange(delta) => ServerToPlayer::StateChange(*delta),
        }
    }
}

impl<M: Clone> Clone for PlayerToServer<M> {
    fn clone(&self) -> (copy: PlayerToServer<M>)
        ensures
            match *self {
                PlayerToServer::Move(mv) => copy matches PlayerToServer::Move(m) && cloned(mv, m),
                PlayerToServer::Surrender => copy == *self,
            },
    {
        match self {
            PlayerToServer::Move(mv) => PlayerToServer::Move(mv.clone()),
            PlayerToServer::Surrender => PlayerToServer::Surrender,
        }
    }
}

/// The seat has been claimed before.
#[derive(Debug, Clone, Copy, PartialEq, Eq, Structural)]
pub struct JoinErr;

} // verus!

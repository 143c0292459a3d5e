//! What the session and its driver say to each other.
//!
//! The driver owns everything that blocks: the players' queues, the timer
//! and the board engine. It hands the session one `Event` at a time and
//! carries out the `Command`s it gets back, in order. The last command of a
//! step names the event that the session expects next.

use crate::players_states_diff::PlayersStates;
use crate::seat::Seat;
use crate::{PlayerToServer, ServerToPlayer};
use vstd::prelude::*;

verus! {

/// What the board engine says about the turn order.
#[derive(Debug, Clone, Copy, PartialEq, Eq, Structural)]
pub enum Turn {
    /// This seat is next to move.
    ToMove(Seat),
    /// Nobody is left to move and this seat has won.
    Over(Seat),
}

/// The board engine's answer to `Command::Report`.
#[derive(Debug, Clone, Copy, PartialEq)]
pub struct BoardReport {
    pub players_states: PlayersStates,
    pub turn: Turn,
}

impl BoardReport {
    /// What the board's answers amount to. A seat that is next to move keeps
    /// the game going, whatever the board says of a winner; with nobody to
    /// move the winner ends it; with neither there is nothing to report.
    pub open spec fn read(
        players_states: PlayersStates,
        next_to_move: Option<Seat>,
        winner: Option<Seat>,
    ) -> Option<BoardReport> {
        match (next_to_move, winner) {
            (Some(seat), _) => Some(BoardReport { players_states, turn: Turn::ToMove(seat) }),
            (None, Some(seat)) => Some(BoardReport { players_states, turn: Turn::Over(seat) }),
            (None, None) => None,
        }
    }

    /// Puts the board's answers together: its standings, the seat it names
    /// as next to move and the seat it names as winner.
    pub fn new(
        players_states: PlayersStates,
        next_to_move: Option<Seat>,
        winner: Option<Seat>,
    ) -> (report: Option<BoardReport>)
        ensures
            report == BoardReport::read(players_states, next_to_move, winner),
            report is None <==> next_to_move is None && winner is None,
    {
        match next_to_move {
            Some(seat) => Some(BoardReport { players_states, turn: Turn::ToMove(seat) }),
            None => match winner {
                Some(seat) => Some(BoardReport { players_states, turn: Turn::Over(seat) }),
                None => None,
            },
        }
    }
}

/// Where the session stands.
#[derive(Debug, Clone, Copy, PartialEq, Eq, Structural)]
pub enum Phase {
    /// Not every seat is claimed yet, or the first report is still due.
    AwaitingAllSeats,
    /// `seat` has been called to move and its clock runs until `deadline`.
    Waiting { seat: Seat, deadline: u128 },
    /// A move of `seat` is with the board engine; the clock keeps running.
    Validating { seat: Seat, deadline: u128 },
    /// The turn is resolved and the board's report on it is due.
    Settling,
    /// The winner has been announced.
    Concluded,
}

/// What the driver tells the session.
#[derive(Debug, PartialEq)]
pub enum Event<M, E> {
    /// The board engine's standings and turn order, read just now.
    Report(BoardReport),
    /// The seat that is waited on sent this.
    Message(PlayerToServer<M>),
    /// The queue of the seat that is waited on was closed.
    Disconnected,
    /// The deadline of the running turn passed.
    DeadlineElapsed,
    /// The board engine applied this move of the seat that is waited on.
    Accepted(M),
    /// The board engine turned `mv` down for the reason `error`.
    Rejected { mv: M, error: E },
}

/// What the session tells the driver to do.
#[derive(Debug, PartialEq)]
pub enum Command<M, E> {
    /// Deliver the message to all four seats.
    Broadcast(ServerToPlayer<M, E>),
    /// Deliver the message to one seat only.
    Send { to: Seat, msg: ServerToPlayer<M, E> },
    /// Hand the move to the board engine and answer with `Event::Accepted`
    /// or `Event::Rejected`.
    Validate(M),
    /// Have the board engine record a loss for the seat.
    ForceLoss(Seat),
    /// Read the board engine and answer with `Event::Report`.
    Report,
    /// Wait for the seat's next message, the closing of its queue or the
    /// deadline, whichever comes first, and answer with that event.
    Await { seat: Seat, deadline: u128 },
    /// The session is over: close every queue.
    Finish,
}

impl Phase {
    /// The seat whose turn runs and the deadline of that turn, while a
    /// turn runs.
    pub open spec fn running(self) -> Option<(Seat, u128)> {
        match self {
            Phase::Waiting { seat, deadline } => Some((seat, deadline)),
            Phase::Validating { seat, deadline } => Some((seat, deadline)),
            _ => None,
        }
    }
}

} // verus!

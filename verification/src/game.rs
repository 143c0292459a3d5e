//! One game session: seat claiming, turn sequencing, clocks and status
//! broadcasts, with nothing that blocks.

use crate::chess_clock::ChessClock;
use crate::model::GameView;
use crate::players_states_diff::PlayersStates;
use crate::protocol::{Command, Event, Phase, Turn};
use crate::seat::{PerSeat, Seat};
use crate::{JoinErr, PlayerToServer, ServerToPlayer, Timers};
use vstd::prelude::*;

verus! {

/// One game session.
#[derive(Debug)]
pub struct Game {
    claimed: PerSeat<bool>,
    clocks: PerSeat<ChessClock>,
    players_states: PlayersStates,
    phase: Phase,
}

impl View for Game {
    type V = GameView;

    closed spec fn view(&self) -> GameView {
        GameView {
            claimed: Set::new(|seat: Seat| self.claimed.at(seat)),
            clocks: PerSeat {
                first: self.clocks.first@,
                second: self.clocks.second@,
                third: self.clocks.third@,
                fourth: self.clocks.fourth@,
            },
            players_states: self.players_states,
            phase: self.phase,
        }
    }
}

impl Game {
    /// A session in which no seat is claimed. Every seat gets a copy of
    /// `clock`.
    pub fn new(clock: ChessClock) -> (game: Game)
        ensures
            game@ == GameView::fresh(clock@),
            clock@.started is None ==> game@.wf(),
    {
        proof {
            clock.lemma_view_fits();
            if clock@.started is None {
                GameView::lemma_fresh_is_wf(clock@);
            }
        }
        let game = Game {
            claimed: PerSeat::filled(false),
            clocks: PerSeat::filled(clock),
            players_states: PlayersStates::new(),
            phase: Phase::AwaitingAllSeats,
        };
        assert(game@.claimed =~= Set::<Seat>::empty());
        game
    }

    /// Claims the seat `ident`. Fails if the seat has been claimed before.
    /// Returns `true` when this claim took the last free seat: the game
    /// can begin.
    pub fn join(&mut self, ident: Seat) -> (joined: Result<bool, JoinErr>)
        ensures
            final(self)@ == old(self)@.join(ident).0,
            joined == old(self)@.join(ident).1,
            joined is Err <==> old(self)@.claimed.contains(ident),
            old(self)@.wf() ==> final(self)@.wf(),
    {
        proof {
            if self@.wf() {
                self@.lemma_join_preserves_wf(ident);
            }
        }
        if *self.claimed.get(ident) {
            return Err(JoinErr);
        }
        self.claimed.set(ident, true);
        assert(self@.claimed =~= old(self)@.claimed.insert(ident));
        Ok(self.all_joined())
    }

    /// Whether all four seats are claimed.
    pub fn all_joined(&self) -> (all: bool)
        ensures
            all == self@.all_claimed(),
    {
        self.claimed.first && self.claimed.second && self.claimed.third && self.claimed.fourth
    }

    /// The phase the session is in.
    pub fn phase(&self) -> (phase: Phase)
        ensures
            phase == self@.phase,
    {
        self.phase
    }

    /// Whether `seat` has been claimed.
    pub fn is_claimed(&self, seat: Seat) -> (claimed: bool)
        ensures
            claimed == self@.claimed.contains(seat),
    {
        *self.claimed.get(seat)
    }

    /// What the clock of `seat` shows.
    pub fn timers(&self, seat: Seat) -> (timers: Timers)
        ensures
            timers == Timers::of(self@.clocks.at(seat)),
            timers.fast == self@.clocks.at(seat).grace,
            timers.rest_of_time == self@.clocks.at(seat).remaining,
    {
        let reading = self.clocks.get(seat).timers();
        Timers { fast: reading.0, rest_of_time: reading.1 }
    }

    /// The standings that the seats were last told: the baseline of the
    /// next status broadcast.
    pub fn players_states(&self) -> (states: PlayersStates)
        ensures
            states == self@.players_states,
    {
        self.players_states
    }

    /// The deliveries that make up a broadcast of `msg`: one copy for each
    /// seat, in play order.
    pub fn broadcast<M: Clone, E: Clone>(
        msg: ServerToPlayer<M, E>,
    ) -> (deliveries: Vec<(Seat, ServerToPlayer<M, E>)>)
        ensures
            deliveries@.len() == 4,
            deliveries@[0].0 == Seat::First,
            deliveries@[1].0 == Seat::Second,
            deliveries@[2].0 == Seat::Third,
            deliveries@[3].0 == Seat::Fourth,
            forall|i: int| 0 <= i < 4 ==> msg.copied_as((#[trigger] deliveries@[i]).1),
    {
        let mut deliveries: Vec<(Seat, ServerToPlayer<M, E>)> = Vec::new();
        deliveries.push((Seat::First, msg.clone()));
        deliveries.push((Seat::Second, msg.clone()));
        deliveries.push((Seat::Third, msg.clone()));
        deliveries.push((Seat::Fourth, msg));
        deliveries
    }

    fn advance<M, E>(&mut self, turn: Turn, now: u64, commands: &mut Vec<Command<M, E>>)
        ensures
            final(self)@ == old(self)@.advance::<M, E>(turn, now as nat).0,
            final(commands)@ == old(commands)@ + old(self)@.advance::<M, E>(turn, now as nat).1,
    {
        match turn {
            Turn::ToMove(seat) => {
                let mut clock = *self.clocks.get(seat);
                let reading = clock.timers();
                let deadline = clock.start(now);
                self.clocks.set(seat, clock);
                self.phase = Phase::Waiting { seat, deadline };
                commands.push(
                    Command::Broadcast(
                        ServerToPlayer::CallToMove {
                            who: seat,
                            timers: Timers { fast: reading.0, rest_of_time: reading.1 },
                        },
                    ),
                );
                commands.push(Command::Await { seat, deadline });
            },
            Turn::Over(winner) => {
                self.phase = Phase::Concluded;
                commands.push(Command::Broadcast(ServerToPlayer::GameOver(winner)));
                commands.push(Command::Finish);
            },
        }
    }

    fn stop_clock(&mut self, seat: Seat, now: u64)
        ensures
            final(self)@ == (GameView {
                clocks: old(self)@.clocks.updated(seat, old(self)@.clocks.at(seat).stop(now as nat)),
                ..old(self)@
            }),
    {
        let mut clock = *self.clocks.get(seat);
        clock.stop(now);
        self.clocks.set(seat, clock);
    }

    /// Takes in `event`, which the driver observed at the instant `now`,
    /// and returns what the driver is to do, in order.
    pub fn step<M, E>(&mut self, event: Event<M, E>, now: u64) -> (commands: Vec<Command<M, E>>)
        ensures
            final(self)@ == old(self)@.step(event, now as nat).0,
            commands@ == old(self)@.step(event, now as nat).1,
            old(self)@.wf() ==> final(self)@.wf(),
            forall|seat: Seat|
                final(self)@.clocks.at(seat).remaining
                    <= #[trigger] old(self)@.clocks.at(seat).remaining,
    {
        proof {
            if self@.wf() {
                self@.lemma_step_preserves_wf(event, now as nat);
            }
            assert forall|seat: Seat|
                self@.step(event, now as nat).0.clocks.at(seat).remaining
                    <= #[trigger] self@.clocks.at(seat).remaining by {
                self@.lemma_banks_never_grow(event, now as nat, seat);
            }
        }
        let mut commands: Vec<Command<M, E>> = Vec::new();
        match self.phase {
            Phase::AwaitingAllSeats => match event {
                Event::Report(report) => {
                    if self.all_joined() {
                        self.players_states = report.players_states;
                        self.advance(report.turn, now, &mut commands);
                    }
                },
                _ => {},
            },
            Phase::Waiting { seat, deadline } => match event {
                Event::Message(PlayerToServer::Move(mv)) => {
                    self.phase = Phase::Validating { seat, deadline };
                    commands.push(Command::Validate(mv));
                },
                Event::Message(PlayerToServer::Surrender)
                | Event::Disconnected
                | Event::DeadlineElapsed => {
                    self.stop_clock(seat, now);
                    self.phase = Phase::Settling;
                    commands.push(Command::ForceLoss(seat));
                    commands.push(Command::Report);
                },
                _ => {},
            },
            Phase::Validating { seat, deadline } => match event {
                Event::Accepted(mv) => {
                    self.stop_clock(seat, now);
                    self.phase = Phase::Settling;
                    commands.push(Command::Broadcast(ServerToPlayer::Move(mv)));
                    commands.push(Command::Report);
                },
                Event::Rejected { mv, error } => {
                    self.phase = Phase::Waiting { seat, deadline };
                    commands.push(
                        Command::Send { to: seat, msg: ServerToPlayer::MoveError { mv, error } },
                    );
                    commands.push(Command::Await { seat, deadline });
                },
                _ => {},
            },
            Phase::Settling => match event {
                Event::Report(report) => {
                    if let Some(delta) = report.players_states.diff(&self.players_states) {
                        self.players_states = report.players_states;
                        commands.push(Command::Broadcast(ServerToPlayer::StateChange(delta)));
                    }
                    self.advance(report.turn, now, &mut commands);
                },
                _ => {},
            },
            Phase::Concluded => {},
        }
        commands
    }
}

} // verus!

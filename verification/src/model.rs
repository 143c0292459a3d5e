//! The session as a mathematical state machine, and what holds of it.

use crate::chess_clock::ClockView;
use crate::players_states_diff::{changed_since, PlayersStates};
use crate::protocol::{BoardReport, Command, Event, Phase, Turn};
use crate::seat::{PerSeat, Seat};
use crate::{JoinErr, PlayerToServer, ServerToPlayer, Timers};
use vstd::prelude::*;

verus! {

/// The session as a mathematical value.
pub struct GameView {
    pub claimed: Set<Seat>,
    pub clocks: PerSeat<ClockView>,
    pub players_states: PlayersStates,
    pub phase: Phase,
}

impl GameView {
    /// A session in which no seat is claimed and every seat has a copy of
    /// `clock`.
    pub open spec fn fresh(clock: ClockView) -> GameView {
        GameView {
            claimed: Set::empty(),
            clocks: PerSeat { first: clock, second: clock, third: clock, fourth: clock },
            players_states: PlayersStates::empty(),
            phase: Phase::AwaitingAllSeats,
        }
    }

    /// Whether all four seats are claimed.
    pub open spec fn all_claimed(self) -> bool {
        &&& self.claimed.contains(Seat::First)
        &&& self.claimed.contains(Seat::Second)
        &&& self.claimed.contains(Seat::Third)
        &&& self.claimed.contains(Seat::Fourth)
    }

    /// Claims `seat`. A seat can be claimed once; the answer to the claim
    /// that takes the last free seat is `Ok(true)`.
    pub open spec fn join(self, seat: Seat) -> (GameView, Result<bool, JoinErr>) {
        if self.claimed.contains(seat) {
            (self, Err(JoinErr))
        } else {
            let next = GameView { claimed: self.claimed.insert(seat), ..self };
            (next, Ok(next.all_claimed()))
        }
    }

    /// An event that the session does not expect changes nothing.
    pub open spec fn ignore<M, E>(self) -> (GameView, Seq<Command<M, E>>) {
        (self, Seq::empty())
    }

    /// Goes on after a report. If a seat is to move, every seat is told so
    /// with the reading of that seat's clock, and the clock starts at
    /// `now`. If the game is over, every seat is told the winner.
    pub open spec fn advance<M, E>(self, turn: Turn, now: nat) -> (GameView, Seq<Command<M, E>>) {
        match turn {
            Turn::ToMove(seat) => {
                let clock = self.clocks.at(seat);
                let deadline = (now + clock.remaining + clock.grace) as u128;
                (
                    GameView {
                        clocks: self.clocks.updated(seat, clock.start(now)),
                        phase: Phase::Waiting { seat, deadline },
                        ..self
                    },
                    seq![
                        Command::Broadcast(
                            ServerToPlayer::CallToMove { who: seat, timers: Timers::of(clock) },
                        ),
                        Command::Await { seat, deadline },
                    ],
                )
            },
            Turn::Over(winner) => (
                GameView { phase: Phase::Concluded, ..self },
                seq![Command::Broadcast(ServerToPlayer::GameOver(winner)), Command::Finish],
            ),
        }
    }

    /// The first report, once all seats are claimed: its standings become
    /// the baseline, unannounced, and the first turn begins.
    pub open spec fn begin<M, E>(
        self,
        report: BoardReport,
        now: nat,
    ) -> (GameView, Seq<Command<M, E>>) {
        GameView { players_states: report.players_states, ..self }.advance(report.turn, now)
    }

    /// The turn of `seat` ends without a move: its clock stops at `now` and
    /// the board engine is to record its loss.
    pub open spec fn forfeit<M, E>(self, seat: Seat, now: nat) -> (GameView, Seq<Command<M, E>>) {
        (
            GameView {
                clocks: self.clocks.updated(seat, self.clocks.at(seat).stop(now)),
                phase: Phase::Settling,
                ..self
            },
            seq![Command::ForceLoss(seat), Command::Report],
        )
    }

    /// The board engine applied `mv` of `seat`: the clock stops at `now`
    /// and every seat is told the move.
    pub open spec fn accept<M, E>(
        self,
        seat: Seat,
        mv: M,
        now: nat,
    ) -> (GameView, Seq<Command<M, E>>) {
        (
            GameView {
                clocks: self.clocks.updated(seat, self.clocks.at(seat).stop(now)),
                phase: Phase::Settling,
                ..self
            },
            seq![Command::Broadcast(ServerToPlayer::Move(mv)), Command::Report],
        )
    }

    /// The board engine turned `mv` of `seat` down: `seat` alone is told,
    /// and the wait goes on against the same deadline.
    pub open spec fn reject<M, E>(
        self,
        seat: Seat,
        deadline: u128,
        mv: M,
        error: E,
    ) -> (GameView, Seq<Command<M, E>>) {
        (
            GameView { phase: Phase::Waiting { seat, deadline }, ..self },
            seq![
                Command::Send { to: seat, msg: ServerToPlayer::MoveError { mv, error } },
                Command::Await { seat, deadline },
            ],
        )
    }

    /// The report on a resolved turn. If any standing differs from the
    /// baseline, the report's standings become the baseline and every seat
    /// is told the difference. Then the game goes on.
    pub open spec fn settle<M, E>(
        self,
        report: BoardReport,
        now: nat,
    ) -> (GameView, Seq<Command<M, E>>) {
        let delta = report.players_states.delta(self.players_states);
        if delta == PlayersStates::empty() {
            self.advance(report.turn, now)
        } else {
            let told = GameView { players_states: report.players_states, ..self };
            let (next, commands) = told.advance::<M, E>(report.turn, now);
            (next, seq![Command::Broadcast(ServerToPlayer::StateChange(delta))] + commands)
        }
    }

    /// The session after `event` at the instant `now`, and what the driver
    /// is to do.
    pub open spec fn step<M, E>(
        self,
        event: Event<M, E>,
        now: nat,
    ) -> (GameView, Seq<Command<M, E>>) {
        match self.phase {
            Phase::AwaitingAllSeats => match event {
                Event::Report(report) => if self.all_claimed() {
                    self.begin(report, now)
                } else {
                    self.ignore()
                },
                _ => self.ignore(),
            },
            Phase::Waiting { seat, deadline } => match event {
                Event::Message(PlayerToServer::Move(mv)) => (
                    GameView { phase: Phase::Validating { seat, deadline }, ..self },
                    seq![Command::Validate(mv)],
                ),
                Event::Message(PlayerToServer::Surrender) => self.forfeit(seat, now),
                Event::Disconnected => self.forfeit(seat, now),
                Event::DeadlineElapsed => self.forfeit(seat, now),
                _ => self.ignore(),
            },
            Phase::Validating { seat, deadline } => match event {
                Event::Accepted(mv) => self.accept(seat, mv, now),
                Event::Rejected { mv, error } => self.reject(seat, deadline, mv, error),
                _ => self.ignore(),
            },
            Phase::Settling => match event {
                Event::Report(report) => self.settle(report, now),
                _ => self.ignore(),
            },
            Phase::Concluded => self.ignore(),
        }
    }
}

impl GameView {
    /// What holds of every session that began fresh with a stopped clock:
    /// the clocks' numbers fit in 64 bits; the game is under way only
    /// once all seats are claimed; and a clock runs exactly while its seat's
    /// turn runs, against the deadline that the phase records.
    pub open spec fn wf(self) -> bool {
        &&& forall|seat: Seat| (#[trigger] self.clocks.at(seat)).fits()
        &&& self.phase != Phase::AwaitingAllSeats ==> self.all_claimed()
        &&& match self.phase.running() {
            Some((mover, deadline)) => {
                &&& self.clocks.at(mover).deadline() == Some(deadline as nat)
                &&& forall|seat: Seat|
                    seat != mover ==> (#[trigger] self.clocks.at(seat)).started is None
            },
            None => forall|seat: Seat| (#[trigger] self.clocks.at(seat)).started is None,
        }
    }

    /// A fresh session is well formed.
    pub proof fn lemma_fresh_is_wf(clock: ClockView)
        requires
            clock.fits(),
            clock.started is None,
        ensures
            GameView::fresh(clock).wf(),
    {
        let fresh = GameView::fresh(clock);
        assert forall|seat: Seat| #[trigger] fresh.clocks.at(seat) == clock by {
            match seat {
                Seat::First => {},
                Seat::Second => {},
                Seat::Third => {},
                Seat::Fourth => {},
            }
        }
    }

    /// Claiming a seat keeps a session well formed, and touches neither the
    /// clocks nor the standings nor the phase.
    pub proof fn lemma_join_preserves_wf(self, seat: Seat)
        requires
            self.wf(),
        ensures
            self.join(seat).0.wf(),
            self.join(seat).0.clocks == self.clocks,
            self.join(seat).0.players_states == self.players_states,
            self.join(seat).0.phase == self.phase,
    {
    }

    /// A step keeps a session well formed.
    pub proof fn lemma_step_preserves_wf<M, E>(self, event: Event<M, E>, now: nat)
        requires
            self.wf(),
            now <= u64::MAX,
        ensures
            self.step(event, now).0.wf(),
    {
        let next = self.step(event, now).0;
        assert forall|seat: Seat| (#[trigger] next.clocks.at(seat)).fits() by {
            self.lemma_step_touches_the_mover_only(event, now, seat);
            assert(self.clocks.at(seat).fits());
        }
        match next.phase.running() {
            Some((mover, deadline)) => {
                assert forall|seat: Seat| seat != mover implies
                    (#[trigger] next.clocks.at(seat)).started is None by {
                    self.lemma_step_touches_the_mover_only(event, now, seat);
                    assert(self.clocks.at(seat).fits());
                }
                assert(self.clocks.at(mover).fits());
            },
            None => {
                assert forall|seat: Seat| (#[trigger] next.clocks.at(seat)).started is None by {
                    self.lemma_step_touches_the_mover_only(event, now, seat);
                    assert(self.clocks.at(seat).fits());
                }
            },
        }
    }

    /// A step changes no clock but that of the seat whose turn ends or
    /// begins: the one is stopped at `now`, the other started at `now`.
    pub proof fn lemma_step_touches_the_mover_only<M, E>(
        self,
        event: Event<M, E>,
        now: nat,
        seat: Seat,
    )
        ensures
            ({
                let before = self.clocks.at(seat);
                let after = self.step(event, now).0.clocks.at(seat);
                ||| after == before
                ||| after == before.stop(now) && self.phase.running().is_some()
                    && self.phase.running().unwrap().0 == seat
                ||| after == before.start(now)
                    && self.step(event, now).0.phase == (Phase::Waiting {
                        seat,
                        deadline: (now + before.remaining + before.grace) as u128,
                    })
            }),
    {
        match seat {
            Seat::First => {},
            Seat::Second => {},
            Seat::Third => {},
            Seat::Fourth => {},
        }
    }

    /// No step and no claim ever adds to a seat's bank or changes its grace
    /// window, and the set of claimed seats never shrinks.
    pub proof fn lemma_banks_never_grow<M, E>(self, event: Event<M, E>, now: nat, seat: Seat)
        ensures
            self.step(event, now).0.clocks.at(seat).remaining <= self.clocks.at(seat).remaining,
            self.step(event, now).0.clocks.at(seat).grace == self.clocks.at(seat).grace,
            self.step(event, now).0.claimed == self.claimed,
            self.join(seat).0.clocks == self.clocks,
            self.claimed.subset_of(self.join(seat).0.claimed),
    {
        self.lemma_step_touches_the_mover_only(event, now, seat);
    }

    /// A turn that begins at `since` with a call to move and ends at `now`
    /// with an accepted move costs the mover what the turn took beyond the
    /// grace window, the whole bank at most: nothing if the move came
    /// within the grace window. The other seats pay nothing.
    pub proof fn lemma_turn_charges_overrun<M, E>(
        self,
        mover: Seat,
        mv: M,
        since: nat,
        sent: nat,
        now: nat,
        seat: Seat,
    )
        requires
            since <= now,
        ensures
            ({
                let called = self.advance::<M, E>(Turn::ToMove(mover), since).0;
                let moved = called.step::<M, E>(Event::Message(PlayerToServer::Move(mv)), sent).0;
                let settled = moved.step::<M, E>(Event::Accepted(mv), now).0;
                let bank = self.clocks.at(mover).remaining;
                let grace = self.clocks.at(mover).grace;
                &&& settled.phase == Phase::Settling
                &&& seat != mover ==> settled.clocks.at(seat) == self.clocks.at(seat)
                &&& now - since <= grace ==> settled.clocks.at(mover).remaining == bank
                &&& now - since > grace ==> settled.clocks.at(mover).remaining
                    == if now - since - grace >= bank {
                        0
                    } else {
                        bank - (now - since - grace)
                    }
            }),
    {
        self.clocks.at(mover).lemma_turn_cost(since, now);
        match seat {
            Seat::First => {},
            Seat::Second => {},
            Seat::Third => {},
            Seat::Fourth => {},
        }
        match mover {
            Seat::First => {},
            Seat::Second => {},
            Seat::Third => {},
            Seat::Fourth => {},
        }
    }

    /// A move that the board engine applies while the mover's clock is
    /// still within its grace window leaves every bank as it was.
    pub proof fn lemma_move_within_grace_is_free<M, E>(
        self,
        mover: Seat,
        deadline: u128,
        mv: M,
        now: nat,
        seat: Seat,
    )
        requires
            self.phase == (Phase::Validating { seat: mover, deadline }),
            self.clocks.at(mover).elapsed(now) <= self.clocks.at(mover).grace,
        ensures
            self.step::<M, E>(Event::Accepted(mv), now).0.clocks.at(seat).remaining
                == self.clocks.at(seat).remaining,
    {
        self.lemma_step_touches_the_mover_only::<M, E>(Event::Accepted(mv), now, seat);
        self.clocks.at(mover).lemma_bank_never_grows(now);
    }

    /// A seat that is waited on and surrenders, hangs up or lets its
    /// deadline pass is treated alike: its clock stops, the board engine is
    /// to record its loss, and the board's report is asked for.
    pub proof fn lemma_silence_counts_as_surrender<M, E>(self, seat: Seat, deadline: u128, now: nat)
        requires
            self.phase == (Phase::Waiting { seat, deadline }),
        ensures
            self.step::<M, E>(Event::Disconnected, now) == self.step::<M, E>(
                Event::Message(PlayerToServer::Surrender),
                now,
            ),
            self.step::<M, E>(Event::DeadlineElapsed, now) == self.step::<M, E>(
                Event::Message(PlayerToServer::Surrender),
                now,
            ),
            self.step::<M, E>(Event::Message(PlayerToServer::Surrender), now).1 == seq![
                Command::<M, E>::ForceLoss(seat),
                Command::Report,
            ],
            self.step::<M, E>(Event::Message(PlayerToServer::Surrender), now).0 == (GameView {
                clocks: self.clocks.updated(seat, self.clocks.at(seat).stop(now)),
                phase: Phase::Settling,
                ..self
            }),
    {
    }

    /// A turn is told in order. From the call to move to the next call, the
    /// seats hear: the call, with the mover's clock as it stood; the move,
    /// once the board engine has applied it; the standings that the move
    /// changed, if it changed any; and then the next call or the winner.
    pub proof fn lemma_turn_is_told_in_order<M, E>(
        self,
        mover: Seat,
        mv: M,
        report: BoardReport,
        since: nat,
        sent: nat,
        judged: nat,
        now: nat,
    )
        ensures
            ({
                let (called, calling) = self.advance::<M, E>(Turn::ToMove(mover), since);
                let (moved, asking) = called.step::<M, E>(
                    Event::Message(PlayerToServer::Move(mv)),
                    sent,
                );
                let (judging, telling) = moved.step::<M, E>(Event::Accepted(mv), judged);
                let (next, settling) = judging.step::<M, E>(Event::Report(report), now);
                let delta = report.players_states.delta(self.players_states);
                let after = GameView { players_states: report.players_states, ..judging };
                &&& calling[0] == Command::<M, E>::Broadcast(
                    ServerToPlayer::CallToMove {
                        who: mover,
                        timers: Timers::of(self.clocks.at(mover)),
                    },
                )
                &&& asking == seq![Command::<M, E>::Validate(mv)]
                &&& telling == seq![
                    Command::<M, E>::Broadcast(ServerToPlayer::Move(mv)),
                    Command::Report,
                ]
                &&& delta == PlayersStates::empty() ==> settling == judging.advance::<M, E>(
                    report.turn,
                    now,
                ).1
                &&& delta != PlayersStates::empty() ==> settling == seq![
                    Command::<M, E>::Broadcast(ServerToPlayer::StateChange(delta)),
                ] + after.advance::<M, E>(report.turn, now).1
                &&& next.players_states == if delta == PlayersStates::empty() {
                    self.players_states
                } else {
                    report.players_states
                }
            }),
    {
    }

    /// The winner is told once, last of all: the step that broadcasts the
    /// end of the game concludes the session and commands the driver to
    /// finish, and a concluded session commands nothing more.
    pub proof fn lemma_game_over_is_final<M, E>(self, event: Event<M, E>, now: nat, i: int)
        ensures
            ({
                let (next, commands) = self.step(event, now);
                &&& 0 <= i < commands.len() ==> (commands[i] matches Command::Broadcast(
                    ServerToPlayer::GameOver(winner),
                ) ==> {
                    &&& i == commands.len() - 2
                    &&& commands.last() == Command::<M, E>::Finish
                    &&& next.phase == Phase::Concluded
                    &&& event matches Event::Report(report)
                    &&& report.turn == Turn::Over(winner)
                })
                &&& 0 <= i < commands.len() && commands[i] is Finish ==> next.phase
                    == Phase::Concluded
                &&& self.phase == Phase::Concluded ==> commands.len() == 0 && next == self
            }),
    {
    }

    /// A rejection is told to the mover alone. Whatever the session and the
    /// event, a private message is the rejection of the move just judged,
    /// sent first and to the mover, and no broadcast carries a rejection.
    /// The rejection ends no turn: clocks and standings stay, and the wait
    /// goes on against the same deadline.
    pub proof fn lemma_rejection_is_private<M, E>(self, event: Event<M, E>, now: nat, i: int)
        ensures
            ({
                let (next, commands) = self.step(event, now);
                &&& 0 <= i < commands.len() && commands[i] is Send ==> {
                    &&& i == 0
                    &&& self.phase matches Phase::Validating { seat, deadline }
                    &&& event matches Event::Rejected { mv, error }
                    &&& commands[i] == (Command::Send {
                        to: seat,
                        msg: ServerToPlayer::MoveError { mv, error },
                    })
                }
                &&& 0 <= i < commands.len() ==> (commands[i] matches Command::Broadcast(msg)
                    ==> !(msg is MoveError))
                &&& self.phase matches Phase::Validating { seat, deadline }
                    ==> (event matches Event::Rejected { mv, error } ==> {
                    &&& commands == seq![
                        Command::Send { to: seat, msg: ServerToPlayer::MoveError { mv, error } },
                        Command::Await { seat, deadline },
                    ]
                    &&& next == (GameView { phase: Phase::Waiting { seat, deadline }, ..self })
                })
            }),
    {
    }

    /// A status broadcast is the delta of the report against the baseline.
    /// Whatever the session and the event, a broadcast of changed standings
    /// answers a report on a resolved turn, comes first, and holds exactly
    /// the seats whose status in the report differs from the baseline, each
    /// with its status in the report; there is at least one such seat. When
    /// the report holds no such seat, nothing of the kind is broadcast.
    pub proof fn lemma_status_broadcast_is_the_delta<M, E>(
        self,
        event: Event<M, E>,
        now: nat,
        i: int,
    )
        ensures
            ({
                let commands = self.step(event, now).1;
                &&& 0 <= i < commands.len() ==> (commands[i] matches Command::Broadcast(
                    ServerToPlayer::StateChange(delta),
                ) ==> {
                    &&& i == 0
                    &&& self.phase == Phase::Settling
                    &&& event matches Event::Report(report)
                    &&& delta@ == changed_since(report.players_states@, self.players_states@)
                    &&& !delta@.is_empty()
                    &&& forall|seat: Seat| #[trigger]
                        delta@.contains_key(seat) ==> {
                            &&& report.players_states@.contains_key(seat)
                            &&& delta@[seat] == report.players_states@[seat]
                            &&& !(self.players_states@.contains_key(seat)
                                && self.players_states@[seat] == delta@[seat])
                        }
                })
                &&& self.phase == Phase::Settling ==> (event matches Event::Report(report) ==> {
                    let changed = changed_since(report.players_states@, self.players_states@);
                    &&& !changed.is_empty() ==> commands.len() == 3
                        && commands[0] == Command::<M, E>::Broadcast(
                            ServerToPlayer::StateChange(
                                report.players_states.delta(self.players_states),
                            ),
                        )
                    &&& changed.is_empty() ==> commands.len() == 2
                        && !(commands[0] matches Command::Broadcast(
                            ServerToPlayer::StateChange(_),
                        ))
                        && !(commands[1] matches Command::Broadcast(
                            ServerToPlayer::StateChange(_),
                        ))
                })
            }),
    {
        if let Event::Report(report) = event {
            report.players_states.lemma_delta_is_changed_since(self.players_states);
        }
    }

    /// Whether the session, in the phase it is in, has a use for `event`: a
    /// first report once all seats are claimed; a message, a closed queue
    /// or an elapsed deadline while a seat is waited on; a verdict while a
    /// move is judged; a report once a turn is resolved.
    pub open spec fn expects<M, E>(self, event: Event<M, E>) -> bool {
        match self.phase {
            Phase::AwaitingAllSeats => event is Report && self.all_claimed(),
            Phase::Waiting { .. } => event is Message || event is Disconnected
                || event is DeadlineElapsed,
            Phase::Validating { .. } => event is Accepted || event is Rejected,
            Phase::Settling => event is Report,
            Phase::Concluded => false,
        }
    }

    /// An event that the session has no use for changes nothing and
    /// commands nothing; any other commands something.
    pub proof fn lemma_unexpected_events_are_ignored<M, E>(self, event: Event<M, E>, now: nat)
        ensures
            self.expects(event) <==> self.step(event, now).1.len() > 0,
            !self.expects(event) ==> self.step(event, now).0 == self,
    {
    }

    /// The last command of a step names what the session waits for next:
    /// after `Validate` a verdict, after `Report` a report, after `Await`
    /// the mover's answer or the deadline, after `Finish` nothing. A step
    /// that commands nothing changes nothing.
    pub proof fn lemma_last_command_tells_the_phase<M, E>(self, event: Event<M, E>, now: nat)
        ensures
            ({
                let (next, commands) = self.step(event, now);
                if commands.len() == 0 {
                    next == self
                } else {
                    match commands.last() {
                        Command::Validate(_) => next.phase is Validating,
                        Command::Report => next.phase == Phase::Settling,
                        Command::Await { seat, deadline } => next.phase == (Phase::Waiting {
                            seat,
                            deadline,
                        }),
                        Command::Finish => next.phase == Phase::Concluded,
                        _ => false,
                    }
                }
            }),
    {
    }

    /// A seat is claimed once. A claim fails exactly if the seat is taken,
    /// so it fails once repeated and fails for every seat once all four are
    /// taken; and the claim that is answered `Ok(true)` is the one that
    /// takes the last free seat.
    pub proof fn lemma_seat_is_claimed_once(self, seat: Seat, again: Seat)
        ensures
            self.join(seat).1 is Err <==> self.claimed.contains(seat),
            self.join(seat).0.join(seat).1 is Err,
            self.all_claimed() ==> self.join(seat).1 is Err,
            self.claimed.contains(again) ==> self.join(seat).0.join(again).1 is Err,
            self.join(seat).1 == Ok::<bool, JoinErr>(true)
                ==> self.join(seat).0.join(again).1 is Err,
            self.join(seat).1 == Ok::<bool, JoinErr>(true) <==> !self.claimed.contains(seat)
                && forall|other: Seat| other != seat ==> self.claimed.contains(other),
    {
        match seat {
            Seat::First => {},
            Seat::Second => {},
            Seat::Third => {},
            Seat::Fourth => {},
        }
        match again {
            Seat::First => {},
            Seat::Second => {},
            Seat::Third => {},
            Seat::Fourth => {},
        }
    }
}

/// One thing that happens to a session: a seat is claimed, or the driver
/// reports an event at an instant.
pub enum Input<M, E> {
    Join(Seat),
    Step(Event<M, E>, nat),
}

impl GameView {
    /// The session after `input`.
    pub open spec fn apply<M, E>(self, input: Input<M, E>) -> GameView {
        match input {
            Input::Join(seat) => self.join(seat).0,
            Input::Step(event, now) => self.step(event, now).0,
        }
    }

    /// The session after a whole history of inputs, oldest first.
    pub open spec fn run<M, E>(self, history: Seq<Input<M, E>>) -> GameView
        decreases history.len(),
    {
        if history.len() == 0 {
            self
        } else {
            self.run(history.drop_last()).apply(history.last())
        }
    }

    /// Whatever happens to a session, in whatever order: no bank ever
    /// grows and no grace window changes; a seat that is claimed stays
    /// claimed, so that claiming it again fails; and a concluded session
    /// stays concluded.
    pub proof fn lemma_history_never_undoes<M, E>(self, history: Seq<Input<M, E>>, seat: Seat)
        ensures
            self.run(history).clocks.at(seat).remaining <= self.clocks.at(seat).remaining,
            self.run(history).clocks.at(seat).grace == self.clocks.at(seat).grace,
            self.claimed.contains(seat) ==> self.run(history).claimed.contains(seat),
            self.claimed.contains(seat) ==> self.run(history).join(seat).1 is Err,
            self.phase == Phase::Concluded ==> self.run(history).phase == Phase::Concluded,
        decreases history.len(),
    {
        if history.len() > 0 {
            let before = self.run(history.drop_last());
            self.lemma_history_never_undoes(history.drop_last(), seat);
            match history.last() {
                Input::Join(claimed) => {},
                Input::Step(event, now) => {
                    before.lemma_banks_never_grow(event, now, seat);
                },
            }
        }
    }

    /// A session that is well formed stays so, whatever happens to it, as
    /// long as the instants are such as a driver can report.
    pub proof fn lemma_history_preserves_wf<M, E>(self, history: Seq<Input<M, E>>)
        requires
            self.wf(),
            forall|i: int|
                0 <= i < history.len() ==> (#[trigger] history[i] matches Input::Step(_, now)
                    ==> now <= u64::MAX),
        ensures
            self.run(history).wf(),
        decreases history.len(),
    {
        if history.len() > 0 {
            let before = self.run(history.drop_last());
            assert forall|i: int| 0 <= i < history.drop_last().len() implies (
                #[trigger] history.drop_last()[i] matches Input::Step(_, now) ==> now <= u64::MAX
            ) by {
                assert(history.drop_last()[i] == history[i]);
            }
            self.lemma_history_preserves_wf(history.drop_last());
            match history.last() {
                Input::Join(seat) => {
                    before.lemma_join_preserves_wf(seat);
                },
                Input::Step(event, now) => {
                    assert(history[history.len() - 1] == history.last());
                    before.lemma_step_preserves_wf(event, now);
                },
            }
        }
    }
}

} // verus!

//! A per-seat countdown clock with an untimed grace window each turn.
//!
//! All times are whole nanoseconds. Instants are counted from an epoch that
//! the caller picks once and keeps for the life of the clock.

use vstd::prelude::*;

verus! {

/// Nanoseconds in one second.
pub const NANOS_PER_SEC: u64 = 1_000_000_000;

/// What a clock is, as numbers: the grace window, the time bank that is
/// left, and the instant at which the running turn began, if one runs.
pub struct ClockView {
    pub grace: nat,
    pub remaining: nat,
    pub started: Option<nat>,
}

impl ClockView {
    /// Whether every number of the clock fits in 64 bits, as those of a
    /// `ChessClock` do.
    pub open spec fn fits(self) -> bool {
        &&& self.grace <= u64::MAX
        &&& self.remaining <= u64::MAX
        &&& self.started matches Some(since) ==> since <= u64::MAX
    }

    /// Time that has passed at `now` since the running turn began; zero if
    /// no turn runs or `now` lies before its start.
    pub open spec fn elapsed(self, now: nat) -> nat {
        match self.started {
            Some(since) => if now >= since {
                (now - since) as nat
            } else {
                0
            },
            None => 0,
        }
    }

    /// The part of `elapsed(now)` that lies beyond the grace window.
    pub open spec fn overrun(self, now: nat) -> nat {
        if self.elapsed(now) >= self.grace {
            (self.elapsed(now) - self.grace) as nat
        } else {
            0
        }
    }

    /// The clock once a turn has begun at `now`. A start that was pending is
    /// overwritten.
    pub open spec fn start(self, now: nat) -> ClockView {
        ClockView { started: Some(now), ..self }
    }

    /// The instant at which the running turn times out.
    pub open spec fn deadline(self) -> Option<nat> {
        match self.started {
            Some(since) => Some(since + self.remaining + self.grace),
            None => None,
        }
    }

    /// The clock once the running turn has ended at `now`: the bank loses
    /// the overrun, down to zero at most, and no start is pending. A clock
    /// on which no turn runs stays as it is.
    pub open spec fn stop(self, now: nat) -> ClockView {
        ClockView {
            grace: self.grace,
            remaining: if self.remaining >= self.overrun(now) {
                (self.remaining - self.overrun(now)) as nat
            } else {
                0
            },
            started: None,
        }
    }
}

impl ClockView {
    /// Starting a turn leaves the bank as it is. Ending one never adds to
    /// the bank, and takes nothing from it when the turn stayed within the
    /// grace window.
    pub proof fn lemma_bank_never_grows(self, now: nat)
        ensures
            self.start(now).remaining == self.remaining,
            self.start(now).grace == self.grace,
            self.stop(now).remaining <= self.remaining,
            self.stop(now).grace == self.grace,
            self.elapsed(now) <= self.grace ==> self.stop(now).remaining == self.remaining,
            self.started is None ==> self.stop(now) == self,
    {
    }

    /// A turn that starts at `since` and ends at `now` costs what it took
    /// beyond the grace window, and at most the whole bank.
    pub proof fn lemma_turn_cost(self, since: nat, now: nat)
        requires
            since <= now,
        ensures
            self.start(since).stop(now).remaining == if now - since <= self.grace {
                self.remaining
            } else if now - since - self.grace >= self.remaining {
                0
            } else {
                (self.remaining - (now - since - self.grace)) as nat
            },
            self.start(since).deadline() == Some(since + self.remaining + self.grace),
    {
    }
}

/// Countdown clock of one seat.
#[derive(Clone, Copy, Debug)]
pub struct ChessClock {
    fast: u64,
    rest_of_time: u64,
    started: Option<u64>,
}

impl View for ChessClock {
    type V = ClockView;

    closed spec fn view(&self) -> ClockView {
        ClockView {
            grace: self.fast as nat,
            remaining: self.rest_of_time as nat,
            started: match self.started {
                Some(since) => Some(since as nat),
                None => None,
            },
        }
    }
}

impl ChessClock {
    /// The numbers of a clock fit in 64 bits.
    pub proof fn lemma_view_fits(self)
        ensures
            self@.fits(),
    {
    }

    /// A stopped clock with a grace window of `fast` and a bank of
    /// `rest_of_time`.
    pub fn new(fast: u64, rest_of_time: u64) -> (clock: ChessClock)
        ensures
            clock@ == (ClockView {
                grace: fast as nat,
                remaining: rest_of_time as nat,
                started: None,
            }),
    {
        ChessClock { fast, rest_of_time, started: None }
    }

    /// Ends the running turn at `now` and charges the bank with what the
    /// turn took beyond the grace window. Does nothing if no turn runs.
    pub fn stop(&mut self, now: u64)
        ensures
            final(self)@ == old(self)@.stop(now as nat),
            old(self)@.started is None ==> final(self)@ == old(self)@,
            final(self)@.remaining <= old(self)@.remaining,
            old(self)@.elapsed(now as nat) <= old(self)@.grace
                ==> final(self)@.remaining == old(self)@.remaining,
    {
        if let Some(since) = self.started.take() {
            let elapsed: u64 = now.saturating_sub(since);
            let overrun: u64 = elapsed.saturating_sub(self.fast);
            self.rest_of_time = self.rest_of_time.saturating_sub(overrun);
        }
    }

    /// Begins a turn at `now` and returns the instant at which it times out:
    /// `now` plus the bank plus the grace window.
    pub fn start(&mut self, now: u64) -> (deadline: u128)
        ensures
            final(self)@ == old(self)@.start(now as nat),
            deadline == now + old(self)@.remaining + old(self)@.grace,
            final(self)@.deadline() == Some(deadline as nat),
    {
        self.started = Some(now);
        now as u128 + self.rest_of_time as u128 + self.fast as u128
    }

    /// The grace window and the bank that is left, in this order.
    pub fn timers(&self) -> (timers: (u64, u64))
        ensures
            timers.0 == self@.grace,
            timers.1 == self@.remaining,
    {
        (self.fast, self.rest_of_time)
    }

    /// The instant at which the running turn began, if one runs.
    pub fn turn_started_at(&self) -> (since: Option<u64>)
        ensures
            since is Some <==> self@.started is Some,
            since matches Some(t) ==> self@.started == Some(t as nat),
    {
        self.started
    }
}

impl Default for ChessClock {
    /// One second of grace and a bank of two seconds.
    fn default() -> (clock: ChessClock)
        ensures
            clock@ == (ClockView {
                grace: NANOS_PER_SEC as nat,
                remaining: 2 * NANOS_PER_SEC as nat,
                started: None,
            }),
    {
        ChessClock::new(NANOS_PER_SEC, 2 * NANOS_PER_SEC)
    }
}

} // verus!

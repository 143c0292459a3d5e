//! The four seats of a session and a total map keyed by seat.

use vstd::prelude::*;

verus! {

/// One of the four fixed player positions, in play order.
#[derive(Clone, Copy, Debug, PartialEq, Eq, PartialOrd, Ord, Hash, Structural)]
pub enum Seat {
    First,
    Second,
    Third,
    Fourth,
}

impl Seat {
    /// Position of the seat in play order, counted from zero.
    pub open spec fn ordinal(self) -> nat {
        match self {
            Seat::First => 0,
            Seat::Second => 1,
            Seat::Third => 2,
            Seat::Fourth => 3,
        }
    }

    /// Position of the seat in play order, counted from zero.
    pub fn index(self) -> (i: usize)
        ensures
            i == self.ordinal(),
            i < 4,
    {
        match self {
            Seat::First => 0,
            Seat::Second => 1,
            Seat::Third => 2,
            Seat::Fourth => 3,
        }
    }
}

/// A value of `T` for each of the four seats.
#[derive(Debug, PartialEq, Eq)]
pub struct PerSeat<T> {
    pub first: T,
    pub second: T,
    pub third: T,
    pub fourth: T,
}

impl<T> PerSeat<T> {
    /// The value held for `seat`.
    pub open spec fn at(self, seat: Seat) -> T {
        match seat {
            Seat::First => self.first,
            Seat::Second => self.second,
            Seat::Third => self.third,
            Seat::Fourth => self.fourth,
        }
    }

    /// The same map with the value for `seat` replaced by `value`.
    pub open spec fn updated(self, seat: Seat, value: T) -> PerSeat<T> {
        match seat {
            Seat::First => PerSeat { first: value, ..self },
            Seat::Second => PerSeat { second: value, ..self },
            Seat::Third => PerSeat { third: value, ..self },
            Seat::Fourth => PerSeat { fourth: value, ..self },
        }
    }

    /// Borrows the value held for `seat`.
    pub fn get(&self, seat: Seat) -> (value: &T)
        ensures
            *value == self.at(seat),
    {
        match seat {
            Seat::First => &self.first,
            Seat::Second => &self.second,
            Seat::Third => &self.third,
            Seat::Fourth => &self.fourth,
        }
    }

    /// Replaces the value held for `seat`; the other three stay as they are.
    pub fn set(&mut self, seat: Seat, value: T)
        ensures
            *final(self) == old(self).updated(seat, value),
    {
        match seat {
            Seat::First => {
                self.first = value;
            },
            Seat::Second => {
                self.second = value;
            },
            Seat::Third => {
                self.third = value;
            },
            Seat::Fourth => {
                self.fourth = value;
            },
        }
    }
}

impl<T: Copy> Clone for PerSeat<T> {
    fn clone(&self) -> (copy: PerSeat<T>)
        ensures
            copy == *self,
    {
        *self
    }
}

impl<T: Copy> Copy for PerSeat<T> {

}

impl<T: Copy> PerSeat<T> {
    /// The map that holds `value` for every seat.
    pub fn filled(value: T) -> (map: PerSeat<T>)
        ensures
            map == (PerSeat { first: value, second: value, third: value, fourth: value }),
    {
        PerSeat { first: value, second: value, third: value, fourth: value }
    }
}

} // verus!

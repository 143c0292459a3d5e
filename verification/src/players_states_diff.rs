//! Per-seat status snapshots and the delta between two of them.

use crate::seat::{PerSeat, Seat};
use vstd::prelude::*;

verus! {

/// Standing of one seat in the game, as the board engine reports it.
#[derive(Clone, Copy, Debug, PartialEq, Eq, Hash, Structural)]
pub enum Status {
    /// Not in play yet.
    Pending,
    /// In play.
    Active,
    /// Out of the game: beaten, resigned, disconnected or out of time.
    Lost,
    /// Winner of the game.
    Won,
}

/// A snapshot of the standings: a status for some of the seats.
#[derive(Clone, Copy, Debug, PartialEq, Eq)]
pub struct PlayersStates {
    pub slots: PerSeat<Option<Status>>,
}

/// The entries of `current` that `previous` does not hold with the same
/// status. A seat that `previous` lacks counts as changed.
pub open spec fn changed_since(
    current: Map<Seat, Status>,
    previous: Map<Seat, Status>,
) -> Map<Seat, Status> {
    current.restrict(
        Set::new(|seat: Seat| !previous.contains_key(seat) || previous[seat] != current[seat]),
    )
}

/// The slot of a delta: the current status where it differs from the
/// previous one, nothing where it does not.
pub open spec fn changed_slot(current: Option<Status>, previous: Option<Status>) -> Option<Status> {
    if current == previous {
        None
    } else {
        current
    }
}

fn slot_delta(current: Option<Status>, previous: Option<Status>) -> (slot: Option<Status>)
    ensures
        slot == changed_slot(current, previous),
{
    match current {
        Some(now) => match previous {
            Some(before) => if now == before {
                None
            } else {
                current
            },
            None => current,
        },
        None => None,
    }
}

impl View for PlayersStates {
    type V = Map<Seat, Status>;

    open spec fn view(&self) -> Map<Seat, Status> {
        Map::new(|seat: Seat| self.slots.at(seat) is Some, |seat: Seat| self.slots.at(seat).unwrap())
    }
}

impl PlayersStates {
    /// The snapshot that holds no seat.
    pub open spec fn empty() -> PlayersStates {
        PlayersStates { slots: PerSeat { first: None, second: None, third: None, fourth: None } }
    }

    /// The snapshot of what changed from `previous` to `self`, slot by slot.
    pub open spec fn delta(self, previous: PlayersStates) -> PlayersStates {
        PlayersStates {
            slots: PerSeat {
                first: changed_slot(self.slots.first, previous.slots.first),
                second: changed_slot(self.slots.second, previous.slots.second),
                third: changed_slot(self.slots.third, previous.slots.third),
                fourth: changed_slot(self.slots.fourth, previous.slots.fourth),
            },
        }
    }

    /// `delta` is the restriction of the current snapshot to the seats whose
    /// status changed, and it holds no seat exactly when no status changed.
    pub proof fn lemma_delta_is_changed_since(self, previous: PlayersStates)
        ensures
            self.delta(previous)@ == changed_since(self@, previous@),
            self.delta(previous) == PlayersStates::empty()
                <==> changed_since(self@, previous@).is_empty(),
    {
        let d = self.delta(previous);
        let c = changed_since(self@, previous@);
        assert forall|seat: Seat| d@.contains_key(seat) == c.contains_key(seat) by {
            match seat {
                Seat::First => {},
                Seat::Second => {},
                Seat::Third => {},
                Seat::Fourth => {},
            }
        }
        assert forall|seat: Seat| d@.contains_key(seat) implies d@[seat] == c[seat] by {
            match seat {
                Seat::First => {},
                Seat::Second => {},
                Seat::Third => {},
                Seat::Fourth => {},
            }
        }
        assert(d@ =~= c);
        if d == PlayersStates::empty() {
            assert forall|seat: Seat| !c.dom().contains(seat) by {
                assert(!d@.contains_key(seat));
            }
        }
        if c.is_empty() {
            assert(!c.contains_key(Seat::First));
            assert(!c.contains_key(Seat::Second));
            assert(!c.contains_key(Seat::Third));
            assert(!c.contains_key(Seat::Fourth));
        }
    }

    /// Two snapshots with the same view are the same snapshot.
    pub proof fn lemma_view_is_injective(self, other: PlayersStates)
        requires
            self@ == other@,
        ensures
            self == other,
    {
        assert forall|seat: Seat| self.slots.at(seat) == other.slots.at(seat) by {
            assert(self@.contains_key(seat) == other@.contains_key(seat));
            assert(self@.contains_key(seat) == (self.slots.at(seat) is Some));
            assert(other@.contains_key(seat) == (other.slots.at(seat) is Some));
            if self@.contains_key(seat) {
                assert(self@[seat] == self.slots.at(seat).unwrap());
                assert(other@[seat] == other.slots.at(seat).unwrap());
            }
        }
        assert(self.slots.at(Seat::First) == other.slots.at(Seat::First));
        assert(self.slots.at(Seat::Second) == other.slots.at(Seat::Second));
        assert(self.slots.at(Seat::Third) == other.slots.at(Seat::Third));
        assert(self.slots.at(Seat::Fourth) == other.slots.at(Seat::Fourth));
    }

    /// The snapshot that holds no seat.
    pub fn new() -> (states: PlayersStates)
        ensures
            states == PlayersStates::empty(),
            states@ == Map::<Seat, Status>::empty(),
    {
        let states = PlayersStates {
            slots: PerSeat { first: None, second: None, third: None, fourth: None },
        };
        assert(states@ =~= Map::<Seat, Status>::empty());
        states
    }

    /// The status held for `seat`, if any.
    pub fn get(&self, seat: Seat) -> (status: Option<Status>)
        ensures
            status == self.slots.at(seat),
            status is Some <==> self@.contains_key(seat),
            status matches Some(s) ==> self@[seat] == s,
    {
        *self.slots.get(seat)
    }

    /// Records `status` for `seat` and returns the status it replaces.
    pub fn insert(&mut self, seat: Seat, status: Status) -> (replaced: Option<Status>)
        ensures
            final(self)@ == old(self)@.insert(seat, status),
            final(self).slots == old(self).slots.updated(seat, Some(status)),
            replaced == old(self).slots.at(seat),
    {
        let replaced = *self.slots.get(seat);
        self.slots.set(seat, Some(status));
        proof {
            let after = self@;
            let expected = old(self)@.insert(seat, status);
            assert forall|s: Seat| after.contains_key(s) == expected.contains_key(s) by {
                match s {
                    Seat::First => {},
                    Seat::Second => {},
                    Seat::Third => {},
                    Seat::Fourth => {},
                }
            }
            assert forall|s: Seat| after.contains_key(s) implies after[s] == expected[s] by {
                match s {
                    Seat::First => {},
                    Seat::Second => {},
                    Seat::Third => {},
                    Seat::Fourth => {},
                }
            }
            assert(after =~= expected);
        }
        replaced
    }

    /// Whether the snapshot holds no seat.
    pub fn is_empty(&self) -> (vacant: bool)
        ensures
            vacant == (*self == PlayersStates::empty()),
            vacant == self@.is_empty(),
    {
        let vacant = self.slots.first.is_none() && self.slots.second.is_none()
            && self.slots.third.is_none() && self.slots.fourth.is_none();
        proof {
            if vacant {
                assert forall|seat: Seat| !self@.dom().contains(seat) by {
                    match seat {
                        Seat::First => {},
                        Seat::Second => {},
                        Seat::Third => {},
                        Seat::Fourth => {},
                    }
                }
            } else {
                assert(self@.contains_key(Seat::First) || self@.contains_key(Seat::Second)
                    || self@.contains_key(Seat::Third) || self@.contains_key(Seat::Fourth));
            }
        }
        vacant
    }

    /// What changed from `previous` to `self`: the entries of `self` whose
    /// seat `previous` lacks or holds with another status. `None` when there
    /// is no such entry.
    pub fn diff(&self, previous: &PlayersStates) -> (delta: Option<PlayersStates>)
        ensures
            delta is None <==> changed_since(self@, previous@).is_empty(),
            delta is None <==> self.delta(*previous) == PlayersStates::empty(),
            delta matches Some(d) ==> d@ == changed_since(self@, previous@)
                && d == self.delta(*previous),
    {
        let changed = PlayersStates {
            slots: PerSeat {
                first: slot_delta(self.slots.first, previous.slots.first),
                second: slot_delta(self.slots.second, previous.slots.second),
                third: slot_delta(self.slots.third, previous.slots.third),
                fourth: slot_delta(self.slots.fourth, previous.slots.fourth),
            },
        };
        proof {
            self.lemma_delta_is_changed_since(*previous);
        }
        if changed.is_empty() {
            None
        } else {
            Some(changed)
        }
    }
}

} // verus!

//! The machine's clock, read in the session's nanoseconds.
//!
//! A session counts time in whole nanoseconds from an epoch. An `Epoch`
//! fixes that epoch to an instant of Tokio's clock, reads the clock against
//! it, and turns a deadline of the session back into an instant that a timer
//! can wait for.

use crate::chess_clock::NANOS_PER_SEC;
use std::time::Duration;
use tokio::time::Instant;
use vstd::prelude::*;

verus! {

/// `tokio::time::Instant`, a reading of a clock that never runs backwards.
/// Nothing is known of what a reading holds.
#[verifier::external_type_specification]
#[verifier::external_body]
pub struct ExInstant(tokio::time::Instant);

/// Calls `tokio::time::Instant::now`. The reading depends on when the call
/// is made, so nothing is claimed of it.
#[verifier::external_body]
fn instant_now() -> (instant: Instant) {
    Instant::now()
}

/// Calls `tokio::time::Instant::elapsed` on `since` and gives the
/// duration in whole nanoseconds. It depends on when the call is made, so
/// nothing is claimed of it.
#[verifier::external_body]
fn nanos_elapsed(since: &Instant) -> (nanos: u128) {
    since.elapsed().as_nanos()
}

/// Calls `tokio::time::Instant::checked_add` on `base` with a duration of
/// `secs` seconds and `subsec_nanos` nanoseconds. Tokio answers `None`
/// where the sum is beyond what an instant can hold; which sums those are
/// is the machine's affair, so nothing is claimed of the answer.
#[verifier::external_body]
fn instant_plus(base: &Instant, secs: u64, subsec_nanos: u32) -> (instant: Option<Instant>)
    requires
        subsec_nanos < NANOS_PER_SEC,
{
    base.checked_add(Duration::new(secs, subsec_nanos))
}

/// The instant from which a session counts its nanoseconds.
#[derive(Debug, Clone, Copy)]
pub struct Epoch {
    began: Instant,
}

impl Epoch {
    /// An epoch that begins at this instant.
    pub fn now() -> (epoch: Epoch) {
        Epoch { began: instant_now() }
    }

    /// The instant at which the epoch began.
    pub fn began(&self) -> (instant: Instant)
        ensures
            instant == self.began_at(),
    {
        self.began
    }

    /// The instant at which the epoch began.
    pub closed spec fn began_at(&self) -> Instant {
        self.began
    }

    /// Nanoseconds that have passed since the epoch began, as the session
    /// takes them: what Tokio's clock reads, cut down by `saturate_nanos`.
    /// The reading is the clock's, so nothing is promised of the number.
    pub fn elapsed(&self) -> (nanos: u64) {
        let passed: u128 = nanos_elapsed(&self.began);
        saturate_nanos(passed)
    }

    /// The instant that lies `nanos` nanoseconds after the beginning of the
    /// epoch, for a timer to wait for. The span is handed to Tokio as the
    /// seconds and nanoseconds of `split_nanos`. There is no instant where
    /// the seconds do not fit in 64 bits; short of that Tokio decides
    /// whether the machine can count that far, and its answer is passed
    /// on as it is: of an instant that Tokio gives, nothing more is
    /// known here than that Tokio gave it.
    pub fn instant_at(&self, nanos: u128) -> (instant: Option<Instant>)
        ensures
            nanos / (NANOS_PER_SEC as u128) > u64::MAX ==> instant is None,
    {
        match split_nanos(nanos) {
            Some((secs, subsec_nanos)) => instant_plus(&self.began, secs, subsec_nanos),
            None => None,
        }
    }
}

/// A span of `passed` nanoseconds as the session counts it: the span itself
/// where it fits in 64 bits, and `u64::MAX`, over 584 years, where it does
/// not.
pub open spec fn saturated(passed: nat) -> nat {
    if passed > u64::MAX {
        u64::MAX as nat
    } else {
        passed
    }
}

/// Cuts a span of nanoseconds down to 64 bits.
pub fn saturate_nanos(passed: u128) -> (nanos: u64)
    ensures
        nanos == saturated(passed as nat),
{
    if passed > u64::MAX as u128 {
        u64::MAX
    } else {
        passed as u64
    }
}

/// A span of `nanos` nanoseconds in whole seconds and the nanoseconds
/// beyond them, which are fewer than a second. There is no such pair where
/// the seconds do not fit in 64 bits.
pub open spec fn seconds_and_nanos(nanos: nat) -> Option<(nat, nat)> {
    if nanos / (NANOS_PER_SEC as nat) > u64::MAX {
        None
    } else {
        Some((nanos / (NANOS_PER_SEC as nat), nanos % (NANOS_PER_SEC as nat)))
    }
}

/// Splits a span of nanoseconds into whole seconds and the nanoseconds
/// beyond them.
pub fn split_nanos(nanos: u128) -> (parts: Option<(u64, u32)>)
    ensures
        parts is None <==> seconds_and_nanos(nanos as nat) is None,
        parts is None <==> nanos / (NANOS_PER_SEC as u128) > u64::MAX,
        parts matches Some((secs, subsec_nanos)) ==> {
            &&& seconds_and_nanos(nanos as nat) == Some((secs as nat, subsec_nanos as nat))
            &&& subsec_nanos < NANOS_PER_SEC
            &&& secs * NANOS_PER_SEC + subsec_nanos == nanos
        },
{
    let secs: u128 = nanos / (NANOS_PER_SEC as u128);
    let subsec_nanos: u128 = nanos % (NANOS_PER_SEC as u128);
    proof {
        vstd::arithmetic::div_mod::lemma_fundamental_div_mod(nanos as int, NANOS_PER_SEC as int);
    }
    if secs > u64::MAX as u128 {
        None
    } else {
        Some((secs as u64, subsec_nanos as u32))
    }
}

} // verus!

use four_player_chess_async::chess_clock::{ChessClock, NANOS_PER_SEC};
use four_player_chess_async::Timers;

const SEC: u64 = NANOS_PER_SEC;
const MILLI: u64 = 1_000_000;

#[test]
fn new_clock_shows_what_it_was_given() {
    let clock = ChessClock::new(2 * SEC, 10 * SEC);
    assert_eq!(clock.timers(), (2 * SEC, 10 * SEC));
    assert_eq!(clock.turn_started_at(), None);
}

#[test]
fn default_clock_has_one_second_grace_and_two_in_the_bank() {
    let clock = ChessClock::default();
    assert_eq!(clock.timers(), (1_000_000_000, 2_000_000_000));
    assert_eq!(clock.turn_started_at(), None);
}

#[test]
fn start_returns_now_plus_bank_plus_grace() {
    let mut clock = ChessClock::new(2 * SEC, 10 * SEC);
    let deadline = clock.start(5 * SEC);
    assert_eq!(deadline, 17_000_000_000u128);
    assert_eq!(clock.turn_started_at(), Some(5 * SEC));
    assert_eq!(clock.timers(), (2 * SEC, 10 * SEC));
}

#[test]
fn start_cannot_overflow() {
    let mut clock = ChessClock::new(u64::MAX, u64::MAX);
    let deadline = clock.start(u64::MAX);
    assert_eq!(deadline, 3 * (u64::MAX as u128));
}

#[test]
fn second_start_overwrites_the_first() {
    let mut clock = ChessClock::new(2 * SEC, 10 * SEC);
    clock.start(0);
    let deadline = clock.start(4 * SEC);
    assert_eq!(deadline, 16_000_000_000u128);
    clock.stop(7 * SEC);
    // Only the three seconds since the second start count: one beyond grace.
    assert_eq!(clock.timers(), (2 * SEC, 9 * SEC));
}

#[test]
fn stop_within_grace_costs_nothing() {
    let mut clock = ChessClock::new(2 * SEC, 10 * SEC);
    clock.start(100);
    clock.stop(100 + SEC);
    assert_eq!(clock.timers(), (2 * SEC, 10 * SEC));
    assert_eq!(clock.turn_started_at(), None);
}

#[test]
fn stop_exactly_at_the_end_of_grace_costs_nothing() {
    let mut clock = ChessClock::new(2 * SEC, 10 * SEC);
    clock.start(0);
    clock.stop(2 * SEC);
    assert_eq!(clock.timers(), (2 * SEC, 10 * SEC));
}

#[test]
fn stop_one_nanosecond_past_grace_costs_one_nanosecond() {
    let mut clock = ChessClock::new(2 * SEC, 10 * SEC);
    clock.start(0);
    clock.stop(2 * SEC + 1);
    assert_eq!(clock.timers(), (2 * SEC, 10 * SEC - 1));
}

#[test]
fn three_seconds_with_two_of_grace_cost_one() {
    let mut clock = ChessClock::new(2 * SEC, 10 * SEC);
    clock.start(0);
    clock.stop(3 * SEC);
    assert_eq!(clock.timers(), (2 * SEC, 9 * SEC));
}

#[test]
fn bank_saturates_at_zero() {
    let mut clock = ChessClock::new(2 * SEC, 10 * SEC);
    clock.start(0);
    clock.stop(60 * SEC);
    assert_eq!(clock.timers(), (2 * SEC, 0));
    // An empty bank stays empty, and the grace window still applies.
    let deadline = clock.start(100 * SEC);
    assert_eq!(deadline, 102_000_000_000u128);
    clock.stop(200 * SEC);
    assert_eq!(clock.timers(), (2 * SEC, 0));
}

#[test]
fn bank_that_is_spent_exactly_is_zero() {
    let mut clock = ChessClock::new(2 * SEC, 10 * SEC);
    clock.start(0);
    clock.stop(12 * SEC);
    assert_eq!(clock.timers(), (2 * SEC, 0));
}

#[test]
fn stop_without_start_does_nothing() {
    let mut clock = ChessClock::new(2 * SEC, 10 * SEC);
    clock.stop(50 * SEC);
    assert_eq!(clock.timers(), (2 * SEC, 10 * SEC));
    assert_eq!(clock.turn_started_at(), None);
}

#[test]
fn second_stop_does_nothing() {
    let mut clock = ChessClock::new(2 * SEC, 10 * SEC);
    clock.start(0);
    clock.stop(5 * SEC);
    assert_eq!(clock.timers(), (2 * SEC, 7 * SEC));
    clock.stop(50 * SEC);
    assert_eq!(clock.timers(), (2 * SEC, 7 * SEC));
}

#[test]
fn stop_before_start_instant_counts_as_no_time() {
    let mut clock = ChessClock::new(2 * SEC, 10 * SEC);
    clock.start(10 * SEC);
    clock.stop(4 * SEC);
    assert_eq!(clock.timers(), (2 * SEC, 10 * SEC));
    assert_eq!(clock.turn_started_at(), None);
}

#[test]
fn bank_never_grows_over_many_turns() {
    let mut clock = ChessClock::new(500 * MILLI, 3 * SEC);
    let mut now: u64 = 0;
    let mut last = clock.timers().1;
    let waits = [100 * MILLI, 700 * MILLI, 0, 2 * SEC, 500 * MILLI, 5 * SEC, 1];
    for wait in waits {
        clock.start(now);
        now += wait;
        clock.stop(now);
        let (grace, bank) = clock.timers();
        assert_eq!(grace, 500 * MILLI);
        assert!(bank <= last);
        last = bank;
    }
    // 200 ms, then 1.5 s, then the rest of the bank.
    assert_eq!(last, 0);
}

#[test]
fn zero_grace_charges_every_nanosecond() {
    let mut clock = ChessClock::new(0, 10 * SEC);
    clock.start(7);
    clock.stop(7 + 3 * SEC);
    assert_eq!(clock.timers(), (0, 7 * SEC));
}

#[test]
fn reading_does_not_disturb_a_running_turn() {
    let mut clock = ChessClock::new(2 * SEC, 10 * SEC);
    clock.start(SEC);
    assert_eq!(clock.timers(), (2 * SEC, 10 * SEC));
    let reading = Timers::from(&mut clock);
    assert_eq!(reading, Timers { fast: 2 * SEC, rest_of_time: 10 * SEC });
    assert_eq!(clock.turn_started_at(), Some(SEC));
    clock.stop(5 * SEC);
    let reading = Timers::from(&mut clock);
    assert_eq!(reading, Timers { fast: 2 * SEC, rest_of_time: 8 * SEC });
}

#[test]
fn clocks_are_independent_copies() {
    let template = ChessClock::new(2 * SEC, 10 * SEC);
    let mut slow = template;
    let fast = template.clone();
    slow.start(0);
    slow.stop(9 * SEC);
    assert_eq!(slow.timers(), (2 * SEC, 3 * SEC));
    assert_eq!(fast.timers(), (2 * SEC, 10 * SEC));
    assert_eq!(template.timers(), (2 * SEC, 10 * SEC));
}

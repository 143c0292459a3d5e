use four_player_chess_async::chess_clock::ChessClock;
use four_player_chess_async::epoch::{saturate_nanos, split_nanos, Epoch};
use std::time::Duration;
use tokio::time::Instant;

#[test]
fn epoch_begins_now() {
    let before = Instant::now();
    let epoch = Epoch::now();
    let after = Instant::now();
    assert!(before <= epoch.began());
    assert!(epoch.began() <= after);
}

#[test]
fn elapsed_never_runs_backwards() {
    let epoch = Epoch::now();
    let mut last = epoch.elapsed();
    for _ in 0..1000 {
        let now = epoch.elapsed();
        assert!(last <= now);
        last = now;
    }
}

#[test]
fn elapsed_counts_from_the_beginning_of_the_epoch() {
    let epoch = Epoch::now();
    let low = epoch.began().elapsed().as_nanos();
    let read = epoch.elapsed() as u128;
    let high = epoch.began().elapsed().as_nanos();
    assert!(low <= read);
    assert!(read <= high);
}

#[test]
fn instant_at_zero_is_the_beginning() {
    let epoch = Epoch::now();
    assert_eq!(epoch.instant_at(0), Some(epoch.began()));
}

#[test]
fn instant_at_adds_seconds_and_nanoseconds() {
    let epoch = Epoch::now();
    assert_eq!(epoch.instant_at(1), Some(epoch.began() + Duration::new(0, 1)));
    assert_eq!(
        epoch.instant_at(999_999_999),
        Some(epoch.began() + Duration::new(0, 999_999_999))
    );
    assert_eq!(epoch.instant_at(1_000_000_000), Some(epoch.began() + Duration::new(1, 0)));
    assert_eq!(
        epoch.instant_at(12_000_000_005),
        Some(epoch.began() + Duration::new(12, 5))
    );
}

#[test]
fn instant_at_takes_a_deadline_of_the_clock() {
    let epoch = Epoch::now();
    let mut clock = ChessClock::new(2_000_000_000, 10_000_000_000);
    let deadline = clock.start(500_000_000);
    assert_eq!(
        epoch.instant_at(deadline),
        Some(epoch.began() + Duration::from_millis(12_500))
    );
}

#[test]
fn instant_at_is_none_where_the_seconds_do_not_fit() {
    let epoch = Epoch::now();
    let too_far = (u64::MAX as u128 + 1) * 1_000_000_000;
    assert_eq!(epoch.instant_at(too_far), None);
    assert_eq!(epoch.instant_at(u128::MAX), None);
}

#[test]
fn instant_at_agrees_with_checked_add_at_the_far_end() {
    let epoch = Epoch::now();
    let far = (u64::MAX as u128) * 1_000_000_000 + 999_999_999;
    assert_eq!(
        epoch.instant_at(far),
        epoch.began().checked_add(Duration::new(u64::MAX, 999_999_999))
    );
}

#[test]
fn span_that_fits_is_kept() {
    assert_eq!(saturate_nanos(0), 0);
    assert_eq!(saturate_nanos(1), 1);
    assert_eq!(saturate_nanos(3_000_000_000), 3_000_000_000);
    assert_eq!(saturate_nanos(u64::MAX as u128), u64::MAX);
}

#[test]
fn span_beyond_64_bits_counts_as_the_longest() {
    assert_eq!(saturate_nanos(u64::MAX as u128 + 1), u64::MAX);
    assert_eq!(saturate_nanos(u128::MAX), u64::MAX);
}

#[test]
fn split_gives_whole_seconds_and_the_rest() {
    assert_eq!(split_nanos(0), Some((0, 0)));
    assert_eq!(split_nanos(1), Some((0, 1)));
    assert_eq!(split_nanos(999_999_999), Some((0, 999_999_999)));
    assert_eq!(split_nanos(1_000_000_000), Some((1, 0)));
    assert_eq!(split_nanos(12_000_000_005), Some((12, 5)));
    assert_eq!(split_nanos(3 * (u64::MAX as u128)), Some((55_340_232_221, 128_654_845)));
}

#[test]
fn split_ends_where_the_seconds_do_not_fit() {
    let last = (u64::MAX as u128) * 1_000_000_000 + 999_999_999;
    assert_eq!(split_nanos(last), Some((u64::MAX, 999_999_999)));
    assert_eq!(split_nanos(last + 1), None);
    assert_eq!(split_nanos(u128::MAX), None);
}

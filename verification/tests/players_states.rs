use four_player_chess_async::players_states_diff::{PlayersStates, Status};
use four_player_chess_async::seat::{PerSeat, Seat};

fn states(entries: &[(Seat, Status)]) -> PlayersStates {
    let mut states = PlayersStates::new();
    for (seat, status) in entries {
        states.insert(*seat, *status);
    }
    states
}

fn all_active() -> PlayersStates {
    states(&[
        (Seat::First, Status::Active),
        (Seat::Second, Status::Active),
        (Seat::Third, Status::Active),
        (Seat::Fourth, Status::Active),
    ])
}

#[test]
fn new_snapshot_is_empty() {
    let empty = PlayersStates::new();
    assert!(empty.is_empty());
    for seat in [Seat::First, Seat::Second, Seat::Third, Seat::Fourth] {
        assert_eq!(empty.get(seat), None);
    }
}

#[test]
fn insert_records_and_returns_what_it_replaces() {
    let mut snapshot = PlayersStates::new();
    assert_eq!(snapshot.insert(Seat::Third, Status::Active), None);
    assert!(!snapshot.is_empty());
    assert_eq!(snapshot.get(Seat::Third), Some(Status::Active));
    assert_eq!(snapshot.get(Seat::First), None);
    assert_eq!(snapshot.insert(Seat::Third, Status::Lost), Some(Status::Active));
    assert_eq!(snapshot.get(Seat::Third), Some(Status::Lost));
    assert_eq!(
        snapshot,
        PlayersStates {
            slots: PerSeat { first: None, second: None, third: Some(Status::Lost), fourth: None },
        }
    );
}

#[test]
fn diff_of_equal_snapshots_is_none() {
    assert_eq!(all_active().diff(&all_active()), None);
    assert_eq!(PlayersStates::new().diff(&PlayersStates::new()), None);
}

#[test]
fn diff_holds_only_the_seat_that_changed() {
    let previous = all_active();
    let mut current = all_active();
    current.insert(Seat::First, Status::Lost);
    assert_eq!(current.diff(&previous), Some(states(&[(Seat::First, Status::Lost)])));
}

#[test]
fn diff_holds_every_seat_that_changed_with_its_new_status() {
    let previous = all_active();
    let current = states(&[
        (Seat::First, Status::Lost),
        (Seat::Second, Status::Active),
        (Seat::Third, Status::Won),
        (Seat::Fourth, Status::Lost),
    ]);
    assert_eq!(
        current.diff(&previous),
        Some(states(&[
            (Seat::First, Status::Lost),
            (Seat::Third, Status::Won),
            (Seat::Fourth, Status::Lost),
        ]))
    );
}

#[test]
fn seat_absent_from_previous_counts_as_changed() {
    let previous = states(&[(Seat::First, Status::Active)]);
    let current = states(&[(Seat::First, Status::Active), (Seat::Second, Status::Pending)]);
    assert_eq!(current.diff(&previous), Some(states(&[(Seat::Second, Status::Pending)])));
    assert_eq!(all_active().diff(&PlayersStates::new()), Some(all_active()));
}

#[test]
fn seat_absent_from_current_is_not_reported() {
    let previous = all_active();
    let current = states(&[(Seat::First, Status::Active)]);
    assert_eq!(current.diff(&previous), None);
    assert_eq!(PlayersStates::new().diff(&all_active()), None);
}

#[test]
fn diff_is_not_symmetric() {
    let before = states(&[(Seat::First, Status::Active), (Seat::Second, Status::Active)]);
    let after = states(&[(Seat::First, Status::Lost), (Seat::Second, Status::Active)]);
    assert_eq!(after.diff(&before), Some(states(&[(Seat::First, Status::Lost)])));
    assert_eq!(before.diff(&after), Some(states(&[(Seat::First, Status::Active)])));
}

#[test]
fn diff_leaves_its_arguments_alone() {
    let previous = all_active();
    let mut current = all_active();
    current.insert(Seat::Fourth, Status::Lost);
    let kept = current;
    let _ = current.diff(&previous);
    assert_eq!(current, kept);
    assert_eq!(previous, all_active());
}

#[test]
fn per_seat_map_reads_and_writes_one_seat() {
    let mut map = PerSeat::filled(7u32);
    for seat in [Seat::First, Seat::Second, Seat::Third, Seat::Fourth] {
        assert_eq!(*map.get(seat), 7);
    }
    map.set(Seat::Second, 9);
    assert_eq!(map, PerSeat { first: 7, second: 9, third: 7, fourth: 7 });
    map.set(Seat::Fourth, 1);
    map.set(Seat::First, 2);
    map.set(Seat::Third, 3);
    assert_eq!(map, PerSeat { first: 2, second: 9, third: 3, fourth: 1 });
}

#[test]
fn seats_are_ordered_by_play_order() {
    assert!(Seat::First < Seat::Second);
    assert!(Seat::Second < Seat::Third);
    assert!(Seat::Third < Seat::Fourth);
    let all = [Seat::First, Seat::Second, Seat::Third, Seat::Fourth];
    for (i, seat) in all.iter().enumerate() {
        assert_eq!(seat.index(), i);
    }
}

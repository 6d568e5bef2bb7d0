use mimalloc_arena::arena::{Arena, MemoryStrat, ReserveError, ReserveRequest, NO_ARENA};

#[test]
fn commit_requests_committed_small_pages() {
    let r = MemoryStrat::Commit(1 << 20).request(false);
    assert_eq!(
        r,
        ReserveRequest { size: 1 << 20, commit: true, allow_large: false, exclusive: false }
    );
}

#[test]
fn reserve_requests_uncommitted_small_pages() {
    let r = MemoryStrat::Reserve(4096).request(false);
    assert_eq!(
        r,
        ReserveRequest { size: 4096, commit: false, allow_large: false, exclusive: false }
    );
}

#[test]
fn commit_large_requests_committed_large_pages() {
    let r = MemoryStrat::CommitLarge(1 << 30).request(true);
    assert_eq!(
        r,
        ReserveRequest { size: 1 << 30, commit: true, allow_large: true, exclusive: true }
    );
}

#[test]
fn reserve_large_requests_uncommitted_large_pages() {
    let r = MemoryStrat::ReserveLarge(0).request(false);
    assert_eq!(
        r,
        ReserveRequest { size: 0, commit: false, allow_large: true, exclusive: false }
    );
}

#[test]
fn exclusive_changes_only_the_flag() {
    for strat in [
        MemoryStrat::Commit(7),
        MemoryStrat::Reserve(8),
        MemoryStrat::CommitLarge(9),
        MemoryStrat::ReserveLarge(10),
    ] {
        let shared = strat.request(false);
        let exclusive = strat.request(true);
        assert_eq!(shared.size, exclusive.size);
        assert_eq!(shared.commit, exclusive.commit);
        assert_eq!(shared.allow_large, exclusive.allow_large);
        assert!(!shared.exclusive);
        assert!(exclusive.exclusive);
    }
}

#[test]
fn successful_reservation_gives_the_arena() {
    let arena = Arena::from_reserve_outcome(0, 3).unwrap();
    assert_eq!(arena.id(), 3);
}

#[test]
fn error_code_is_reported() {
    // ENOMEM
    let e = Arena::from_reserve_outcome(12, 5).unwrap_err();
    assert_eq!(e, ReserveError { errno: 12 });
}

#[test]
fn missing_arena_id_is_an_error() {
    let e = Arena::from_reserve_outcome(0, NO_ARENA).unwrap_err();
    assert_eq!(e.errno, 0);
}

#[test]
fn error_code_wins_over_missing_id() {
    let e = Arena::from_reserve_outcome(22, NO_ARENA).unwrap_err();
    assert_eq!(e.errno, 22);
}

#[test]
fn zero_arena_id_is_accepted() {
    let arena = Arena::from_reserve_outcome(0, 0).unwrap();
    assert_eq!(arena.id(), 0);
}

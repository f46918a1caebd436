use pack_vs_lock::summary::{fastest, nonzero_micros, Strategy, Timings};

fn timings(mutex: u128, rwlock: u128, spinlock: u128, lock_free: u128, bit_packed: u128) -> Timings {
    Timings { mutex, rwlock, spinlock, lock_free, bit_packed }
}

#[test]
fn fastest_picks_the_least_time() {
    assert_eq!(fastest(&timings(432, 671, 372, 160, 451)), Strategy::LockFree);
    assert_eq!(fastest(&timings(5, 4, 3, 2, 1)), Strategy::BitPacked);
    assert_eq!(fastest(&timings(1, 2, 3, 4, 5)), Strategy::Mutex);
    assert_eq!(fastest(&timings(9, 1, 9, 9, 9)), Strategy::RwLock);
    assert_eq!(fastest(&timings(9, 9, 1, 9, 9)), Strategy::Spinlock);
}

#[test]
fn fastest_breaks_ties_in_order() {
    assert_eq!(fastest(&timings(7, 7, 7, 7, 7)), Strategy::LockFree);
    assert_eq!(fastest(&timings(7, 7, 7, 8, 7)), Strategy::BitPacked);
    assert_eq!(fastest(&timings(7, 7, 7, 8, 8)), Strategy::Spinlock);
    assert_eq!(fastest(&timings(7, 7, 8, 8, 8)), Strategy::RwLock);
}

#[test]
fn micros_are_at_least_one() {
    assert_eq!(nonzero_micros(0), 1);
    assert_eq!(nonzero_micros(1), 1);
    assert_eq!(nonzero_micros(432_284), 432_284);
}

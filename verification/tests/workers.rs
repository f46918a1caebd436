use pack_vs_lock::config::{THREAD_COUNT, TOTAL_INCREMENTS, WARMUP_ITERATIONS};
use pack_vs_lock::packed::{pack, unpack_spam, unpack_total};
use pack_vs_lock::warmup::{warmup, warmup_for};
use pack_vs_lock::worker::{increments_per_thread, is_security_thread, CasWorker};

#[test]
fn configuration_values() {
    assert_eq!(TOTAL_INCREMENTS, 10_000_000);
    assert_eq!(THREAD_COUNT, 8);
    assert_eq!(WARMUP_ITERATIONS, 1_000_000);
}

#[test]
fn shares_of_the_increments() {
    assert_eq!(increments_per_thread(TOTAL_INCREMENTS, THREAD_COUNT), 1_250_000);
    assert_eq!(increments_per_thread(10, 3), 3);
    assert_eq!(increments_per_thread(0, 5), 0);
    assert_eq!(increments_per_thread(7, 1), 7);
}

#[test]
fn even_threads_flag_their_increments() {
    assert!(is_security_thread(0));
    assert!(!is_security_thread(1));
    assert!(is_security_thread(2));
    assert!(!is_security_thread(7));
}

#[test]
fn new_worker_state() {
    let w = CasWorker::new(4, 12);
    assert!(w.flagged);
    assert_eq!(w.remaining, 12);
    assert_eq!(w.retries, 0);
    assert!(!w.is_done());
    let w = CasWorker::new(3, 0);
    assert!(!w.flagged);
    assert!(w.is_done());
}

#[test]
fn attempts_are_recorded() {
    let mut w = CasWorker::new(0, 2);
    w.record_attempt(false);
    assert_eq!((w.remaining, w.retries), (2, 1));
    w.record_attempt(true);
    assert_eq!((w.remaining, w.retries), (1, 1));
    w.record_attempt(false);
    w.record_attempt(true);
    assert_eq!((w.remaining, w.retries), (0, 2));
    assert!(w.is_done());
}

#[test]
fn proposal_follows_the_thread_kind() {
    let flagged = CasWorker::new(2, 1);
    let plain = CasWorker::new(5, 1);
    assert_eq!(flagged.proposal(pack(1, 1)), pack(2, 2));
    assert_eq!(plain.proposal(pack(1, 1)), pack(1, 2));
}

/// Runs the workers' loops one attempt at a time, in turn, against one word,
/// with a compare-and-swap that fails whenever another worker stored since the
/// load.
fn simulate(threads: usize, per_thread: u64) -> (u64, u64) {
    let mut word = 0u64;
    let mut workers: Vec<CasWorker> = (0..threads).map(|t| CasWorker::new(t, per_thread)).collect();
    let mut loaded: Vec<Option<u64>> = vec![None; threads];
    loop {
        let mut any = false;
        for t in 0..threads {
            if workers[t].is_done() {
                continue;
            }
            any = true;
            match loaded[t] {
                None => loaded[t] = Some(word),
                Some(current) => {
                    let target = workers[t].proposal(current);
                    let stored = word == current;
                    if stored {
                        word = target;
                    }
                    workers[t].record_attempt(stored);
                    loaded[t] = None;
                }
            }
        }
        if !any {
            break;
        }
    }
    let retries = workers.iter().map(|w| w.retries).sum();
    (word, retries)
}

#[test]
fn every_increment_is_stored_once() {
    let (word, retries) = simulate(4, 100);
    assert_eq!(unpack_total(word), 400);
    assert_eq!(unpack_spam(word), 200);
    assert!(retries > 0);
    let (word, _) = simulate(3, 10);
    assert_eq!(unpack_total(word), 30);
    assert_eq!(unpack_spam(word), 20);
}

#[test]
fn warmup_runs() {
    warmup();
    warmup();
}

#[test]
fn warmup_for_any_count_runs() {
    warmup_for(0);
    warmup_for(5);
    warmup_for(100_000);
}

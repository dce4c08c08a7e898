use miner_core::search::BATCH_SIZE;
use miner_core::telemetry::HashAttemptCounter;

#[test]
fn counter_starts_at_zero() {
    let mut counter = HashAttemptCounter::new();
    assert_eq!(counter.count(), 0);
    assert_eq!(counter.drain(), 0);
}

#[test]
fn exhausted_batches_of_one_worker_add_up() {
    let mut counter = HashAttemptCounter::new();
    for n in 1..=50u64 {
        assert!(counter.record(BATCH_SIZE));
        assert_eq!(counter.count(), n * BATCH_SIZE);
    }
    assert_eq!(counter.count(), 1000);
}

#[test]
fn four_workers_with_a_thousand_batches_each_reach_eighty_thousand() {
    let mut counter = HashAttemptCounter::new();
    for _batch in 0..1000 {
        for _worker in 0..4 {
            assert!(counter.record(20));
        }
    }
    assert_eq!(counter.drain(), 80_000);
    assert_eq!(counter.count(), 0);
}

#[test]
fn order_of_the_workers_does_not_matter() {
    let mut counter = HashAttemptCounter::new();
    for worker in [3u32, 0, 0, 2, 1, 3, 3, 1, 2, 0] {
        assert!(counter.record(20 + worker as u64));
    }
    // 10 batches of 20, plus the worker numbers: 3+0+0+2+1+3+3+1+2+0 = 15
    assert_eq!(counter.drain(), 215);
}

#[test]
fn drain_hands_out_the_count_and_resets_it() {
    let mut counter = HashAttemptCounter::new();
    counter.record(20);
    counter.record(20);
    assert_eq!(counter.drain(), 40);
    assert_eq!(counter.count(), 0);
    assert_eq!(counter.drain(), 0);
}

#[test]
fn nothing_is_lost_or_counted_twice_across_drains() {
    let mut counter = HashAttemptCounter::new();
    let mut drained = 0u64;
    let mut recorded = 0u64;
    for step in 0..1000u64 {
        if step % 7 == 6 {
            drained += counter.drain();
        } else {
            assert!(counter.record(step));
            recorded += step;
        }
    }
    assert_eq!(drained + counter.count(), recorded);
}

#[test]
fn sum_that_does_not_fit_is_refused_whole() {
    let mut counter = HashAttemptCounter::new();
    assert!(counter.record(u64::MAX - 5));
    assert!(!counter.record(6));
    assert_eq!(counter.count(), u64::MAX - 5);
    assert!(counter.record(5));
    assert_eq!(counter.count(), u64::MAX);
    assert!(!counter.record(1));
    assert!(counter.record(0));
    assert_eq!(counter.drain(), u64::MAX);
}

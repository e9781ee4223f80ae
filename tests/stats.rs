use actix_rt::{Arbiter, System};
use std::sync::mpsc;
use std::sync::Arc;
use temp_service::counters::{Counters, Operation};
use temp_service::stats::UsageStats;

#[test]
fn fresh_store_is_zero() {
    let s = UsageStats::new();
    assert_eq!(s.snapshot(), Counters::new());
    assert_eq!(UsageStats::default().into_counters(), Counters::new());
}

#[test]
fn record_reports_counts_around_its_increment() {
    let s = UsageStats::new();
    let (before, after) = s.record_to_celsius();
    assert_eq!(before, Counters { to_celcius: 0, to_fahrenheit: 0 });
    assert_eq!(after, Counters { to_celcius: 1, to_fahrenheit: 0 });
    let (before, after) = s.record_to_fahrenheit();
    assert_eq!(before, Counters { to_celcius: 1, to_fahrenheit: 0 });
    assert_eq!(after, Counters { to_celcius: 1, to_fahrenheit: 1 });
    let (_, after) = s.record(Operation::ToCelsius);
    assert_eq!(after, Counters { to_celcius: 2, to_fahrenheit: 1 });
    assert_eq!(s.snapshot(), after);
}

#[test]
fn concurrent_records_are_neither_lost_nor_doubled() {
    let _system = System::new();
    let store = Arc::new(UsageStats::new());
    let (done_tx, done_rx) = mpsc::channel::<()>();
    let workers: Vec<Arbiter> = (0..50).map(|_| Arbiter::new()).collect();
    for (w, worker) in workers.iter().enumerate() {
        for i in 0..20usize {
            let s = Arc::clone(&store);
            let done = done_tx.clone();
            assert!(worker.spawn(async move {
                if (w + i) % 2 == 0 {
                    s.record_to_celsius();
                } else {
                    s.record_to_fahrenheit();
                }
                done.send(()).unwrap();
            }));
        }
    }
    for _ in 0..1000 {
        done_rx.recv().unwrap();
    }
    for worker in workers {
        worker.stop();
        worker.join().unwrap();
    }
    let total = store.snapshot();
    assert_eq!(total, Counters { to_celcius: 500, to_fahrenheit: 500 });
    assert_eq!(total.to_celcius + total.to_fahrenheit, 1000);
}

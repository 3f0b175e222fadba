use std::sync::Arc;
use std::time::{Duration, Instant};

use transport::throttle::Throttle;

/// Polls the throttle until the request is granted, as a transfer task does.
fn consume(throttle: &Throttle, bytes: usize) {
    while !throttle.try_consume(bytes) {}
}

#[test]
fn test_throttle_unlimited() {
    let throttle = Throttle::new(0);
    let start = Instant::now();
    consume(&throttle, 1_000_000);
    assert!(start.elapsed() < Duration::from_millis(50));
}

#[test]
fn test_throttle_limits_rate() {
    let throttle = Throttle::new(1000); // 1000 bytes/sec
    consume(&throttle, 1000); // exhaust initial tokens
    let start = Instant::now();
    consume(&throttle, 500); // should wait ~500ms
    let elapsed = start.elapsed();
    assert!(elapsed >= Duration::from_millis(400));
    assert!(elapsed <= Duration::from_millis(700));
}

#[test]
fn test_get_set_rate() {
    let throttle = Throttle::new(100);
    assert_eq!(throttle.get_rate(), 100);
    throttle.set_rate(500);
    assert_eq!(throttle.get_rate(), 500);
}

#[test]
fn concurrent_full_requests_share_one_budget() {
    let throttle = Arc::new(Throttle::new(1000));
    let rt = tokio::runtime::Builder::new_multi_thread()
        .worker_threads(2)
        .build()
        .unwrap();
    let start = Instant::now();
    rt.block_on(async {
        let a = {
            let throttle = Arc::clone(&throttle);
            tokio::task::spawn_blocking(move || consume(&throttle, 1000))
        };
        let b = {
            let throttle = Arc::clone(&throttle);
            tokio::task::spawn_blocking(move || consume(&throttle, 1000))
        };
        a.await.unwrap();
        b.await.unwrap();
    });
    // One request drains the full bucket at once; the other has to wait for a
    // whole second of refill: no double-spend of the shared budget.
    assert!(start.elapsed() >= Duration::from_millis(900));
    assert!(start.elapsed() < Duration::from_secs(5));
}

#[test]
fn rate_drop_releases_suspended_consume() {
    let throttle = Arc::new(Throttle::new(1000));
    let rt = tokio::runtime::Builder::new_multi_thread()
        .worker_threads(2)
        .enable_time()
        .build()
        .unwrap();
    let start = Instant::now();
    rt.block_on(async {
        let waiter = {
            let throttle = Arc::clone(&throttle);
            // 2000 bytes can never be granted at 1000 bytes/sec: the burst cap
            // is one second's budget, so this polls until the rate changes.
            tokio::task::spawn_blocking(move || consume(&throttle, 2000))
        };
        tokio::time::sleep(Duration::from_millis(200)).await;
        throttle.set_rate(0);
        waiter.await.unwrap();
    });
    let elapsed = start.elapsed();
    assert!(elapsed >= Duration::from_millis(200));
    assert!(elapsed < Duration::from_secs(2));
}

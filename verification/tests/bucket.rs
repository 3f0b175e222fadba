use transport::bucket::Bucket;

#[test]
fn new_bucket_starts_full() {
    let b = Bucket::new(7, 3);
    assert_eq!(b.rate, 7);
    assert_eq!(b.balance, 7_000);
    assert_eq!(b.last_ms, 3);
}

#[test]
fn set_rate_then_get_rate_returns_it() {
    let mut b = Bucket::new(100, 0);
    assert_eq!(b.get_rate(), 100);
    b.set_rate(250);
    assert_eq!(b.get_rate(), 250);
    b.set_rate(1);
    assert_eq!(b.get_rate(), 1);
}

#[test]
fn set_rate_leaves_balance_until_next_refill() {
    let mut b = Bucket::new(1000, 0);
    b.set_rate(10);
    // The old balance survives the rate change itself...
    assert_eq!(b.balance, 1_000_000);
    // ...and the next polling step clamps it down to the new cap before charging.
    assert!(b.try_consume(5, 0));
    assert_eq!(b.balance, 5_000);
}

#[test]
fn unlimited_rate_grants_any_request_unchanged() {
    let mut b = Bucket::new(0, 0);
    let before = b;
    assert!(b.try_consume(usize::MAX, 0));
    assert_eq!(b, before);
    assert!(b.try_consume(1_000_000, 12345));
    assert_eq!(b, before);
}

#[test]
fn grant_exactly_when_budget_earned() {
    let mut b = Bucket::new(1000, 0);
    // A full bucket covers one second's worth of bytes at once.
    assert!(b.try_consume(1000, 0));
    assert_eq!(b.balance, 0);
    // Half a second earns half the budget: not enough for another 1000 bytes...
    assert!(!b.try_consume(1000, 500));
    assert_eq!(b.balance, 500_000);
    // ...but after a full second since the drain the request goes through.
    assert!(b.try_consume(1000, 1000));
    assert_eq!(b.balance, 0);
}

#[test]
fn no_double_spend_from_full_bucket() {
    let mut b = Bucket::new(1000, 0);
    assert!(b.try_consume(1000, 0));
    // The budget was spent: an immediate second full request is refused,
    // and polling keeps refusing it until a whole second has passed.
    assert!(!b.try_consume(1000, 0));
    assert!(!b.try_consume(1000, 400));
    assert!(!b.try_consume(1000, 999));
    assert!(b.try_consume(1000, 1000));
}

#[test]
fn balance_never_exceeds_cap() {
    let mut b = Bucket::new(5, 0);
    // However long the bucket sat idle, the refill clamps at one second's budget.
    assert!(b.try_consume(1, u64::MAX));
    assert_eq!(b.balance, 4_000);
    assert_eq!(b.rate, 5);
}

#[test]
fn clock_running_backwards_earns_nothing() {
    let mut b = Bucket::new(1000, 5_000);
    assert!(b.try_consume(1000, 5_000));
    // A reading behind the recorded timestamp counts as zero elapsed time.
    assert!(!b.try_consume(1, 4_000));
    assert_eq!(b.balance, 0);
}

#[test]
fn rate_drop_to_zero_unblocks_waiting_request() {
    let mut b = Bucket::new(1, 0);
    // 10_000 bytes at one byte per second: refused now and for a long while.
    assert!(!b.try_consume(10_000, 0));
    assert!(!b.try_consume(10_000, 1));
    b.set_rate(0);
    // The very next polling step grants it.
    assert!(b.try_consume(10_000, 2));
}

#[test]
fn zero_byte_request_is_free() {
    let mut b = Bucket::new(10, 0);
    assert!(b.try_consume(0, 0));
    assert_eq!(b.balance, 10_000);
}

use aimd_limiter::semaphore::ShrinkableSemaphore;

#[test]
fn fresh_pool_is_fully_available() {
    let mut s = ShrinkableSemaphore::new(3);
    assert_eq!(s.capacity, 3);
    assert_eq!(s.available, 3);
    assert_eq!(s.debt, 0);
    assert_eq!(s.outstanding, 0);
    assert!(s.try_acquire());
    assert!(s.try_acquire());
    assert!(s.try_acquire());
    assert!(!s.try_acquire());
    assert_eq!(s.outstanding, 3);
}

#[test]
fn forget_with_all_permits_held_defers_to_debt() {
    let k: usize = 4;
    let m: usize = 2;
    let mut s = ShrinkableSemaphore::new(k);
    for _ in 0..k {
        assert!(s.try_acquire());
    }
    assert!(!s.try_acquire());
    // Never waits and never fails, and the holders keep their permits.
    s.forget_permits(m);
    assert_eq!(s.capacity, k - m);
    assert_eq!(s.outstanding, k);
    assert_eq!(s.debt, m);
    assert_eq!(s.available, 0);
    for _ in 0..k {
        s.release();
    }
    assert_eq!(s.capacity, k - m);
    assert_eq!(s.available, k - m);
    assert_eq!(s.debt, 0);
    assert_eq!(s.outstanding, 0);
    // Exactly k - m acquires succeed at once; the next must wait.
    for _ in 0..(k - m) {
        assert!(s.try_acquire());
    }
    assert!(!s.try_acquire());
}

#[test]
fn forget_consumes_available_permits_first() {
    let mut s = ShrinkableSemaphore::new(5);
    assert!(s.try_acquire());
    s.forget_permits(3);
    assert_eq!(s.capacity, 2);
    assert_eq!(s.available, 1);
    assert_eq!(s.debt, 0);
    s.forget_permits(2);
    assert_eq!(s.capacity, 0);
    assert_eq!(s.available, 0);
    assert_eq!(s.debt, 1);
    s.release();
    assert_eq!(s.debt, 0);
    assert_eq!(s.available, 0);
    assert_eq!(s.outstanding, 0);
}

#[test]
fn acquire_path_pays_debt_before_handing_out() {
    let mut s = ShrinkableSemaphore::new(2);
    assert!(s.try_acquire());
    assert!(s.try_acquire());
    s.forget_permits(2);
    assert_eq!(s.capacity, 0);
    assert_eq!(s.debt, 2);
    s.add_permits(3);
    assert_eq!(s.capacity, 3);
    assert_eq!(s.available, 3);
    // The two freed permits are destroyed against the debt; the third is
    // handed out.
    assert!(s.try_acquire());
    assert_eq!(s.debt, 0);
    assert_eq!(s.available, 0);
    assert_eq!(s.outstanding, 3);
}

#[test]
fn acquire_keeps_waiting_while_debt_swallows_permits() {
    let mut s = ShrinkableSemaphore::new(3);
    assert!(s.try_acquire());
    assert!(s.try_acquire());
    assert!(s.try_acquire());
    s.forget_permits(3);
    assert_eq!(s.debt, 3);
    s.release();
    assert_eq!(s.debt, 2);
    s.add_permits(1);
    // The one available permit pays debt instead of being handed out.
    assert!(!s.try_acquire());
    assert_eq!(s.debt, 1);
    assert_eq!(s.available, 0);
}

use aimd_limiter::ewma::Ewma;
use aimd_limiter::mean::Mean;

#[test]
fn ewma_seeds_with_first_sample() {
    let mut e = Ewma::new();
    assert_eq!(e.average(), 0);
    assert_eq!(e.update(100), 100);
    assert_eq!(e.average(), 100);
}

#[test]
fn ewma_blends_later_samples_evenly() {
    let mut e = Ewma::new();
    e.update(100);
    assert_eq!(e.update(50), 75);
    assert_eq!(e.update(7), 41); // (7 + 75) / 2, floor
}

#[test]
fn ewma_handles_the_largest_samples() {
    let mut e = Ewma::new();
    e.update(u64::MAX);
    assert_eq!(e.update(u64::MAX), u64::MAX);
    assert_eq!(e.update(1), u64::MAX / 2 + 1);
}

#[test]
fn mean_returns_running_average() {
    let mut m = Mean::new();
    assert_eq!(m.update(10), 10);
    assert_eq!(m.update(20), 15);
    assert_eq!(m.update(1), 10); // (10 + 20 + 1) / 3, floor
    assert_eq!(m.sum, 31);
    assert_eq!(m.count, 3);
}

#[test]
fn mean_reset_empties_the_window() {
    let mut m = Mean::new();
    m.update(10);
    m.update(20);
    m.reset();
    assert_eq!(m.sum, 0);
    assert_eq!(m.count, 0);
    assert_eq!(m.update(4), 4);
}

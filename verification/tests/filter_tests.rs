use rustle::filter::{max_core_usage, MovingAverageFilter};

#[test]
fn constant_feed_converges_to_the_constant() {
    // Fed a constant for at least its capacity, the average reports the
    // constant exactly.
    let mut f = MovingAverageFilter::new(4);
    for _ in 0..7 {
        f.push(5000);
    }
    assert_eq!(f.average(), 5000);
    assert_eq!(f.window.len(), 4);
}

#[test]
fn warm_up_average_understates_the_input() {
    // Fewer samples than the capacity: the divisor is still the
    // configured capacity, so the output is k*v/capacity, below v.
    let mut f = MovingAverageFilter::new(4);
    f.push(5000);
    f.push(5000);
    assert_eq!(f.average(), 2500);
    assert!(f.average() < 5000);
    f.push(5000);
    assert_eq!(f.average(), 3750);
}

#[test]
fn newest_sample_evicts_the_oldest() {
    let mut f = MovingAverageFilter::new(2);
    f.push(100);
    f.push(200);
    f.push(300);
    assert_eq!(f.window, vec![300, 200]);
    assert_eq!(f.average(), 250);
}

#[test]
fn zero_capacity_filter_reports_zero() {
    let mut f = MovingAverageFilter::new(0);
    f.push(9000);
    f.push(9000);
    assert_eq!(f.average(), 0);
    assert!(f.window.len() <= 1);
}

#[test]
fn average_rounds_down() {
    let mut f = MovingAverageFilter::new(3);
    f.push(100);
    f.push(200);
    f.push(200);
    // 500 / 3 = 166.67 floors to 166.
    assert_eq!(f.average(), 166);
}

#[test]
fn max_core_usage_picks_the_busiest_core() {
    assert_eq!(max_core_usage(&vec![]), 0);
    assert_eq!(max_core_usage(&vec![300, 9100, 250, 9100, 40]), 9100);
    assert_eq!(max_core_usage(&vec![7]), 7);
}

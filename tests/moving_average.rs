use telemetry_chart::moving_avg::{trend, MovingAverage, Trend};

#[test]
fn warm_up_divides_by_samples_written() {
    let mut m = MovingAverage::new(5);
    assert_eq!(m.add(10), 10);
    assert_eq!(m.add(20), 15);
}

#[test]
fn wraparound_keeps_last_five() {
    let mut m = MovingAverage::new(5);
    let inputs = [10, 20, 30, 40, 50, 60, 70];
    let expected = [10, 15, 20, 25, 30, 40, 50];
    for (x, e) in inputs.iter().zip(expected.iter()) {
        assert_eq!(m.add(*x), *e);
    }
    // The mean of the last five inserted values: 30, 40, 50, 60, 70.
    assert_eq!(m.average(), 50);
}

#[test]
fn wraparound_many_times() {
    let mut m = MovingAverage::new(3);
    let mut r = 0;
    for x in 1..=100i64 {
        r = m.add(x);
    }
    assert_eq!(r, (98 + 99 + 100) / 3);
    assert_eq!(m.last(), 100);
}

#[test]
fn last_is_zero_before_first_value() {
    let m = MovingAverage::new(5);
    assert_eq!(m.last(), 0);
}

#[test]
fn last_is_most_recent_value() {
    let mut m = MovingAverage::new(2);
    m.add(4);
    assert_eq!(m.last(), 4);
    m.add(8);
    assert_eq!(m.last(), 8);
    m.add(-3);
    assert_eq!(m.last(), -3);
    assert_eq!(m.average(), 2);
}

#[test]
fn negative_mean_rounds_toward_zero() {
    let mut m = MovingAverage::new(4);
    m.add(-3);
    assert_eq!(m.add(-4), -3);
}

#[test]
fn extreme_values_do_not_overflow() {
    let mut m = MovingAverage::new(3);
    m.add(i64::MAX);
    m.add(i64::MAX);
    assert_eq!(m.add(i64::MAX), i64::MAX);
    m.add(i64::MIN);
    m.add(i64::MIN);
    assert_eq!(m.add(i64::MIN), i64::MIN);
}

#[test]
fn capacity_one_follows_input() {
    let mut m = MovingAverage::new(1);
    assert_eq!(m.add(7), 7);
    assert_eq!(m.add(-2), -2);
}

#[test]
fn equal_averages_count_as_cooling() {
    let t = trend(5, 5);
    assert_eq!(t, Trend::Cooling);
    assert_eq!(t.label(), "cooling");
}

#[test]
fn rising_average_is_warming() {
    let t = trend(5, 6);
    assert_eq!(t, Trend::Warming);
    assert_eq!(t.label(), "warming");
    assert_eq!(trend(6, 5), Trend::Cooling);
}

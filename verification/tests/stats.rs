use shiguredo_nvcodec::{Counter, DecoderStats, Gauge};

#[test]
fn counter_new_is_zero() {
    let counter = Counter::new();
    assert_eq!(counter.get(), 0);
}

#[test]
fn counter_inc_increments_by_one() {
    let mut counter = Counter::new();
    counter.inc();
    counter.inc();
    counter.inc();
    assert_eq!(counter.get(), 3);
}

#[test]
fn counter_add_increments_by_n() {
    let mut counter = Counter::new();
    counter.add(5);
    counter.add(7);
    assert_eq!(counter.get(), 12);
}

#[test]
fn counter_clone_is_independent_snapshot() {
    let mut counter = Counter::new();
    counter.add(5);

    let snapshot = counter.clone();

    counter.inc();
    assert_eq!(counter.get(), 6);
    assert_eq!(snapshot.get(), 5);
}

#[test]
fn gauge_new_is_zero() {
    let gauge = Gauge::new();
    assert_eq!(gauge.get(), 0);
}

#[test]
fn gauge_set_updates_value() {
    let mut gauge = Gauge::new();
    gauge.set(42);
    assert_eq!(gauge.get(), 42);
}

#[test]
fn gauge_clone_is_independent_snapshot() {
    let mut gauge = Gauge::new();
    gauge.set(10);

    let snapshot = gauge.clone();

    gauge.set(20);
    assert_eq!(gauge.get(), 20);
    assert_eq!(snapshot.get(), 10);
}

#[test]
fn counter_wraps_around() {
    let mut counter = Counter::new();
    counter.add(u64::MAX);
    counter.inc();
    assert_eq!(counter.get(), 0);
    counter.add(u64::MAX);
    counter.add(3);
    assert_eq!(counter.get(), 2);
}

#[test]
fn counter_adds_up_over_several_additions() {
    let mut one = Counter::new();
    one.add(19);
    let mut two = Counter::default();
    two.add(8);
    two.add(11);
    assert_eq!(one.get(), two.get());
}

#[test]
fn gauge_default_is_zero() {
    assert_eq!(Gauge::default().get(), 0);
}

#[test]
fn in_flight_frames_never_goes_below_zero() {
    let mut stats = DecoderStats::default();
    assert_eq!(stats.in_flight_frames(), 0);
    stats.total_decode_count.add(5);
    stats.total_output_frame_count.add(2);
    assert_eq!(stats.in_flight_frames(), 3);
    stats.total_output_frame_count.add(9);
    assert_eq!(stats.in_flight_frames(), 0);
    let snapshot = stats.clone();
    stats.total_decode_count.add(1);
    assert_eq!(snapshot.total_decode_count.get(), 5);
}

use noptica::{
    has_bit, scan_limits, units_to_length, wavelength_units, Decimator, EdgeDetector,
    MinMaxMonitor, MotionExtrapolator, Packing, PositionTracker, Quadrant, QuadrantTracker, TURN,
};

#[test]
fn position_constant_turn_increments_stay_at_zero() {
    let mut tracker = PositionTracker::new();
    let mut phase: i64 = 0;
    for _ in 0..1000 {
        phase = phase.wrapping_add(TURN);
        assert_eq!(tracker.edge(phase), 0);
    }
}

#[test]
fn position_grows_by_phase_shortfall() {
    let mut tracker = PositionTracker::new();
    let mut phase: i64 = 0;
    for k in 1..=1000i64 {
        phase += TURN - 1000;
        assert_eq!(tracker.edge(phase), 1000 * k);
    }
}

#[test]
fn position_survives_phase_wraparound() {
    let mut tracker = PositionTracker::new();
    let mut phase: i64 = i64::MAX - 3 * TURN;
    tracker.edge(phase);
    let base = tracker.edge(phase.wrapping_add(TURN));
    phase = phase.wrapping_add(TURN);
    for k in 1..=10i64 {
        phase = phase.wrapping_add(TURN + 7);
        assert_eq!(tracker.edge(phase), base - 7 * k);
    }
}

#[test]
fn decimator_averages_groups() {
    let mut d = Decimator::new(3);
    assert_eq!(d.input(10), None);
    assert_eq!(d.input(20), None);
    assert_eq!(d.input(30), Some(20));
    assert_eq!(d.input(1), None);
    assert_eq!(d.input(2), None);
    assert_eq!(d.input(3), Some(2));
}

#[test]
fn decimator_identical_inputs_yield_input() {
    let mut d = Decimator::new(4);
    for _ in 0..3 {
        assert_eq!(d.input(-7), None);
    }
    assert_eq!(d.input(-7), Some(-7));
    let mut d = Decimator::new(2);
    for _ in 0..5 {
        assert_eq!(d.input(i64::MAX), None);
        assert_eq!(d.input(i64::MAX), Some(i64::MAX));
    }
}

#[test]
fn decimator_rounds_toward_zero() {
    let mut d = Decimator::new(2);
    assert_eq!(d.input(-1), None);
    assert_eq!(d.input(-2), Some(-1));
    assert_eq!(d.input(1), None);
    assert_eq!(d.input(2), Some(1));
    let mut one = Decimator::new(1);
    assert_eq!(one.input(i64::MIN), Some(i64::MIN));
}

#[test]
fn minmax_reports_cycle_extremes() {
    let mut m = MinMaxMonitor::new(4);
    assert_eq!(m.input(5), None);
    assert_eq!(m.input(2), None);
    assert_eq!(m.input(9), None);
    assert_eq!(m.input(7), Some((2, 9)));
    for _ in 0..3 {
        assert_eq!(m.input(100), None);
    }
    assert_eq!(m.input(100), Some((100, 100)));
}

#[test]
fn minmax_unit_cycle_reports_every_sample() {
    let mut m = MinMaxMonitor::new(1);
    for p in [3i64, -8, 12, i64::MIN, i64::MAX] {
        assert_eq!(m.input(p), Some((p, p)));
    }
}

#[test]
fn minmax_reset_drops_partial_cycle() {
    let mut m = MinMaxMonitor::new(3);
    m.input(-50);
    m.input(50);
    m.reset();
    assert_eq!(m.input(1), None);
    assert_eq!(m.input(2), None);
    assert_eq!(m.input(3), Some((1, 3)));
}

#[test]
fn minmax_zero_cycle_never_reports() {
    let mut m = MinMaxMonitor::new(0);
    for p in 0..1000 {
        assert_eq!(m.input(p), None);
    }
}

fn engaged_tracker() -> QuadrantTracker {
    let mut q = QuadrantTracker::new();
    q.update_limits(0, 100);
    assert_eq!(q.input(60), None);
    q
}

#[test]
fn quadrant_follows_scan_cycle() {
    let mut q = engaged_tracker();
    assert_eq!(q.input(50), None);
    assert!(q.up_start());
    assert_eq!(q.input(150), None);
    assert!(q.up_end());
    assert_eq!(q.input(50), None);
    assert!(q.down_start());
    assert_eq!(q.input(-10), None);
    assert!(q.down_end());
    assert_eq!(q.input(50), None);
    assert!(q.up_start());
    assert!(!q.up_end() && !q.down_start() && !q.down_end());
}

#[test]
fn quadrant_reports_jump_but_still_moves() {
    let mut q = engaged_tracker();
    assert_eq!(q.input(150), Some((Quadrant::BelowMin, Quadrant::AboveMax)));
    assert!(!q.up_end());
    assert_eq!(q.input(50), None);
    assert!(q.down_start());
    assert_eq!(q.input(70), None);
    assert_eq!(q.input(-5), None);
    assert!(q.down_end());
}

#[test]
fn quadrant_trapped_before_limits() {
    let mut q = QuadrantTracker::new();
    for p in [i64::MIN, -1, 0, 1, i64::MAX - 1, i64::MAX] {
        assert_eq!(q.input(p), None);
        assert!(!q.up_start() && !q.up_end() && !q.down_start() && !q.down_end());
    }
}

#[test]
fn quadrant_limits_wait_for_middle_crossing() {
    let mut q = engaged_tracker();
    q.update_limits(1000, 2000);
    assert_eq!(q.input(50), None);
    assert!(q.up_start());
    assert_eq!(q.input(1600), None);
    assert!(q.up_end());
    assert_eq!(q.input(1200), None);
    assert!(q.down_start());
    q.reset();
    assert_eq!(q.input(1500), None);
    assert!(!q.up_start());
}

#[test]
fn quadrant_names() {
    assert_eq!(Quadrant::BelowMin.name(), "BelowMin");
    assert_eq!(Quadrant::Down.name(), "Down");
}

#[test]
fn nibbles_come_high_first() {
    let p = Packing::Nibble;
    assert_eq!(p.samples_per_byte(), 2);
    assert_eq!(p.sample(0xa5, 0), 0x0a);
    assert_eq!(p.sample(0xa5, 1), 0x05);
    let b = Packing::Byte;
    assert_eq!(b.samples_per_byte(), 1);
    assert_eq!(b.sample(0xa5, 0), 0xa5);
}

#[test]
fn edge_detector_reports_changes() {
    let mut e = EdgeDetector::new(Packing::Nibble);
    assert_eq!(e.detect(0b0101), (0b0101, 0));
    assert_eq!(e.detect(0b0110), (0b0010, 0b0001));
    assert_eq!(e.detect(0b0110), (0, 0));
    assert_eq!(e.detect(0), (0, 0b0110));
    let mut e = EdgeDetector::new(Packing::Byte);
    assert_eq!(e.detect(0xf0), (0xf0, 0));
    assert_eq!(e.detect(0x0f), (0x0f, 0xf0));
}

#[test]
fn edge_detector_masks_to_width() {
    let mut e = EdgeDetector::new(Packing::Nibble);
    assert_eq!(e.detect(0xff), (0x0f, 0));
    assert_eq!(e.detect(0x00), (0, 0x0f));
}

#[test]
fn bits_are_tested_by_index() {
    assert!(has_bit(0b1000, 3));
    assert!(!has_bit(0b1000, 2));
    assert!(has_bit(0x80, 7));
}

#[test]
fn motion_extrapolates_at_last_speed() {
    let mut m = MotionExtrapolator::new();
    m.tick(Some(100));
    assert_eq!(m.extrapolated_position(), 100);
    for _ in 0..9 {
        m.tick(None);
    }
    m.tick(Some(200));
    assert_eq!(m.extrapolated_position(), 200);
    for k in 1..=3 {
        m.tick(None);
        assert_eq!(m.extrapolated_position(), 200 + 10 * k);
    }
    m.tick(Some(100));
    assert_eq!(m.extrapolated_position(), 100);
    m.tick(None);
    assert_eq!(m.extrapolated_position(), 75);
}

#[test]
fn wavelength_units_divides_span() {
    assert_eq!(wavelength_units(10, 50, 5), 10);
    assert_eq!(wavelength_units(50, 10, 5), 10);
    assert_eq!(wavelength_units(0, 99, 5), 24);
    assert_eq!(wavelength_units(i64::MIN, i64::MAX, 2), u64::MAX);
}

#[test]
fn units_convert_to_length() {
    assert_eq!(units_to_length(TURN as u64, 633), 633);
    assert_eq!(units_to_length(10, 6_328_000_000_000), 14733);
    assert_eq!(units_to_length(12345, 633_000_000_000), 1_819_428);
    assert_eq!(units_to_length(u64::MAX, u64::MAX), (u64::MAX as u128 * u64::MAX as u128) >> 32);
}

#[test]
fn scan_limits_keep_duty_fraction() {
    assert_eq!(scan_limits(0, 100, TURN as u64 / 2), (25, 75));
    assert_eq!(scan_limits(0, 100, TURN as u64), (0, 100));
    assert_eq!(scan_limits(-100, 100, 0), (0, 0));
    assert_eq!(scan_limits(i64::MIN, i64::MAX, 0), (-1, 0));
}

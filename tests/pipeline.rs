use noptica::{
    Calibrator, DisplacementMeter, FringeMeasurement, LockTransition, Wavemeter, WavemeterConfig, WavemeterReport,
    TURN,
};

fn config() -> WavemeterConfig {
    WavemeterConfig {
        ftw_min: 42_949_672,
        ftw_max: 128_849_018,
        ki: 4096,
        kp: 65536,
        bit_ref: 0,
        bit_meas: 1,
        bit_input: 2,
        monitor_samples: 8,
        duty_cycle: TURN as u64,
        decimation: 1,
        min_fringes: 1,
        jitter_tol: 0,
    }
}

#[test]
fn wavemeter_unlocked_yields_nothing() {
    let mut w = Wavemeter::new(&config());
    for i in 0..1000u32 {
        let rising = if i % 50 == 49 { 0b111 } else { 0 };
        assert_eq!(w.track(rising), (LockTransition::Steady, None));
    }
}

#[test]
fn wavemeter_scan_counts_fringes_on_rising_ramp() {
    let mut w = Wavemeter::new(&config());
    let quiet = WavemeterReport { transition: None, on_start: None, on_fringe: None, on_end: None };
    for p in [0, 100, 0, 100, 0, 100, 0, 100] {
        assert_eq!(w.scan(0, p), quiet);
    }
    // The limits are engaged; the next positions climb through the ramp.
    for p in [10, 20, 30, 40, 50, 60, 70] {
        assert_eq!(w.scan(0b100, p), quiet);
    }
    let r = w.scan(0, 150);
    assert_eq!(r.transition, None);
    assert_eq!(r.on_start, None);
    assert_eq!(r.on_fringe, None);
    assert_eq!(
        r.on_end,
        Some(Ok(FringeMeasurement { first: 0, last: 0, fringes: 5, wavelength: 0 }))
    );
}

#[test]
fn calibrator_unlocked_yields_nothing() {
    let mut c = Calibrator::new(42_949_672, 128_849_018, 4096, 65536, 0, 1, 10);
    for i in 0..1000u32 {
        assert_eq!(c.sample(if i % 3 == 0 { 3 } else { 0 }), (LockTransition::Steady, None));
    }
}

#[test]
fn displacement_meter_unlocked_yields_nothing() {
    let mut d = DisplacementMeter::new(42_949_672, 128_849_018, 4096, 65536, 0, 1, 1);
    for i in 0..1000u32 {
        assert_eq!(d.sample(if i % 3 == 0 { 3 } else { 0 }), (LockTransition::Steady, None));
    }
}

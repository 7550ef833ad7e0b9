use noptica::{Dpll, LockTransition, TURN};

fn frequency_to_ftw(frequency: f64, sample_rate: f64) -> i64 {
    (frequency * (TURN as f64) / sample_rate) as i64
}

#[test]
fn dpll_locks_to_two_megahertz() {
    let fs = 1.0e8;
    let mut dpll = Dpll::new(
        frequency_to_ftw(1.0e6, fs),
        frequency_to_ftw(3.0e6, fs),
        4096,
        65536,
    );
    let mut locked_at = None;
    let mut edges: u64 = 0;
    while edges < 1_200_000 {
        for i in 0..50 {
            let t = dpll.tick(i == 49);
            if t == LockTransition::Locked {
                locked_at = Some(edges);
            }
        }
        edges += 1;
    }
    assert!(dpll.locked());
    assert!(locked_at.unwrap() >= 999_999);
    let target = frequency_to_ftw(2.0e6, fs);
    assert!((dpll.ftw() - target).abs() <= 1, "ftw {} target {}", dpll.ftw(), target);
}

#[test]
fn dpll_starts_unlocked_at_midpoint() {
    let dpll = Dpll::new(100, 301, 5, 7);
    assert!(!dpll.locked());
    assert_eq!(dpll.ftw(), 200);
    assert_eq!(dpll.get_phase_unwrapped(), 0);
}

#[test]
fn dpll_zero_gains_hold_midpoint() {
    let mut dpll = Dpll::new(1_000_000, 3_000_000, 0, 0);
    for i in 0..10_000u32 {
        dpll.tick(i % 7 == 0 || i % 13 == 5);
        assert_eq!(dpll.ftw(), 2_000_000);
    }
}

#[test]
fn dpll_tuning_word_stays_in_range() {
    let (lo, hi) = (40_000_000, 130_000_000);
    let mut dpll = Dpll::new(lo, hi, 1 << 40, -(1 << 45));
    for i in 0..100_000u32 {
        dpll.tick(i % 37 == 0 || i % 11 == 3);
        assert!(lo <= dpll.ftw() && dpll.ftw() <= hi);
    }
}

#[test]
fn dpll_clamps_large_correction() {
    let mut dpll = Dpll::new(100, 200, i64::MAX, i64::MAX);
    dpll.tick(true);
    assert_eq!(dpll.ftw(), 200);
    let mut dpll = Dpll::new(100, 200, i64::MIN, i64::MIN);
    dpll.tick(true);
    assert_eq!(dpll.ftw(), 100);
}

#[test]
fn dpll_unwrapped_phase_is_sum_of_tuning_words() {
    let mut dpll = Dpll::new(40_000_000, 130_000_000, 4096, 65536);
    let mut sum: i64 = 0;
    for i in 0..200_000u32 {
        sum = sum.wrapping_add(dpll.ftw());
        dpll.tick(i % 50 == 49);
        assert_eq!(dpll.get_phase_unwrapped(), sum);
    }
    assert!(sum > 0);
}

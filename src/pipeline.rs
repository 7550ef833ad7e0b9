//! The per-sample pipelines: displacement metering, scan calibration, and the wavemeter.
use crate::decimator::{decimator_input, Decimator, DecimatorModel};
use crate::dpll::{dpll_tick, initial_dpll_model, Dpll, DpllModel, LockTransition};
use crate::edges::{bit_set, has_bit};
use crate::envelope::{envelope_input, initial_envelope_model, EnvelopeModel, MinMaxMonitor};
use crate::fixed::{abs, TURN};
use vstd::arithmetic::div_mod::{
    lemma_div_denominator, lemma_div_is_ordered, lemma_div_multiples_vanish,
    lemma_fundamental_div_mod, lemma_mod_bound,
};
use crate::fringe::{
    fringe_step, initial_fringe_model, wavelength_of, FringeCounter, FringeError, FringeEvent, FringeMeasurement, FringeModel,
};
use crate::position::{
    extrapolated, motion_tick, tracker_edge, MotionExtrapolator, MotionModel, PositionModel,
    PositionTracker,
};
use crate::quadrant::{
    initial_quadrant_model, quadrant_input, Quadrant, QuadrantModel, QuadrantTracker,
};
use vstd::prelude::*;

verus! {

/// A distance of `units` phase units, in the unit that `ref_wavelength` is given in,
/// rounded down.
pub open spec fn length_of(units: int, ref_wavelength: int) -> int {
    units * ref_wavelength / (TURN as int)
}

/// Converts phase units to a length: one turn is one reference wavelength.
pub fn units_to_length(units: u64, ref_wavelength: u64) -> (r: u128)
    ensures
        r == length_of(units as int, ref_wavelength as int),
{
    proof {
        assert(units * ref_wavelength <= u64::MAX * u64::MAX) by (nonlinear_arith);
    }
    (units as u128 * ref_wavelength as u128) / (TURN as u128)
}

/// A fringe spacing converted to a length goes through two roundings down, as the
/// integer pipeline computes it: first `|last - first| / (fringes - 1)` phase units, then
/// that many units times `ref_wavelength / TURN`. The result never exceeds the exactly
/// rounded `|last - first| * ref_wavelength / ((fringes - 1) * TURN)`.
pub proof fn lemma_wavelength_length(first: i64, last: i64, fringes: u64, ref_wavelength: u64)
    requires
        fringes >= 2,
    ensures
        length_of(wavelength_of(first as int, last as int, fringes as int), ref_wavelength as int)
            == (abs(last - first) / (fringes - 1)) * ref_wavelength / (TURN as int),
        length_of(wavelength_of(first as int, last as int, fringes as int), ref_wavelength as int)
            <= abs(last - first) * ref_wavelength / ((fringes - 1) * (TURN as int)),
{
    let a = abs(last - first);
    let d = fringes - 1;
    let c = ref_wavelength as int;
    let t = TURN as int;
    let q = a / d;
    lemma_fundamental_div_mod(a, d);
    lemma_mod_bound(a, d);
    assert(q * c * d <= a * c) by (nonlinear_arith)
        requires
            a == d * q + a % d,
            0 <= a % d,
            c >= 0,
            d >= 1,
    ;
    lemma_div_is_ordered(q * c * d, a * c, d);
    lemma_div_multiples_vanish(q * c, d);
    assert(d * (q * c) == q * c * d) by (nonlinear_arith);
    lemma_div_is_ordered(q * c, (a * c) / d, t);
    assert(a * c >= 0) by (nonlinear_arith)
        requires
            a >= 0,
            c >= 0,
    ;
    lemma_div_denominator(a * c, d, t);
}

/// The part of a scan kept for counting: the envelope `[lo, hi]` shrunk at each end by
/// half of the fraction `1 - duty / TURN` of its amplitude.
pub open spec fn scan_limits_spec(lo: int, hi: int, duty: int) -> (int, int) {
    let off = (hi - lo) * (TURN - duty) / (TURN as int);
    (lo + off / 2, hi - off / 2)
}

/// The counting limits for a scan envelope `[lo, hi]`, keeping the fraction
/// `duty_cycle / TURN` of it.
pub fn scan_limits(lo: i64, hi: i64, duty_cycle: u64) -> (r: (i64, i64))
    requires
        lo <= hi,
        duty_cycle <= TURN,
    ensures
        (r.0 as int, r.1 as int) == scan_limits_spec(lo as int, hi as int, duty_cycle as int),
{
    let amplitude = hi as i128 - lo as i128;
    let keep_out = TURN as i128 - duty_cycle as i128;
    proof {
        let a = amplitude as int;
        let k = keep_out as int;
        assert(0 <= a * k <= a * 0x1_0000_0000) by (nonlinear_arith)
            requires
                0 <= a,
                0 <= k <= 0x1_0000_0000,
        ;
        assert(a * 0x1_0000_0000 <= 0x1_0000_0000_0000_0000 * 0x1_0000_0000) by (nonlinear_arith)
            requires
                0 <= a <= 0x1_0000_0000_0000_0000,
        ;
        lemma_div_is_ordered(a * k, a * 0x1_0000_0000, 0x1_0000_0000);
        lemma_div_multiples_vanish(a, 0x1_0000_0000);
        vstd::arithmetic::div_mod::lemma_div_pos_is_pos(a * k, 0x1_0000_0000);
    }
    let off = amplitude * keep_out / (TURN as i128);
    ((lo as i128 + off / 2) as i64, (hi as i128 - off / 2) as i64)
}

/// The state of a displacement meter, as mathematical values.
pub struct DisplacementModel {
    pub dpll: DpllModel,
    pub tracker: PositionModel,
    pub decimator: DecimatorModel,
    pub bit_ref: u8,
    pub bit_meas: u8,
}

/// One sample of the displacement meter: its next state, the lock change, and the
/// averaged position when a group of measurement edges is complete.
pub open spec fn displacement_sample(s: DisplacementModel, rising: u8) -> (
    DisplacementModel,
    (LockTransition, Option<i64>),
) {
    let (d, lt) = dpll_tick(s.dpll, bit_set(rising, s.bit_ref));
    if d.locked() && bit_set(rising, s.bit_meas) {
        let t = tracker_edge(s.tracker, d.phase_unwrapped);
        let (dec, avg) = decimator_input(s.decimator, t.position as i64);
        (DisplacementModel { dpll: d, tracker: t, decimator: dec, ..s }, (lt, avg))
    } else {
        (DisplacementModel { dpll: d, ..s }, (lt, None))
    }
}

/// Reports the measurement arm's position, averaged over groups of measurement edges,
/// while the reference loop is locked.
pub struct DisplacementMeter {
    dpll: Dpll,
    tracker: PositionTracker,
    decimator: Decimator,
    bit_ref: u8,
    bit_meas: u8,
}

impl View for DisplacementMeter {
    type V = DisplacementModel;

    closed spec fn view(&self) -> DisplacementModel {
        DisplacementModel {
            dpll: self.dpll@,
            tracker: self.tracker@,
            decimator: self.decimator@,
            bit_ref: self.bit_ref,
            bit_meas: self.bit_meas,
        }
    }
}

impl DisplacementMeter {
    pub closed spec fn wf(&self) -> bool {
        &&& self.dpll.wf()
        &&& self.decimator.wf()
        &&& self.bit_ref < 8
        &&& self.bit_meas < 8
    }

    /// A meter on reference bit `bit_ref` and measurement bit `bit_meas`, averaging
    /// groups of `decimation` edges.
    pub fn new(
        ftw_min: i64,
        ftw_max: i64,
        ki: i64,
        kp: i64,
        bit_ref: u8,
        bit_meas: u8,
        decimation: u32,
    ) -> (r: DisplacementMeter)
        requires
            0 <= ftw_min <= ftw_max < TURN / 2,
            bit_ref < 8,
            bit_meas < 8,
            decimation >= 1,
        ensures
            r.wf(),
            r@.dpll == initial_dpll_model(ftw_min as int, ftw_max as int, ki as int, kp as int),
            r@.tracker == (PositionModel { last_phase: 0, position: 0 }),
            r@.decimator == (DecimatorModel { max: decimation as int, pending: Seq::empty() }),
            r@.bit_ref == bit_ref,
            r@.bit_meas == bit_meas,
    {
        DisplacementMeter {
            dpll: Dpll::new(ftw_min, ftw_max, ki, kp),
            tracker: PositionTracker::new(),
            decimator: Decimator::new(decimation),
            bit_ref,
            bit_meas,
        }
    }

    /// Takes the rising-edge mask of one sample.
    pub fn sample(&mut self, rising: u8) -> (r: (LockTransition, Option<i64>))
        requires
            old(self).wf(),
        ensures
            final(self).wf(),
            (final(self)@, r) == displacement_sample(old(self)@, rising),
    {
        let lt = self.dpll.tick(has_bit(rising, self.bit_ref));
        if self.dpll.locked() && has_bit(rising, self.bit_meas) {
            let position = self.tracker.edge(self.dpll.get_phase_unwrapped());
            (lt, self.decimator.input(position))
        } else {
            (lt, None)
        }
    }
}

/// The state of a scan calibrator, as mathematical values.
pub struct CalibratorModel {
    pub dpll: DpllModel,
    pub tracker: PositionModel,
    pub envelope: EnvelopeModel,
    pub bit_ref: u8,
    pub bit_meas: u8,
}

/// One sample of the calibrator: its next state, the lock change, and the position
/// envelope `(min, max)` when a monitoring window is complete.
pub open spec fn calibrator_sample(s: CalibratorModel, rising: u8) -> (
    CalibratorModel,
    (LockTransition, Option<(i64, i64)>),
) {
    let (d, lt) = dpll_tick(s.dpll, bit_set(rising, s.bit_ref));
    if !d.locked() {
        (CalibratorModel { dpll: d, envelope: s.envelope.cleared(), ..s }, (lt, None))
    } else if bit_set(rising, s.bit_meas) {
        let t = tracker_edge(s.tracker, d.phase_unwrapped);
        let (env, out) = envelope_input(s.envelope, t.position);
        (CalibratorModel { dpll: d, tracker: t, envelope: env, ..s }, (lt, out))
    } else {
        (CalibratorModel { dpll: d, ..s }, (lt, None))
    }
}

/// Measures the scan's displacement: the envelope of the position over each window.
pub struct Calibrator {
    dpll: Dpll,
    tracker: PositionTracker,
    envelope: MinMaxMonitor,
    bit_ref: u8,
    bit_meas: u8,
}

impl View for Calibrator {
    type V = CalibratorModel;

    closed spec fn view(&self) -> CalibratorModel {
        CalibratorModel {
            dpll: self.dpll@,
            tracker: self.tracker@,
            envelope: self.envelope@,
            bit_ref: self.bit_ref,
            bit_meas: self.bit_meas,
        }
    }
}

impl Calibrator {
    pub closed spec fn wf(&self) -> bool {
        &&& self.dpll.wf()
        &&& self.envelope.wf()
        &&& self.bit_ref < 8
        &&& self.bit_meas < 8
    }

    /// A calibrator on reference bit `bit_ref` and measurement bit `bit_meas`, with a
    /// window of `window` measurement edges.
    pub fn new(
        ftw_min: i64,
        ftw_max: i64,
        ki: i64,
        kp: i64,
        bit_ref: u8,
        bit_meas: u8,
        window: u32,
    ) -> (r: Calibrator)
        requires
            0 <= ftw_min <= ftw_max < TURN / 2,
            bit_ref < 8,
            bit_meas < 8,
        ensures
            r.wf(),
            r@.dpll == initial_dpll_model(ftw_min as int, ftw_max as int, ki as int, kp as int),
            r@.tracker == (PositionModel { last_phase: 0, position: 0 }),
            r@.envelope == initial_envelope_model(window as int),
            r@.bit_ref == bit_ref,
            r@.bit_meas == bit_meas,
    {
        Calibrator {
            dpll: Dpll::new(ftw_min, ftw_max, ki, kp),
            tracker: PositionTracker::new(),
            envelope: MinMaxMonitor::new(window),
            bit_ref,
            bit_meas,
        }
    }

    /// Takes the rising-edge mask of one sample.
    pub fn sample(&mut self, rising: u8) -> (r: (LockTransition, Option<(i64, i64)>))
        requires
            old(self).wf(),
        ensures
            final(self).wf(),
            (final(self)@, r) == calibrator_sample(old(self)@, rising),
    {
        let lt = self.dpll.tick(has_bit(rising, self.bit_ref));
        if !self.dpll.locked() {
            self.envelope.reset();
            (lt, None)
        } else if has_bit(rising, self.bit_meas) {
            let position = self.tracker.edge(self.dpll.get_phase_unwrapped());
            (lt, self.envelope.input(position))
        } else {
            (lt, None)
        }
    }
}

/// What the wavemeter needs besides its sample stream.
#[derive(Clone, Copy, Debug)]
pub struct WavemeterConfig {
    pub ftw_min: i64,
    pub ftw_max: i64,
    pub ki: i64,
    pub kp: i64,
    pub bit_ref: u8,
    pub bit_meas: u8,
    pub bit_input: u8,
    /// Samples per envelope window.
    pub monitor_samples: u32,
    /// Fraction of the scan used for counting, with `TURN` standing for the whole scan.
    pub duty_cycle: u64,
    pub decimation: u32,
    pub min_fringes: u32,
    /// Tolerated deviation from the nominal fringe spacing, as a fraction of `TURN`.
    pub jitter_tol: u64,
}

impl WavemeterConfig {
    pub open spec fn valid(&self) -> bool {
        &&& 0 <= self.ftw_min <= self.ftw_max < TURN / 2
        &&& self.bit_ref < 8
        &&& self.bit_meas < 8
        &&& self.bit_input < 8
        &&& self.duty_cycle <= TURN
        &&& self.decimation >= 1
        &&& self.jitter_tol <= TURN
    }
}

/// What one sample of the scan stage produced.
#[derive(Clone, Copy, Debug, PartialEq, Eq)]
pub struct WavemeterReport {
    /// A quadrant transition outside the scan cycle.
    pub transition: Option<(Quadrant, Quadrant)>,
    /// What the fringe counter said to the start of a rising ramp.
    pub on_start: Option<Result<FringeMeasurement, FringeError>>,
    /// What it said to a fringe of the unknown laser.
    pub on_fringe: Option<Result<FringeMeasurement, FringeError>>,
    /// What it said to the end of a rising ramp.
    pub on_end: Option<Result<FringeMeasurement, FringeError>>,
}

/// The state of a wavemeter, as mathematical values.
pub struct WavemeterModel {
    pub dpll: DpllModel,
    pub tracker: PositionModel,
    /// The last measured position.
    pub position: int,
    pub motion: MotionModel,
    pub envelope: EnvelopeModel,
    pub quadrant: QuadrantModel,
    pub fringe: FringeModel,
    pub bit_ref: u8,
    pub bit_meas: u8,
    pub bit_input: u8,
    pub duty_cycle: int,
}

/// The first half of a sample: the reference loop and the position. While locked, the
/// position follows the measurement edges and is returned for filtering; on losing lock
/// the scan stage starts over.
pub open spec fn wavemeter_track(s: WavemeterModel, rising: u8) -> (
    WavemeterModel,
    (LockTransition, Option<i64>),
) {
    let (d, lt) = dpll_tick(s.dpll, bit_set(rising, s.bit_ref));
    if d.locked() {
        let meas = bit_set(rising, s.bit_meas);
        let t = if meas {
            tracker_edge(s.tracker, d.phase_unwrapped)
        } else {
            s.tracker
        };
        let position = if meas {
            t.position
        } else {
            s.position
        };
        let motion = motion_tick(
            s.motion,
            if meas {
                Some(position as i64)
            } else {
                None
            },
        );
        (
            WavemeterModel { dpll: d, tracker: t, position, motion, ..s },
            (lt, Some(position as i64)),
        )
    } else {
        (
            WavemeterModel {
                dpll: d,
                position: 0,
                envelope: s.envelope.cleared(),
                quadrant: initial_quadrant_model(),
                fringe: s.fringe.restart(),
                ..s
            },
            (lt, None),
        )
    }
}

/// The fringe counter after `event`, when `happens`.
pub open spec fn fringe_if(f: FringeModel, happens: bool, event: FringeEvent) -> (
    FringeModel,
    Option<Result<FringeMeasurement, FringeError>>,
) {
    if happens {
        fringe_step(f, event)
    } else {
        (f, None)
    }
}

/// The second half of a sample, on the filtered position: the envelope sets the
/// counting limits, the quadrant tracker finds the rising ramps, and the fringe counter
/// sees the ramp's start, the unknown laser's fringe at the extrapolated position, and
/// the ramp's end, in that order.
pub open spec fn wavemeter_scan(s: WavemeterModel, rising: u8, filtered: int) -> (
    WavemeterModel,
    WavemeterReport,
) {
    let (env, window) = envelope_input(s.envelope, filtered);
    let q0 = match window {
        Some((lo, hi)) => {
            let lim = scan_limits_spec(lo as int, hi as int, s.duty_cycle);
            QuadrantModel {
                new_min: lim.0,
                new_max: lim.1,
                middle: crate::fixed::tdiv(lim.0 + lim.1, 2),
                ..s.quadrant
            }
        },
        None => s.quadrant,
    };
    let (q, transition) = quadrant_input(q0, filtered);
    let start = q.prev_state == Quadrant::BelowMin && q.state == Quadrant::Up;
    let end = q.prev_state == Quadrant::Up && q.state == Quadrant::AboveMax;
    let (f1, on_start) = fringe_if(s.fringe, start, FringeEvent::Start);
    let (f2, on_fringe) = fringe_if(
        f1,
        bit_set(rising, s.bit_input),
        FringeEvent::Fringe(extrapolated(s.motion) as i64),
    );
    let (f3, on_end) = fringe_if(f2, end, FringeEvent::End);
    (
        WavemeterModel { envelope: env, quadrant: q, fringe: f3, ..s },
        WavemeterReport { transition, on_start, on_fringe, on_end },
    )
}

/// Measures the wavelength of an unknown laser by counting its fringes across the
/// rising ramps of the scan.
pub struct Wavemeter {
    dpll: Dpll,
    tracker: PositionTracker,
    position: i64,
    motion: MotionExtrapolator,
    envelope: MinMaxMonitor,
    quadrant: QuadrantTracker,
    fringe: FringeCounter,
    bit_ref: u8,
    bit_meas: u8,
    bit_input: u8,
    duty_cycle: u64,
}

impl View for Wavemeter {
    type V = WavemeterModel;

    closed spec fn view(&self) -> WavemeterModel {
        WavemeterModel {
            dpll: self.dpll@,
            tracker: self.tracker@,
            position: self.position as int,
            motion: self.motion@,
            envelope: self.envelope@,
            quadrant: self.quadrant@,
            fringe: self.fringe@,
            bit_ref: self.bit_ref,
            bit_meas: self.bit_meas,
            bit_input: self.bit_input,
            duty_cycle: self.duty_cycle as int,
        }
    }
}

impl Wavemeter {
    pub closed spec fn wf(&self) -> bool {
        &&& self.dpll.wf()
        &&& self.envelope.wf()
        &&& self.fringe.wf()
        &&& self.bit_ref < 8
        &&& self.bit_meas < 8
        &&& self.bit_input < 8
        &&& self.duty_cycle <= TURN
    }

    pub fn new(config: &WavemeterConfig) -> (r: Wavemeter)
        requires
            config.valid(),
        ensures
            r.wf(),
            r@.dpll == initial_dpll_model(
                config.ftw_min as int,
                config.ftw_max as int,
                config.ki as int,
                config.kp as int,
            ),
            r@.tracker == (PositionModel { last_phase: 0, position: 0 }),
            r@.position == 0,
            r@.motion == (MotionModel { last_position: 0, speed: 0, samples_since: 0 }),
            r@.envelope == initial_envelope_model(config.monitor_samples as int),
            r@.quadrant == initial_quadrant_model(),
            r@.fringe == initial_fringe_model(
                config.decimation as int,
                config.min_fringes as int,
                config.jitter_tol as int,
            ),
            r@.bit_ref == config.bit_ref,
            r@.bit_meas == config.bit_meas,
            r@.bit_input == config.bit_input,
            r@.duty_cycle == config.duty_cycle,
    {
        Wavemeter {
            dpll: Dpll::new(config.ftw_min, config.ftw_max, config.ki, config.kp),
            tracker: PositionTracker::new(),
            position: 0,
            motion: MotionExtrapolator::new(),
            envelope: MinMaxMonitor::new(config.monitor_samples),
            quadrant: QuadrantTracker::new(),
            fringe: FringeCounter::new(config.decimation, config.min_fringes, config.jitter_tol),
            bit_ref: config.bit_ref,
            bit_meas: config.bit_meas,
            bit_input: config.bit_input,
            duty_cycle: config.duty_cycle,
        }
    }

    /// Takes the rising-edge mask of one sample. While locked, returns the position to
    /// filter and hand to `scan`.
    pub fn track(&mut self, rising: u8) -> (r: (LockTransition, Option<i64>))
        requires
            old(self).wf(),
        ensures
            final(self).wf(),
            (final(self)@, r) == wavemeter_track(old(self)@, rising),
    {
        let lt = self.dpll.tick(has_bit(rising, self.bit_ref));
        if self.dpll.locked() {
            let meas = has_bit(rising, self.bit_meas);
            if meas {
                self.position = self.tracker.edge(self.dpll.get_phase_unwrapped());
                self.motion.tick(Some(self.position));
            } else {
                self.motion.tick(None);
            }
            (lt, Some(self.position))
        } else {
            self.position = 0;
            self.envelope.reset();
            self.quadrant.reset();
            self.fringe.reset();
            (lt, None)
        }
    }

    /// Takes the same sample's rising-edge mask and its filtered position.
    pub fn scan(&mut self, rising: u8, filtered: i64) -> (r: WavemeterReport)
        requires
            old(self).wf(),
        ensures
            final(self).wf(),
            (final(self)@, r) == wavemeter_scan(old(self)@, rising, filtered as int),
    {
        if let Some((lo, hi)) = self.envelope.input(filtered) {
            let (min, max) = scan_limits(lo, hi, self.duty_cycle);
            self.quadrant.update_limits(min, max);
        }
        let transition = self.quadrant.input(filtered);
        let on_start = if self.quadrant.up_start() {
            self.fringe.feed(FringeEvent::Start)
        } else {
            None
        };
        let on_fringe = if has_bit(rising, self.bit_input) {
            self.fringe.feed(FringeEvent::Fringe(self.motion.extrapolated_position()))
        } else {
            None
        };
        let on_end = if self.quadrant.up_end() {
            self.fringe.feed(FringeEvent::End)
        } else {
            None
        };
        WavemeterReport { transition, on_start, on_fringe, on_end }
    }
}

} // verus!

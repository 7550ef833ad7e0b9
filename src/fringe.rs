//! Fringe counting over one or more up-ramps of the scan, and the wavelength estimate
//! that it yields.
use crate::fixed::{abs, lemma_average_range, sum_range, tdiv, TURN};
use vstd::arithmetic::div_mod::{lemma_div_is_ordered, lemma_div_is_ordered_by_denominator};
use vstd::prelude::*;

verus! {

/// What the scan hands to the fringe counter, in the order it happens.
#[derive(Clone, Copy, Debug, PartialEq, Eq, Structural)]
pub enum FringeEvent {
    /// An up-ramp begins.
    Start,
    /// A rising edge of the unknown laser's beat, at this scan position.
    Fringe(i64),
    /// The up-ramp ends.
    End,
}

/// Why a scan segment was thrown away.
#[derive(Clone, Copy, Debug, PartialEq, Eq, Structural)]
pub enum FringeError {
    /// A `Start` or `End` came while the four boundary fringes were being taken.
    BoundaryInterrupted,
    /// A `Start` came while the fringes of the first ramp were being counted.
    CountingInterrupted,
    /// The first ramp held fewer fringes between its boundaries than required.
    InsufficientFringes(u64),
    /// A `Start` came while the fringes of a later ramp were being counted.
    SecondaryInterrupted,
    /// Two kept fringes lay further from the nominal spacing than tolerated.
    JitterExceeded { distance: i128, nominal: i128 },
    /// A later ramp held another number of fringes inside the window.
    CountMismatch { got: u64, expected: u64 },
}

/// The averaged result of one accepted group of ramps.
#[derive(Clone, Copy, Debug, PartialEq, Eq, Structural)]
pub struct FringeMeasurement {
    /// Averaged position of the first fringe inside the window.
    pub first: i64,
    /// Averaged position of the last fringe inside the window.
    pub last: i64,
    /// Fringes inside the window, both ends included.
    pub fringes: u64,
    /// Distance between neighbouring fringes, in phase units.
    pub wavelength: u64,
}

/// Where the counter stands in its group of ramps.
#[derive(Clone, Copy, Debug, PartialEq, Eq, Structural)]
pub enum FringeStage {
    /// Waiting for the first ramp of a group.
    AwaitStart,
    /// Taking the boundary fringes; this many are taken.
    AcquireBoundary(u8),
    /// Counting the fringes of the first ramp.
    CountBetween,
    /// Waiting for a later ramp; this many are still to come.
    AwaitSecondaryStart(u32),
    /// Counting inside the window on a later ramp; this many, this one included, remain.
    SecondaryCount(u32),
}

impl FringeStage {
    pub open spec fn is_secondary(self) -> bool {
        self is AwaitSecondaryStart || self is SecondaryCount
    }
}

/// The state of a fringe counter, as mathematical values.
pub struct FringeModel {
    pub decimation: int,
    pub min_fringes: int,
    /// Tolerated deviation from the nominal fringe spacing, as a fraction of one turn.
    pub tol: int,
    pub stage: FringeStage,
    pub b0: int,
    pub b1: int,
    pub b2: int,
    pub b3: int,
    pub between: int,
    pub f1_acc: int,
    pub f2_acc: int,
    pub last_kept: Option<int>,
    pub count: int,
}

/// `x + 1`, held at the largest 64-bit unsigned value.
pub open spec fn sat_inc(x: int) -> int {
    if x >= u64::MAX {
        u64::MAX as int
    } else {
        x + 1
    }
}

/// Fringe spacing, in phase units, from the averaged window ends.
pub open spec fn wavelength_of(first: int, last: int, fringes: int) -> int {
    abs(last - first) / (fringes - 1)
}

/// The result of a group whose window-end positions sum to `f1_acc` and `f2_acc`.
pub open spec fn measurement_of(decimation: int, f1_acc: int, f2_acc: int, fringes: int)
    -> FringeMeasurement {
    let first = tdiv(f1_acc, decimation);
    let last = tdiv(f2_acc, decimation);
    FringeMeasurement {
        first: first as i64,
        last: last as i64,
        fringes: fringes as u64,
        wavelength: wavelength_of(first, last, fringes) as u64,
    }
}

impl FringeModel {
    /// Distance between the first two boundary fringes.
    pub open spec fn nominal(self) -> int {
        self.b1 - self.b0
    }

    pub open spec fn jitter_tol(self) -> int {
        tdiv(self.nominal() * self.tol, TURN as int)
    }

    /// Midpoint of the first boundary pair.
    pub open spec fn limit1(self) -> int {
        tdiv(self.b0 + self.b1, 2)
    }

    /// Midpoint of the last boundary pair.
    pub open spec fn limit2(self) -> int {
        tdiv(self.b2 + self.b3, 2)
    }

    /// Fringes that a later ramp must show inside the window.
    pub open spec fn expected(self) -> int {
        sat_inc(sat_inc(self.between))
    }

    pub open spec fn in_window(self, p: int) -> bool {
        (self.limit1() < p && p < self.limit2()) || (self.limit2() < p && p < self.limit1())
    }

    /// Back to waiting for a group's first ramp.
    pub open spec fn restart(self) -> FringeModel {
        FringeModel { stage: FringeStage::AwaitStart, ..self }
    }

    pub open spec fn with_boundary(self, i: int, p: int) -> FringeModel {
        if i == 0 {
            FringeModel { b0: p, ..self }
        } else if i == 1 {
            FringeModel { b1: p, ..self }
        } else if i == 2 {
            FringeModel { b2: p, ..self }
        } else {
            FringeModel { b3: p, ..self }
        }
    }
}

/// A new counter, awaiting its first ramp.
pub open spec fn initial_fringe_model(decimation: int, min_fringes: int, tol: int) -> FringeModel {
    FringeModel {
        decimation,
        min_fringes,
        tol,
        stage: FringeStage::AwaitStart,
        b0: 0,
        b1: 0,
        b2: 0,
        b3: 0,
        between: 0,
        f1_acc: 0,
        f2_acc: 0,
        last_kept: None,
        count: 0,
    }
}

/// One transition of the fringe counter: its next state, and what it reports.
pub open spec fn fringe_step(s: FringeModel, e: FringeEvent) -> (
    FringeModel,
    Option<Result<FringeMeasurement, FringeError>>,
) {
    match s.stage {
        FringeStage::AwaitStart => match e {
            FringeEvent::Start => (
                FringeModel { stage: FringeStage::AcquireBoundary(0), ..s },
                None,
            ),
            _ => (s, None),
        },
        FringeStage::AcquireBoundary(i) => match e {
            FringeEvent::Fringe(p) => {
                let t = s.with_boundary(i as int, p as int);
                if i >= 3 {
                    (FringeModel { stage: FringeStage::CountBetween, between: 0, ..t }, None)
                } else {
                    (FringeModel { stage: FringeStage::AcquireBoundary((i + 1) as u8), ..t }, None)
                }
            },
            _ => (s.restart(), Some(Err(FringeError::BoundaryInterrupted))),
        },
        FringeStage::CountBetween => match e {
            FringeEvent::Start => (s.restart(), Some(Err(FringeError::CountingInterrupted))),
            FringeEvent::Fringe(p) => (
                FringeModel { b2: s.b3, b3: p as int, between: sat_inc(s.between), ..s },
                None,
            ),
            FringeEvent::End => if s.between < s.min_fringes {
                (
                    s.restart(),
                    Some(Err(FringeError::InsufficientFringes(s.between as u64))),
                )
            } else if s.decimation == 1 {
                (s.restart(), Some(Ok(measurement_of(1, s.b1, s.b2, s.expected()))))
            } else {
                (
                    FringeModel {
                        stage: FringeStage::AwaitSecondaryStart((s.decimation - 1) as u32),
                        f1_acc: s.b1,
                        f2_acc: s.b2,
                        ..s
                    },
                    None,
                )
            },
        },
        FringeStage::AwaitSecondaryStart(k) => match e {
            FringeEvent::Start => (
                FringeModel {
                    stage: FringeStage::SecondaryCount(k),
                    last_kept: None,
                    count: 0,
                    ..s
                },
                None,
            ),
            _ => (s, None),
        },
        FringeStage::SecondaryCount(k) => match e {
            FringeEvent::Start => (s.restart(), Some(Err(FringeError::SecondaryInterrupted))),
            FringeEvent::Fringe(p) => if !s.in_window(p as int) {
                (s, None)
            } else if s.last_kept is Some && abs((p - s.last_kept->0) - s.nominal())
                > s.jitter_tol() {
                (
                    s.restart(),
                    Some(
                        Err(
                            FringeError::JitterExceeded {
                                distance: (p - s.last_kept->0) as i128,
                                nominal: s.nominal() as i128,
                            },
                        ),
                    ),
                )
            } else {
                (
                    FringeModel {
                        last_kept: Some(p as int),
                        count: sat_inc(s.count),
                        f1_acc: if s.count == 0 {
                            s.f1_acc + p
                        } else {
                            s.f1_acc
                        },
                        ..s
                    },
                    None,
                )
            },
            FringeEvent::End => if s.count != s.expected() {
                (
                    s.restart(),
                    Some(
                        Err(
                            FringeError::CountMismatch {
                                got: s.count as u64,
                                expected: s.expected() as u64,
                            },
                        ),
                    ),
                )
            } else {
                let f2 = s.f2_acc + s.last_kept->0;
                if k <= 1 {
                    (
                        FringeModel { f2_acc: f2, ..s.restart() },
                        Some(Ok(measurement_of(s.decimation, s.f1_acc, f2, s.expected()))),
                    )
                } else {
                    (
                        FringeModel {
                            stage: FringeStage::AwaitSecondaryStart((k - 1) as u32),
                            f2_acc: f2,
                            ..s
                        },
                        None,
                    )
                }
            },
        },
    }
}

/// Turns the stream of scan events into wavelength measurements, one per group of
/// `decimation` accepted up-ramps.
pub struct FringeCounter {
    decimation: u32,
    min_fringes: u32,
    tol: u64,
    stage: FringeStage,
    b0: i64,
    b1: i64,
    b2: i64,
    b3: i64,
    between: u64,
    nominal: i128,
    jitter_tol: i128,
    limit1: i128,
    limit2: i128,
    expected: u64,
    f1_acc: i128,
    f2_acc: i128,
    last_kept: Option<i64>,
    count: u64,
}

impl View for FringeCounter {
    type V = FringeModel;

    closed spec fn view(&self) -> FringeModel {
        FringeModel {
            decimation: self.decimation as int,
            min_fringes: self.min_fringes as int,
            tol: self.tol as int,
            stage: self.stage,
            b0: self.b0 as int,
            b1: self.b1 as int,
            b2: self.b2 as int,
            b3: self.b3 as int,
            between: self.between as int,
            f1_acc: self.f1_acc as int,
            f2_acc: self.f2_acc as int,
            last_kept: match self.last_kept {
                Some(p) => Some(p as int),
                None => None,
            },
            count: self.count as int,
        }
    }
}

impl FringeCounter {
    /// The counter's internal consistency.
    pub closed spec fn wf(&self) -> bool {
        let m = self@;
        &&& 1 <= self.decimation
        &&& self.tol <= TURN
        &&& (self.stage matches FringeStage::AcquireBoundary(i) ==> i < 4)
        &&& (self.stage.is_secondary() ==> {
            &&& self.nominal == m.nominal()
            &&& self.jitter_tol == m.jitter_tol()
            &&& self.limit1 == m.limit1()
            &&& self.limit2 == m.limit2()
            &&& self.expected == m.expected()
            &&& self.expected >= 2
        })
        &&& (self.stage matches FringeStage::AwaitSecondaryStart(k) ==> {
            &&& 1 <= k < self.decimation
            &&& sum_range(m.f1_acc, self.decimation - k)
            &&& sum_range(m.f2_acc, self.decimation - k)
        })
        &&& (self.stage matches FringeStage::SecondaryCount(k) ==> {
            &&& 1 <= k < self.decimation
            &&& (self.count == 0 <==> self.last_kept is None)
            &&& sum_range(m.f1_acc, self.decimation - k + if self.count == 0 { 0int } else { 1 })
            &&& sum_range(m.f2_acc, self.decimation - k)
        })
    }

    /// A counter awaiting its first ramp. `jitter_tol` is the tolerated deviation from the
    /// nominal fringe spacing as a fraction of one turn (`TURN` stands for 1).
    pub fn new(decimation: u32, min_fringes: u32, jitter_tol: u64) -> (r: FringeCounter)
        requires
            decimation >= 1,
            jitter_tol <= TURN,
        ensures
            r.wf(),
            r@ == initial_fringe_model(decimation as int, min_fringes as int, jitter_tol as int),
    {
        FringeCounter {
            decimation,
            min_fringes,
            tol: jitter_tol,
            stage: FringeStage::AwaitStart,
            b0: 0,
            b1: 0,
            b2: 0,
            b3: 0,
            between: 0,
            nominal: 0,
            jitter_tol: 0,
            limit1: 0,
            limit2: 0,
            expected: 2,
            f1_acc: 0,
            f2_acc: 0,
            last_kept: None,
            count: 0,
        }
    }

    /// Drops the group in progress and waits for a new first ramp.
    pub fn reset(&mut self)
        requires
            old(self).wf(),
        ensures
            final(self).wf(),
            final(self)@ == old(self)@.restart(),
    {
        self.stage = FringeStage::AwaitStart;
    }

    /// Takes one event; reports a measurement when a group is complete, or the reason a
    /// group was dropped.
    pub fn feed(&mut self, event: FringeEvent) -> (r: Option<Result<FringeMeasurement, FringeError>>)
        requires
            old(self).wf(),
        ensures
            final(self).wf(),
            (final(self)@, r) == fringe_step(old(self)@, event),
    {
        match self.stage {
            FringeStage::AwaitStart => {
                if let FringeEvent::Start = event {
                    self.stage = FringeStage::AcquireBoundary(0);
                }
                None
            },
            FringeStage::AcquireBoundary(i) => {
                if let FringeEvent::Fringe(p) = event {
                    if i == 0 {
                        self.b0 = p;
                    } else if i == 1 {
                        self.b1 = p;
                    } else if i == 2 {
                        self.b2 = p;
                    } else {
                        self.b3 = p;
                    }
                    if i >= 3 {
                        self.stage = FringeStage::CountBetween;
                        self.between = 0;
                    } else {
                        self.stage = FringeStage::AcquireBoundary(i + 1);
                    }
                    None
                } else {
                    self.stage = FringeStage::AwaitStart;
                    Some(Err(FringeError::BoundaryInterrupted))
                }
            },
            FringeStage::CountBetween => match event {
                FringeEvent::Start => {
                    self.stage = FringeStage::AwaitStart;
                    Some(Err(FringeError::CountingInterrupted))
                },
                FringeEvent::Fringe(p) => {
                    self.b2 = self.b3;
                    self.b3 = p;
                    self.between = self.between.saturating_add(1);
                    None
                },
                FringeEvent::End => self.close_primary(),
            },
            FringeStage::AwaitSecondaryStart(k) => {
                if let FringeEvent::Start = event {
                    self.stage = FringeStage::SecondaryCount(k);
                    self.last_kept = None;
                    self.count = 0;
                }
                None
            },
            FringeStage::SecondaryCount(k) => match event {
                FringeEvent::Start => {
                    self.stage = FringeStage::AwaitStart;
                    Some(Err(FringeError::SecondaryInterrupted))
                },
                FringeEvent::Fringe(p) => self.secondary_fringe(p),
                FringeEvent::End => self.close_secondary(k),
            },
        }
    }

    /// The first ramp of a group has ended.
    fn close_primary(&mut self) -> (r: Option<Result<FringeMeasurement, FringeError>>)
        requires
            old(self).wf(),
            old(self).stage == FringeStage::CountBetween,
        ensures
            final(self).wf(),
            (final(self)@, r) == fringe_step(old(self)@, FringeEvent::End),
    {
        if self.between < self.min_fringes as u64 {
            self.stage = FringeStage::AwaitStart;
            return Some(Err(FringeError::InsufficientFringes(self.between)));
        }
        let expected = self.between.saturating_add(1).saturating_add(1);
        if self.decimation == 1 {
            self.stage = FringeStage::AwaitStart;
            return Some(Ok(measurement(1, self.b1 as i128, self.b2 as i128, expected)));
        }
        let nominal = self.b1 as i128 - self.b0 as i128;
        self.nominal = nominal;
        proof {
            let t = self.tol as int;
            assert(-0x1_0000_0000_0000_0000_0000_0000 <= nominal * t <= 0x1_0000_0000_0000_0000_0000_0000)
                by (nonlinear_arith)
                requires
                    -0x1_0000_0000_0000_0000 <= nominal <= 0x1_0000_0000_0000_0000,
                    0 <= t <= 0x1_0000_0000,
            ;
        }
        self.jitter_tol = nominal * (self.tol as i128) / (TURN as i128);
        self.limit1 = (self.b0 as i128 + self.b1 as i128) / 2;
        self.limit2 = (self.b2 as i128 + self.b3 as i128) / 2;
        self.expected = expected;
        self.f1_acc = self.b1 as i128;
        self.f2_acc = self.b2 as i128;
        self.stage = FringeStage::AwaitSecondaryStart(self.decimation - 1);
        None
    }

    /// A fringe on a later ramp.
    fn secondary_fringe(&mut self, p: i64) -> (r: Option<Result<FringeMeasurement, FringeError>>)
        requires
            old(self).wf(),
            old(self).stage is SecondaryCount,
        ensures
            final(self).wf(),
            (final(self)@, r) == fringe_step(old(self)@, FringeEvent::Fringe(p)),
    {
        let pos = p as i128;
        let inside = (self.limit1 < pos && pos < self.limit2) || (self.limit2 < pos && pos
            < self.limit1);
        if !inside {
            return None;
        }
        if let Some(last) = self.last_kept {
            let distance = pos - last as i128;
            let deviation = distance - self.nominal;
            let magnitude = if deviation < 0 {
                -deviation
            } else {
                deviation
            };
            if magnitude > self.jitter_tol {
                self.stage = FringeStage::AwaitStart;
                return Some(Err(FringeError::JitterExceeded { distance, nominal: self.nominal }));
            }
        }
        if self.count == 0 {
            self.f1_acc = self.f1_acc + pos;
        }
        self.last_kept = Some(p);
        self.count = self.count.saturating_add(1);
        None
    }

    /// A later ramp has ended; `k` ramps, this one included, remained.
    fn close_secondary(&mut self, k: u32) -> (r: Option<Result<FringeMeasurement, FringeError>>)
        requires
            old(self).wf(),
            old(self).stage == FringeStage::SecondaryCount(k),
        ensures
            final(self).wf(),
            (final(self)@, r) == fringe_step(old(self)@, FringeEvent::End),
    {
        if self.count != self.expected {
            self.stage = FringeStage::AwaitStart;
            return Some(Err(FringeError::CountMismatch { got: self.count, expected: self.expected }));
        }
        let last = match self.last_kept {
            Some(p) => p,
            None => 0,
        };
        self.f2_acc = self.f2_acc + last as i128;
        if k <= 1 {
            self.stage = FringeStage::AwaitStart;
            proof {
                assert(self.decimation - k + 1 == self.decimation);
            }
            Some(Ok(measurement(self.decimation as i128, self.f1_acc, self.f2_acc, self.expected)))
        } else {
            self.stage = FringeStage::AwaitSecondaryStart(k - 1);
            None
        }
    }
}

/// The measurement of a group of `decimation` ramps whose window ends sum to `f1_acc`
/// and `f2_acc`.
fn measurement(decimation: i128, f1_acc: i128, f2_acc: i128, fringes: u64) -> (r: FringeMeasurement)
    requires
        1 <= decimation <= u32::MAX,
        sum_range(f1_acc as int, decimation as int),
        sum_range(f2_acc as int, decimation as int),
        fringes >= 2,
    ensures
        r == measurement_of(decimation as int, f1_acc as int, f2_acc as int, fringes as int),
{
    proof {
        lemma_average_range(f1_acc as int, decimation as int);
        lemma_average_range(f2_acc as int, decimation as int);
    }
    let first = (f1_acc / decimation) as i64;
    let last = (f2_acc / decimation) as i64;
    FringeMeasurement { first, last, fringes, wavelength: wavelength_units(first, last, fringes) }
}

/// Fringe spacing from the window's first and last fringe positions and the number of
/// fringes between them, both included.
pub fn wavelength_units(first: i64, last: i64, fringes: u64) -> (r: u64)
    requires
        fringes >= 2,
    ensures
        r == wavelength_of(first as int, last as int, fringes as int),
{
    let span = last as i128 - first as i128;
    let distance = if span < 0 {
        -span
    } else {
        span
    };
    proof {
        lemma_div_is_ordered(distance as int, u64::MAX as int, fringes - 1);
        lemma_div_is_ordered_by_denominator(u64::MAX as int, 1, fringes - 1);
    }
    (distance / (fringes as i128 - 1)) as u64
}

/// With a decimation of one a group is a single ramp: the counter never waits for a
/// later ramp, and the `End` that closes an accepted first ramp yields its measurement at
/// once.
pub proof fn lemma_single_ramp_groups(s: FringeModel, e: FringeEvent)
    requires
        s.decimation == 1,
        !s.stage.is_secondary(),
    ensures
        !fringe_step(s, e).0.stage.is_secondary(),
        s.stage == FringeStage::CountBetween && e == FringeEvent::End && s.between
            >= s.min_fringes ==> fringe_step(s, e) == (
            s.restart(),
            Some(Ok::<FringeMeasurement, FringeError>(measurement_of(1, s.b1, s.b2, s.expected()))),
        ),
{
}

} // verus!

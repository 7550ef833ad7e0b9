//! Optical position from the reference phase, and its extrapolation between
//! measurement edges.
use crate::fixed::{
    lemma_wrap_i64_congruent, lemma_wrapping_add_i64, lemma_wrapping_mul_i64,
    lemma_wrapping_sub_i64, tdiv, word, wrap_i64, TURN,
};
use vstd::arithmetic::div_mod::lemma_fundamental_div_mod;
use vstd::prelude::*;

verus! {

/// `x` is `wrap_i64(x)` plus a whole number of 64-bit wraps.
proof fn lemma_wrap_i64_split(x: int) -> (k: int)
    ensures
        x == wrap_i64(x) + k * word(),
{
    lemma_fundamental_div_mod(x, word());
    let q = x / word();
    assert(word() * q == q * word()) by (nonlinear_arith);
    if x % word() > i64::MAX {
        q + 1
    } else {
        q
    }
}

/// The position after a measurement edge at unwrapped reference phase `phase`: one
/// turn less the reference phase elapsed since the previous edge, accumulated with
/// 64-bit wrap-around.
pub open spec fn position_after_edge(position: int, last_phase: int, phase: int) -> int {
    wrap_i64(position + TURN - (phase - last_phase))
}

/// The state of a position tracker, as mathematical values.
pub struct PositionModel {
    /// Unwrapped reference phase at the previous measurement edge.
    pub last_phase: int,
    /// The accumulated position.
    pub position: int,
}

/// The tracker after a measurement edge at unwrapped reference phase `phase`.
pub open spec fn tracker_edge(s: PositionModel, phase: int) -> PositionModel {
    PositionModel {
        last_phase: phase,
        position: position_after_edge(s.position, s.last_phase, phase),
    }
}

/// Integrates, edge by edge, how far the measurement beat falls behind the reference.
pub struct PositionTracker {
    last_phase: i64,
    current_position: i64,
}

impl View for PositionTracker {
    type V = PositionModel;

    closed spec fn view(&self) -> PositionModel {
        PositionModel {
            last_phase: self.last_phase as int,
            position: self.current_position as int,
        }
    }
}

impl PositionTracker {
    pub fn new() -> (r: PositionTracker)
        ensures
            r@ == (PositionModel { last_phase: 0, position: 0 }),
    {
        PositionTracker { last_phase: 0, current_position: 0 }
    }

    /// Takes a measurement edge seen at unwrapped reference phase `phase`; returns the
    /// new position.
    pub fn edge(&mut self, phase: i64) -> (r: i64)
        ensures
            final(self)@ == tracker_edge(old(self)@, phase as int),
            r == final(self)@.position,
    {
        let phase_diff = phase.wrapping_sub(self.last_phase);
        let missing = TURN.wrapping_sub(phase_diff);
        proof {
            let exact = phase - self.last_phase;
            lemma_wrapping_sub_i64(phase, self.last_phase);
            lemma_wrapping_sub_i64(TURN, phase_diff);
            lemma_wrapping_add_i64(self.current_position, missing);
            let k1 = lemma_wrap_i64_split(exact);
            let k2 = lemma_wrap_i64_split(TURN - phase_diff);
            lemma_wrap_i64_congruent(
                self.current_position + TURN - exact,
                self.current_position + missing,
                k2 - k1,
            );
        }
        self.last_phase = phase;
        self.current_position = self.current_position.wrapping_add(missing);
        self.current_position
    }
}

/// The state of a motion extrapolator, as mathematical values.
pub struct MotionModel {
    pub last_position: int,
    pub speed: int,
    pub samples_since: int,
}

/// One sample: `Some` carries a new measured position.
pub open spec fn motion_tick(s: MotionModel, measured: Option<i64>) -> MotionModel {
    let since = if s.samples_since >= u32::MAX {
        s.samples_since
    } else {
        s.samples_since + 1
    };
    match measured {
        Some(p) => MotionModel {
            last_position: p as int,
            speed: tdiv(wrap_i64(p - s.last_position), since),
            samples_since: 0,
        },
        None => MotionModel { samples_since: since, ..s },
    }
}

/// The position extrapolated from the last measurement at the last measured speed,
/// with 64-bit wrap-around.
pub open spec fn extrapolated(s: MotionModel) -> int {
    wrap_i64(s.last_position + wrap_i64(s.speed * s.samples_since))
}

/// Estimates the position between measurement edges from the speed between the last two.
pub struct MotionExtrapolator {
    last_position: i64,
    speed: i64,
    samples_since: u32,
}

impl View for MotionExtrapolator {
    type V = MotionModel;

    closed spec fn view(&self) -> MotionModel {
        MotionModel {
            last_position: self.last_position as int,
            speed: self.speed as int,
            samples_since: self.samples_since as int,
        }
    }
}

impl MotionExtrapolator {
    pub fn new() -> (r: MotionExtrapolator)
        ensures
            r@ == (MotionModel { last_position: 0, speed: 0, samples_since: 0 }),
    {
        MotionExtrapolator { last_position: 0, speed: 0, samples_since: 0 }
    }

    /// Advances one sample; `measured` is the new position on a measurement edge.
    pub fn tick(&mut self, measured: Option<i64>)
        ensures
            final(self)@ == motion_tick(old(self)@, measured),
    {
        self.samples_since = self.samples_since.saturating_add(1);
        if let Some(p) = measured {
            let diff = p.wrapping_sub(self.last_position);
            proof {
                lemma_wrapping_sub_i64(p, self.last_position);
            }
            self.speed = diff / (self.samples_since as i64);
            self.last_position = p;
            self.samples_since = 0;
        }
    }

    pub fn extrapolated_position(&self) -> (r: i64)
        ensures
            r == extrapolated(self@),
    {
        let step = self.speed.wrapping_mul(self.samples_since as i64);
        proof {
            lemma_wrapping_mul_i64(self.speed, self.samples_since as i64);
            lemma_wrapping_add_i64(self.last_position, step);
        }
        self.last_position.wrapping_add(step)
    }
}

} // verus!

//! Which part of the mechanical scan the measurement arm is on.
use crate::fixed::tdiv;
use vstd::prelude::*;

verus! {

/// A part of the scan period.
#[derive(Clone, Copy, Debug, PartialEq, Eq, Structural)]
pub enum Quadrant {
    BelowMin,
    Up,
    AboveMax,
    Down,
}

impl Quadrant {
    /// A short name, for diagnostics.
    pub fn name(&self) -> (r: &'static str) {
        match self {
            Quadrant::BelowMin => "BelowMin",
            Quadrant::Up => "Up",
            Quadrant::AboveMax => "AboveMax",
            Quadrant::Down => "Down",
        }
    }
}

/// Whether `a -> b` is a step of the cycle `BelowMin -> Up -> AboveMax -> Down -> BelowMin`.
pub open spec fn canonical_step(a: Quadrant, b: Quadrant) -> bool {
    ||| (a == Quadrant::BelowMin && b == Quadrant::Up)
    ||| (a == Quadrant::Up && b == Quadrant::AboveMax)
    ||| (a == Quadrant::AboveMax && b == Quadrant::Down)
    ||| (a == Quadrant::Down && b == Quadrant::BelowMin)
}

/// The quadrant after seeing position `p` in quadrant `state`, with active limits
/// `min` and `max`.
pub open spec fn next_quadrant(state: Quadrant, min: int, max: int, p: int) -> Quadrant {
    if p > min && p < max {
        match state {
            Quadrant::BelowMin | Quadrant::Up => Quadrant::Up,
            Quadrant::AboveMax | Quadrant::Down => Quadrant::Down,
        }
    } else if p > min {
        Quadrant::AboveMax
    } else {
        Quadrant::BelowMin
    }
}

/// The state of a quadrant tracker, as mathematical values.
pub struct QuadrantModel {
    pub prev_state: Quadrant,
    pub state: Quadrant,
    pub min: int,
    pub max: int,
    pub new_min: int,
    pub new_max: int,
    pub prev_above_middle: bool,
    pub middle: int,
}

/// A tracker that has seen no limits: its comparisons all fail, so it stays `BelowMin`.
pub open spec fn initial_quadrant_model() -> QuadrantModel {
    QuadrantModel {
        prev_state: Quadrant::BelowMin,
        state: Quadrant::BelowMin,
        min: i64::MAX as int,
        max: i64::MIN as int,
        new_min: i64::MAX as int,
        new_max: i64::MIN as int,
        prev_above_middle: false,
        middle: i64::MAX as int,
    }
}

/// One position sample: the next state, and the transition if it leaves the cycle.
pub open spec fn quadrant_input(s: QuadrantModel, p: int) -> (
    QuadrantModel,
    Option<(Quadrant, Quadrant)>,
) {
    let next = next_quadrant(s.state, s.min, s.max, p);
    let report = if s.state != next && !canonical_step(s.state, next) {
        Some((s.state, next))
    } else {
        None
    };
    let above_middle = p > s.middle;
    let swap = above_middle && !s.prev_above_middle;
    (
        QuadrantModel {
            prev_state: s.state,
            state: next,
            min: if swap {
                s.new_min
            } else {
                s.min
            },
            max: if swap {
                s.new_max
            } else {
                s.max
            },
            prev_above_middle: above_middle,
            ..s
        },
        report,
    )
}

/// Follows the scan through its four quadrants, taking new limits only as the position
/// rises through the middle of the staged ones.
pub struct QuadrantTracker {
    prev_state: Quadrant,
    state: Quadrant,
    min: i64,
    max: i64,
    new_min: i64,
    new_max: i64,
    prev_above_middle: bool,
    middle: i64,
}

impl View for QuadrantTracker {
    type V = QuadrantModel;

    closed spec fn view(&self) -> QuadrantModel {
        QuadrantModel {
            prev_state: self.prev_state,
            state: self.state,
            min: self.min as int,
            max: self.max as int,
            new_min: self.new_min as int,
            new_max: self.new_max as int,
            prev_above_middle: self.prev_above_middle,
            middle: self.middle as int,
        }
    }
}

impl QuadrantTracker {
    pub fn new() -> (r: QuadrantTracker)
        ensures
            r@ == initial_quadrant_model(),
    {
        QuadrantTracker {
            prev_state: Quadrant::BelowMin,
            state: Quadrant::BelowMin,
            min: i64::MAX,
            max: i64::MIN,
            new_min: i64::MAX,
            new_max: i64::MIN,
            prev_above_middle: false,
            middle: i64::MAX,
        }
    }

    /// Forgets all limits and returns to `BelowMin`.
    pub fn reset(&mut self)
        ensures
            final(self)@ == initial_quadrant_model(),
    {
        *self = QuadrantTracker::new();
    }

    /// Takes one position sample. Returns the transition when it is not a step of the
    /// cycle; the state moves either way.
    pub fn input(&mut self, position: i64) -> (r: Option<(Quadrant, Quadrant)>)
        ensures
            (final(self)@, r) == quadrant_input(old(self)@, position as int),
            r is None <==> (old(self)@.state == final(self)@.state || canonical_step(
                old(self)@.state,
                final(self)@.state,
            )),
    {
        let above_min = position > self.min;
        let below_max = position < self.max;
        let next_state = if above_min && below_max {
            match self.state {
                Quadrant::BelowMin | Quadrant::Up => Quadrant::Up,
                Quadrant::AboveMax | Quadrant::Down => Quadrant::Down,
            }
        } else if above_min {
            Quadrant::AboveMax
        } else {
            Quadrant::BelowMin
        };
        let report = if self.state == next_state {
            None
        } else {
            match (self.state, next_state) {
                (Quadrant::BelowMin, Quadrant::Up)
                | (Quadrant::Up, Quadrant::AboveMax)
                | (Quadrant::AboveMax, Quadrant::Down)
                | (Quadrant::Down, Quadrant::BelowMin) => None,
                _ => Some((self.state, next_state)),
            }
        };
        self.prev_state = self.state;
        self.state = next_state;
        let above_middle = position > self.middle;
        if above_middle && !self.prev_above_middle {
            self.min = self.new_min;
            self.max = self.new_max;
        }
        self.prev_above_middle = above_middle;
        report
    }

    /// Stages new limits; they take effect when the position next rises through their
    /// middle.
    pub fn update_limits(&mut self, min: i64, max: i64)
        ensures
            final(self)@ == (QuadrantModel {
                new_min: min as int,
                new_max: max as int,
                middle: tdiv(min + max, 2),
                ..old(self)@
            }),
    {
        self.new_min = min;
        self.new_max = max;
        self.middle = ((min as i128 + max as i128) / 2) as i64;
    }

    /// The scan has just begun a rising ramp.
    pub fn up_start(&self) -> (r: bool)
        ensures
            r == (self@.prev_state == Quadrant::BelowMin && self@.state == Quadrant::Up),
    {
        self.prev_state == Quadrant::BelowMin && self.state == Quadrant::Up
    }

    /// The scan has just finished a rising ramp.
    pub fn up_end(&self) -> (r: bool)
        ensures
            r == (self@.prev_state == Quadrant::Up && self@.state == Quadrant::AboveMax),
    {
        self.prev_state == Quadrant::Up && self.state == Quadrant::AboveMax
    }

    /// The scan has just begun a falling ramp.
    pub fn down_start(&self) -> (r: bool)
        ensures
            r == (self@.prev_state == Quadrant::AboveMax && self@.state == Quadrant::Down),
    {
        self.prev_state == Quadrant::AboveMax && self.state == Quadrant::Down
    }

    /// The scan has just finished a falling ramp.
    pub fn down_end(&self) -> (r: bool)
        ensures
            r == (self@.prev_state == Quadrant::Down && self@.state == Quadrant::BelowMin),
    {
        self.prev_state == Quadrant::Down && self.state == Quadrant::BelowMin
    }
}

/// Before any limits are staged the tracker is trapped: every position leaves it in
/// `BelowMin`, reports nothing, and keeps its limits.
pub proof fn lemma_uninitialized_stays_below(p: i64)
    ensures
        quadrant_input(initial_quadrant_model(), p as int) == (
            QuadrantModel { prev_above_middle: false, ..initial_quadrant_model() },
            None::<(Quadrant, Quadrant)>,
        ),
{
}

} // verus!

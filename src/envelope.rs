//! The min/max envelope of recent positions.
use vstd::prelude::*;

verus! {

/// The state of an envelope, as mathematical values.
pub struct EnvelopeModel {
    pub cycle_len: int,
    pub count: int,
    pub cur_min: int,
    pub cur_max: int,
}

pub open spec fn min_of(a: int, b: int) -> int {
    if a < b {
        a
    } else {
        b
    }
}

pub open spec fn max_of(a: int, b: int) -> int {
    if a > b {
        a
    } else {
        b
    }
}

impl EnvelopeModel {
    /// What holds of every envelope between operations.
    pub open spec fn inv(self) -> bool {
        &&& 0 <= self.count <= u32::MAX
        &&& (self.cycle_len >= 1 ==> self.count < self.cycle_len)
        &&& (self.count == 0 ==> self.cur_min == i64::MAX && self.cur_max == i64::MIN)
    }

    /// The empty envelope: no samples, extremes at their sentinels.
    pub open spec fn cleared(self) -> EnvelopeModel {
        EnvelopeModel { count: 0, cur_min: i64::MAX as int, cur_max: i64::MIN as int, ..self }
    }
}

/// A new envelope over cycles of `cycle_len` samples.
pub open spec fn initial_envelope_model(cycle_len: int) -> EnvelopeModel {
    EnvelopeModel { cycle_len, count: 0, cur_min: i64::MAX as int, cur_max: i64::MIN as int }
}

/// One sample: the next state, and `(min, max)` when the cycle is complete.
pub open spec fn envelope_input(s: EnvelopeModel, p: int) -> (EnvelopeModel, Option<(i64, i64)>) {
    let lo = min_of(s.cur_min, p);
    let hi = max_of(s.cur_max, p);
    let count = if s.count >= u32::MAX {
        s.count
    } else {
        s.count + 1
    };
    if count == s.cycle_len {
        (s.cleared(), Some((lo as i64, hi as i64)))
    } else {
        (EnvelopeModel { count, cur_min: lo, cur_max: hi, ..s }, None)
    }
}

/// Reports the smallest and largest position of every `cycle_len` samples.
pub struct MinMaxMonitor {
    cycle_sample_count: u32,
    current_sample_count: u32,
    current_position_min: i64,
    current_position_max: i64,
}

impl View for MinMaxMonitor {
    type V = EnvelopeModel;

    closed spec fn view(&self) -> EnvelopeModel {
        EnvelopeModel {
            cycle_len: self.cycle_sample_count as int,
            count: self.current_sample_count as int,
            cur_min: self.current_position_min as int,
            cur_max: self.current_position_max as int,
        }
    }
}

impl MinMaxMonitor {
    pub open spec fn wf(&self) -> bool {
        self@.inv()
    }

    pub fn new(cycle_sample_count: u32) -> (r: MinMaxMonitor)
        ensures
            r.wf(),
            r@ == initial_envelope_model(cycle_sample_count as int),
    {
        MinMaxMonitor {
            cycle_sample_count,
            current_sample_count: 0,
            current_position_min: i64::MAX,
            current_position_max: i64::MIN,
        }
    }

    /// Drops the samples of the cycle in progress.
    pub fn reset(&mut self)
        requires
            old(self).wf(),
        ensures
            final(self).wf(),
            final(self)@ == old(self)@.cleared(),
    {
        self.current_sample_count = 0;
        self.current_position_min = i64::MAX;
        self.current_position_max = i64::MIN;
    }

    /// Takes one sample; at the end of each cycle returns its `(min, max)` and starts
    /// anew.
    pub fn input(&mut self, position: i64) -> (r: Option<(i64, i64)>)
        requires
            old(self).wf(),
        ensures
            final(self).wf(),
            (final(self)@, r) == envelope_input(old(self)@, position as int),
            r is Some ==> final(self)@.count == 0 && final(self)@.cur_min > final(self)@.cur_max,
            r matches Some((lo, hi)) ==> lo <= position <= hi,
    {
        if position > self.current_position_max {
            self.current_position_max = position;
        }
        if position < self.current_position_min {
            self.current_position_min = position;
        }
        self.current_sample_count = self.current_sample_count.saturating_add(1);
        if self.current_sample_count == self.cycle_sample_count {
            let r = (self.current_position_min, self.current_position_max);
            self.current_sample_count = 0;
            self.current_position_min = i64::MAX;
            self.current_position_max = i64::MIN;
            Some(r)
        } else {
            None
        }
    }
}

/// With a cycle of one sample, every sample is reported at once, as both extremes.
pub proof fn lemma_unit_cycle_reports_every_sample(s: EnvelopeModel, p: i64)
    requires
        s.inv(),
        s.cycle_len == 1,
    ensures
        envelope_input(s, p as int).1 == Some((p, p)),
        envelope_input(s, p as int).0 == s,
{
}

} // verus!

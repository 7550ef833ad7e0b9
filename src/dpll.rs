//! The reference digital phase-locked loop: a numerically controlled oscillator that
//! follows the rising edges of the reference beat.
use crate::fixed::{
    abs, clamp, clamp_i128, lemma_shr_turn, lemma_wrap_i64_add, lemma_wrap_i64_id,
    lemma_wrapping_add_i64, wrap_i64, TURN,
};
use vstd::arithmetic::div_mod::{lemma_add_mod_noop, lemma_mod_bound, lemma_small_mod};
use vstd::prelude::*;

verus! {

/// Consecutive in-range edges after which the loop counts as locked.
pub const LOCK_EDGES: u32 = 1_000_000;

/// A change of lock state, reported by the tick that caused it.
#[derive(Clone, Copy, Debug, PartialEq, Eq, Structural)]
pub enum LockTransition {
    Steady,
    Locked,
    Lost,
}

/// The state of a loop, as mathematical values.
pub struct DpllModel {
    pub ftw_min: int,
    pub ftw_max: int,
    pub ki: int,
    pub kp: int,
    pub ftw: int,
    pub integrator: int,
    pub phase: int,
    pub phase_unwrapped: int,
    /// Sum of every tuning word the oscillator has applied since construction.
    pub applied: int,
    /// Consecutive in-range edges, or `None` once locked.
    pub wait_lock: Option<int>,
}

impl DpllModel {
    /// What holds of every loop between operations.
    pub open spec fn inv(self) -> bool {
        &&& 0 <= self.ftw_min <= self.ftw_max < TURN / 2
        &&& self.ftw_min <= self.ftw <= self.ftw_max
        &&& self.ftw_min <= self.integrator <= self.ftw_max
        &&& 0 <= self.phase < TURN
        &&& self.phase == self.applied % (TURN as int)
        &&& self.phase_unwrapped == wrap_i64(self.applied)
        &&& (self.wait_lock matches Some(w) ==> 0 <= w < LOCK_EDGES)
    }

    pub open spec fn locked(self) -> bool {
        self.wait_lock is None
    }
}

/// Phase error of an edge that arrives at oscillator phase `phase`.
pub open spec fn phase_error(phase: int) -> int {
    TURN / 2 - phase
}

/// The lock counter after an edge whose phase error is `pe`, with the tuning word `ftw`
/// that the edge produced.
pub open spec fn next_wait_lock(wait_lock: Option<int>, pe: int, ftw: int) -> Option<int> {
    if abs(pe) <= ftw + ftw / 3 {
        match wait_lock {
            Some(w) => if w + 1 >= LOCK_EDGES {
                None
            } else {
                Some(w + 1)
            },
            None => None,
        }
    } else {
        Some(0)
    }
}

/// One sample of the loop: the oscillator advances, and on an edge the loop filter
/// corrects the tuning word.
pub open spec fn dpll_tick(s: DpllModel, edge: bool) -> (DpllModel, LockTransition) {
    let applied = s.applied + s.ftw;
    let phase = applied % (TURN as int);
    let t = DpllModel {
        phase,
        phase_unwrapped: wrap_i64(s.phase_unwrapped + s.ftw),
        applied,
        ..s
    };
    if !edge {
        (t, LockTransition::Steady)
    } else {
        let pe = phase_error(phase);
        let integrator = clamp(s.integrator + (pe * s.ki) / (TURN as int), s.ftw_min, s.ftw_max);
        let ftw = clamp(integrator + (pe * s.kp) / (TURN as int), s.ftw_min, s.ftw_max);
        let wait_lock = next_wait_lock(s.wait_lock, pe, ftw);
        let u = DpllModel { integrator, ftw, wait_lock, ..t };
        let r = if u.locked() && !s.locked() {
            LockTransition::Locked
        } else if !u.locked() && s.locked() {
            LockTransition::Lost
        } else {
            LockTransition::Steady
        };
        (u, r)
    }
}

/// A new loop: tuning word and integrator in the middle of their range, phase zero.
pub open spec fn initial_dpll_model(ftw_min: int, ftw_max: int, ki: int, kp: int) -> DpllModel {
    DpllModel {
        ftw_min,
        ftw_max,
        ki,
        kp,
        ftw: (ftw_min + ftw_max) / 2,
        integrator: (ftw_min + ftw_max) / 2,
        phase: 0,
        phase_unwrapped: 0,
        applied: 0,
        wait_lock: Some(0),
    }
}

/// Tracks the phase of the reference beat, one sample at a time.
pub struct Dpll {
    ftw_min: i64,
    ftw_max: i64,
    ki: i64,
    kp: i64,
    ftw: i64,
    integrator: i64,
    phase: i64,
    phase_unwrapped: i64,
    wait_lock: Option<u32>,
    applied: Ghost<int>,
}

impl View for Dpll {
    type V = DpllModel;

    closed spec fn view(&self) -> DpllModel {
        DpllModel {
            ftw_min: self.ftw_min as int,
            ftw_max: self.ftw_max as int,
            ki: self.ki as int,
            kp: self.kp as int,
            ftw: self.ftw as int,
            integrator: self.integrator as int,
            phase: self.phase as int,
            phase_unwrapped: self.phase_unwrapped as int,
            applied: self.applied@,
            wait_lock: match self.wait_lock {
                Some(w) => Some(w as int),
                None => None,
            },
        }
    }
}

impl Dpll {
    pub open spec fn wf(&self) -> bool {
        self@.inv()
    }

    /// A loop whose tuning word may range over `[ftw_min, ftw_max]`, starting at the
    /// middle of that range, with integral gain `ki` and proportional gain `kp`.
    pub fn new(ftw_min: i64, ftw_max: i64, ki: i64, kp: i64) -> (r: Dpll)
        requires
            0 <= ftw_min <= ftw_max < TURN / 2,
        ensures
            r.wf(),
            r@ == initial_dpll_model(ftw_min as int, ftw_max as int, ki as int, kp as int),
    {
        let init_ftw = (ftw_min + ftw_max) / 2;
        proof {
            lemma_small_mod(0, TURN as nat);
            lemma_wrap_i64_id(0);
        }
        Dpll {
            ftw_min,
            ftw_max,
            ki,
            kp,
            ftw: init_ftw,
            integrator: init_ftw,
            phase: 0,
            phase_unwrapped: 0,
            wait_lock: Some(0),
            applied: Ghost(0),
        }
    }

    /// Advances one sample; `edge` tells whether the reference beat rose in it.
    pub fn tick(&mut self, edge: bool) -> (r: LockTransition)
        requires
            old(self).wf(),
        ensures
            final(self).wf(),
            (final(self)@, r) == dpll_tick(old(self)@, edge),
    {
        let was_locked = self.wait_lock.is_none();
        let ghost applied = self.applied@ + self.ftw;
        proof {
            lemma_add_mod_noop(self.applied@, self.ftw as int, TURN as int);
            lemma_small_mod(self.ftw as nat, TURN as nat);
            lemma_mod_bound(applied, TURN as int);
            lemma_wrapping_add_i64(self.phase_unwrapped, self.ftw);
            lemma_wrap_i64_add(self.applied@, self.ftw as int);
        }
        self.phase = (self.phase + self.ftw) % TURN;
        self.phase_unwrapped = self.phase_unwrapped.wrapping_add(self.ftw);
        self.applied = Ghost(applied);
        if !edge {
            return LockTransition::Steady;
        }
        let pe = TURN / 2 - self.phase;
        proof {
            lemma_product_bound(pe as int, self.ki as int);
            lemma_product_bound(pe as int, self.kp as int);
        }
        let pe_ki = pe as i128 * self.ki as i128;
        let pe_kp = pe as i128 * self.kp as i128;
        proof {
            lemma_shr_turn(pe_ki);
            lemma_shr_turn(pe_kp);
        }
        self.integrator = clamp_i128(
            self.integrator as i128 + (pe_ki >> 32u32),
            self.ftw_min as i128,
            self.ftw_max as i128,
        ) as i64;
        self.ftw = clamp_i128(
            self.integrator as i128 + (pe_kp >> 32u32),
            self.ftw_min as i128,
            self.ftw_max as i128,
        ) as i64;
        let magnitude = if pe < 0 {
            -pe
        } else {
            pe
        };
        if magnitude <= self.ftw + self.ftw / 3 {
            if let Some(w) = self.wait_lock {
                if w + 1 >= LOCK_EDGES {
                    self.wait_lock = None;
                } else {
                    self.wait_lock = Some(w + 1);
                }
            }
        } else {
            self.wait_lock = Some(0);
        }
        let now_locked = self.wait_lock.is_none();
        if now_locked && !was_locked {
            LockTransition::Locked
        } else if !now_locked && was_locked {
            LockTransition::Lost
        } else {
            LockTransition::Steady
        }
    }

    /// Oscillator phase summed over every sample, wrapping at 64 bits.
    pub fn get_phase_unwrapped(&self) -> (r: i64)
        ensures
            r == self@.phase_unwrapped,
    {
        self.phase_unwrapped
    }

    /// Whether the loop is locked to the reference beat.
    pub fn locked(&self) -> (r: bool)
        ensures
            r == self@.locked(),
    {
        self.wait_lock.is_none()
    }

    /// The current tuning word.
    pub fn ftw(&self) -> (r: i64)
        ensures
            r == self@.ftw,
    {
        self.ftw
    }
}

/// A phase error times a 64-bit gain, shifted down by one turn, stays far inside 128 bits.
proof fn lemma_product_bound(pe: int, k: int)
    requires
        -(TURN / 2) < pe <= TURN / 2,
        i64::MIN <= k <= i64::MAX,
    ensures
        -0x1_0000_0000_0000_0000_0000_0000 <= pe * k <= 0x1_0000_0000_0000_0000_0000_0000,
        -0x1_0000_0000_0000_0000 <= (pe * k) / (TURN as int) <= 0x1_0000_0000_0000_0000,
{
    assert(-0x1_0000_0000_0000_0000_0000_0000 <= pe * k <= 0x1_0000_0000_0000_0000_0000_0000)
        by (nonlinear_arith)
        requires
            -0x8000_0000 < pe <= 0x8000_0000,
            -0x8000_0000_0000_0000 <= k <= 0x7fff_ffff_ffff_ffff,
    ;
    let x = pe * k;
    vstd::arithmetic::div_mod::lemma_div_is_ordered(x, 0x1_0000_0000_0000_0000_0000_0000, TURN as int);
    vstd::arithmetic::div_mod::lemma_div_is_ordered(-0x1_0000_0000_0000_0000_0000_0000, x, TURN as int);
}

/// With both gains zero, the loop never leaves the middle of its tuning range.
pub proof fn lemma_zero_gains_hold_midpoint(s: DpllModel, edge: bool)
    requires
        s.inv(),
        s.ki == 0,
        s.kp == 0,
        s.ftw == (s.ftw_min + s.ftw_max) / 2,
        s.integrator == (s.ftw_min + s.ftw_max) / 2,
    ensures
        dpll_tick(s, edge).0.ftw == (s.ftw_min + s.ftw_max) / 2,
        dpll_tick(s, edge).0.integrator == (s.ftw_min + s.ftw_max) / 2,
{
}

} // verus!

//! Boxcar averaging of a stream of values.
use crate::fixed::{lemma_average_range, sum_range, tdiv};
use vstd::arithmetic::div_mod::lemma_div_multiples_vanish;
use vstd::prelude::*;

verus! {

/// The sum of a sequence of values.
pub open spec fn seq_sum(s: Seq<i64>) -> int
    decreases s.len(),
{
    if s.len() == 0 {
        0
    } else {
        seq_sum(s.drop_last()) + s.last()
    }
}

/// The state of a decimator, as mathematical values.
pub struct DecimatorModel {
    /// Values per group.
    pub max: int,
    /// The values of the group in progress.
    pub pending: Seq<i64>,
}

/// One value: the next state, and the truncated average when the group is complete.
pub open spec fn decimator_input(s: DecimatorModel, x: i64) -> (DecimatorModel, Option<i64>) {
    let group = s.pending.push(x);
    if group.len() == s.max {
        (DecimatorModel { pending: Seq::empty(), ..s }, Some(tdiv(seq_sum(group), s.max) as i64))
    } else {
        (DecimatorModel { pending: group, ..s }, None)
    }
}

/// Averages each group of `max_count` values and reports the average.
pub struct Decimator {
    accumulator: i128,
    current_count: u32,
    max_count: u32,
    pending: Ghost<Seq<i64>>,
}

impl View for Decimator {
    type V = DecimatorModel;

    closed spec fn view(&self) -> DecimatorModel {
        DecimatorModel { max: self.max_count as int, pending: self.pending@ }
    }
}

proof fn lemma_sum_push(s: Seq<i64>, x: i64)
    ensures
        seq_sum(s.push(x)) == seq_sum(s) + x,
{
    assert(s.push(x).drop_last() =~= s);
}

proof fn lemma_sum_range(s: Seq<i64>)
    ensures
        sum_range(seq_sum(s), s.len() as int),
    decreases s.len(),
{
    if s.len() > 0 {
        lemma_sum_range(s.drop_last());
    }
}

impl Decimator {
    /// The decimator's internal consistency.
    pub closed spec fn wf(&self) -> bool {
        &&& 1 <= self.max_count
        &&& self.current_count == self.pending@.len()
        &&& self.current_count < self.max_count
        &&& self.accumulator == seq_sum(self.pending@)
    }

    pub fn new(max_count: u32) -> (r: Decimator)
        requires
            max_count >= 1,
        ensures
            r.wf(),
            r@ == (DecimatorModel { max: max_count as int, pending: Seq::empty() }),
    {
        Decimator { accumulator: 0, current_count: 0, max_count, pending: Ghost(Seq::empty()) }
    }

    /// Takes one value; after every `max_count` values returns their average, rounded
    /// toward zero, and starts a new group.
    pub fn input(&mut self, data: i64) -> (r: Option<i64>)
        requires
            old(self).wf(),
        ensures
            final(self).wf(),
            (final(self)@, r) == decimator_input(old(self)@, data),
    {
        let ghost group = self.pending@.push(data);
        proof {
            lemma_sum_push(self.pending@, data);
            lemma_sum_range(self.pending@);
            lemma_sum_range(group);
        }
        self.accumulator = self.accumulator + data as i128;
        self.current_count = self.current_count + 1;
        self.pending = Ghost(group);
        if self.current_count == self.max_count {
            proof {
                lemma_average_range(seq_sum(group), group.len() as int);
            }
            let average = (self.accumulator / self.current_count as i128) as i64;
            self.accumulator = 0;
            self.current_count = 0;
            self.pending = Ghost(Seq::empty());
            Some(average)
        } else {
            None
        }
    }
}

/// `n` copies of `v`.
pub open spec fn repeated(v: i64, n: nat) -> Seq<i64> {
    Seq::new(n, |i: int| v)
}

/// Feeding a decimator a whole group of one value `v` yields exactly `v`.
pub proof fn lemma_constant_group_average(s: DecimatorModel, v: i64)
    requires
        s.max >= 1,
        s.pending == repeated(v, (s.max - 1) as nat),
    ensures
        decimator_input(s, v).1 == Some(v),
{
    let n = s.max as nat;
    assert(s.pending.push(v) =~= repeated(v, n));
    lemma_constant_sum(v, n);
    if v >= 0 {
        lemma_div_multiples_vanish(v as int, n as int);
    } else {
        lemma_div_multiples_vanish(-v, n as int);
        assert(-(n * v) == n * (-v)) by (nonlinear_arith);
    }
}

proof fn lemma_constant_sum(v: i64, n: nat)
    ensures
        seq_sum(repeated(v, n)) == n * v,
    decreases n,
{
    let s = repeated(v, n);
    if n > 0 {
        lemma_constant_sum(v, (n - 1) as nat);
        assert(s.drop_last() =~= repeated(v, (n - 1) as nat));
        assert(s.last() == v);
        assert(seq_sum(s) == seq_sum(s.drop_last()) + s.last());
        assert(n * v == (n - 1) * v + v) by (nonlinear_arith);
    } else {
        assert(s.len() == 0);
    }
}

} // verus!

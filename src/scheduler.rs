//! Decides, from the wall-clock time that passes, when the CPU steps and when
//! the timers count down, each at its own rate.
use vstd::prelude::*;

verus! {

/// One second in nanoseconds divided by 60: the period of the timers.
pub const TIMER_PERIOD_NS: u64 = 16_666_667;

/// Two independent accumulators of elapsed time, one per rate.
#[derive(Debug, Clone, Copy, PartialEq, Eq, Structural)]
pub struct Scheduler {
    /// The time between two CPU steps.
    pub cpu_period: u64,
    /// The time between two timer ticks.
    pub timer_period: u64,
    /// Time accumulated towards the next CPU step.
    pub cpu_elapsed: u64,
    /// Time accumulated towards the next timer tick.
    pub timer_elapsed: u64,
}

/// What is owed after some time has passed.
#[derive(Debug, Clone, Copy, PartialEq, Eq, Structural)]
pub struct Tick {
    /// One CPU step is owed.
    pub cpu: bool,
    /// One timer tick is owed.
    pub timer: bool,
}

/// An accumulator holding `elapsed` after `delta` more time: when it reaches
/// `period` it fires and starts again from zero.
pub open spec fn accumulate(elapsed: u64, period: u64, delta: u64) -> (u64, bool) {
    if elapsed + delta >= period {
        (0, true)
    } else {
        ((elapsed + delta) as u64, false)
    }
}

/// The scheduler and what is owed after `delta` more time.
pub open spec fn advance_spec(s: Scheduler, delta: u64) -> (Scheduler, Tick) {
    let (cpu_elapsed, cpu) = accumulate(s.cpu_elapsed, s.cpu_period, delta);
    let (timer_elapsed, timer) = accumulate(s.timer_elapsed, s.timer_period, delta);
    (Scheduler { cpu_elapsed, timer_elapsed, ..s }, Tick { cpu, timer })
}

/// The scheduler after `k` host ticks of `delta` each, with the number of CPU
/// steps and of timer ticks that they owed.
pub open spec fn run_ticks(s: Scheduler, delta: u64, k: nat) -> (Scheduler, nat, nat)
    decreases k,
{
    if k == 0 {
        (s, 0, 0)
    } else {
        let prev = run_ticks(s, delta, (k - 1) as nat);
        let next = advance_spec(prev.0, delta);
        (
            next.0,
            prev.1 + if next.1.cpu { 1nat } else { 0nat },
            prev.2 + if next.1.timer { 1nat } else { 0nat },
        )
    }
}

/// A scheduler with nothing accumulated.
pub open spec fn fresh(cpu_period: u64, timer_period: u64) -> Scheduler {
    Scheduler { cpu_period, timer_period, cpu_elapsed: 0, timer_elapsed: 0 }
}

impl Scheduler {
    /// Both periods are positive and neither accumulator has reached its period.
    pub open spec fn wf(&self) -> bool {
        &&& self.cpu_period > 0
        &&& self.timer_period > 0
        &&& self.cpu_elapsed < self.cpu_period
        &&& self.timer_elapsed < self.timer_period
    }

    /// A scheduler that steps the CPU every `cpu_period` and ticks the timers
    /// every `timer_period`, with nothing accumulated yet.
    pub fn new(cpu_period: u64, timer_period: u64) -> (r: Scheduler)
        requires
            cpu_period > 0,
            timer_period > 0,
        ensures
            r == fresh(cpu_period, timer_period),
            r.wf(),
    {
        Scheduler { cpu_period, timer_period, cpu_elapsed: 0, timer_elapsed: 0 }
    }

    /// Adds `delta` of elapsed time to both accumulators and reports which of
    /// them reached its period; those start again from zero.
    pub fn advance(&mut self, delta: u64) -> (t: Tick)
        requires
            old(self).wf(),
        ensures
            (*final(self), t) == advance_spec(*old(self), delta),
            final(self).wf(),
    {
        let cpu = delta >= self.cpu_period - self.cpu_elapsed;
        if cpu {
            self.cpu_elapsed = 0;
        } else {
            self.cpu_elapsed = self.cpu_elapsed + delta;
        }
        let timer = delta >= self.timer_period - self.timer_elapsed;
        if timer {
            self.timer_elapsed = 0;
        } else {
            self.timer_elapsed = self.timer_elapsed + delta;
        }
        Tick { cpu, timer }
    }
}

/// With the timer period ten times the CPU period, host ticks of one CPU period
/// each from a fresh scheduler step the CPU every time and tick the timers once
/// every ten: after `k` ticks, `k` CPU steps and `k / 10` timer ticks.
pub proof fn lemma_timer_decoupling(p: u64, k: nat)
    requires
        p > 0,
        10 * p <= u64::MAX,
    ensures
        run_ticks(fresh(p, (10 * p) as u64), p, k).1 == k,
        run_ticks(fresh(p, (10 * p) as u64), p, k).2 == k / 10,
        run_ticks(fresh(p, (10 * p) as u64), p, k).0.timer_elapsed == (k % 10) * p,
        run_ticks(fresh(p, (10 * p) as u64), p, k).0.cpu_elapsed == 0,
        run_ticks(fresh(p, (10 * p) as u64), p, k).0.cpu_period == p,
        run_ticks(fresh(p, (10 * p) as u64), p, k).0.timer_period == 10 * p,
    decreases k,
{
    if k > 0 {
        let km = (k - 1) as nat;
        lemma_timer_decoupling(p, km);
        let s = fresh(p, (10 * p) as u64);
        let prev = run_ticks(s, p, km);
        let a = km % 10;
        assert(a * p + p == (a + 1) * p) by (nonlinear_arith);
        assert(prev.0.timer_elapsed + p == (a + 1) * p);
        if a == 9 {
            assert(k % 10 == 0 && k / 10 == km / 10 + 1);
            assert(prev.0.timer_elapsed + p >= 10 * p);
            assert((k % 10) * p == 0) by (nonlinear_arith)
                requires
                    k % 10 == 0,
            ;
        } else {
            assert((a + 1) * p < 10 * p) by (nonlinear_arith)
                requires
                    a + 1 < 10,
                    p > 0,
            ;
            assert(k % 10 == a + 1 && k / 10 == km / 10);
            assert((k % 10) * p == (a + 1) * p);
        }
        assert(run_ticks(s, p, k) == (
            advance_spec(prev.0, p).0,
            prev.1 + if advance_spec(prev.0, p).1.cpu { 1nat } else { 0nat },
            prev.2 + if advance_spec(prev.0, p).1.timer { 1nat } else { 0nat },
        ));
    } else {
        assert((k % 10) * p == 0) by (nonlinear_arith)
            requires
                k == 0,
        ;
    }
}

/// Ten host ticks of one CPU period each, with the timer period ten times the
/// CPU period, owe ten CPU steps and exactly one timer tick.
pub proof fn lemma_ten_cpu_ticks_one_timer_tick(p: u64)
    requires
        p > 0,
        10 * p <= u64::MAX,
    ensures
        run_ticks(fresh(p, (10 * p) as u64), p, 10).1 == 10,
        run_ticks(fresh(p, (10 * p) as u64), p, 10).2 == 1,
{
    lemma_timer_decoupling(p, 10);
}

} // verus!

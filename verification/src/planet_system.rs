//! Cadence of the outputs of the simulation time loop.

use vstd::prelude::*;

verus! {

/// Which outputs a time step writes.
#[derive(Debug, Clone, Copy, PartialEq, Eq, Structural)]
pub struct StepOutputs {
    /// Orbital outputs (written ten times per output interval).
    pub orbit: bool,
    /// Full outputs: thermal, heats, cracks and primary (once per output interval).
    pub full: bool,
}

/// Counter of the time steps since the last full output.
#[derive(Debug, Clone, Copy)]
pub struct OutputSchedule {
    /// Time steps taken since the last full output.
    pub isteps: usize,
    /// Time steps per output interval.
    pub n_steps: usize,
}

impl OutputSchedule {
    /// Every how many time steps the orbital outputs are written.
    pub open spec fn orbit_period(self) -> int {
        if self.n_steps / 10 >= 1 {
            (self.n_steps / 10) as int
        } else {
            1
        }
    }

    /// A schedule at the start of the time loop.
    pub fn new(n_steps: usize) -> (s: OutputSchedule)
        ensures
            s.isteps == 0,
            s.n_steps == n_steps,
    {
        OutputSchedule { isteps: 0, n_steps }
    }

    /// Count one time step and tell which outputs it writes: the orbital outputs when the
    /// count is a multiple of a tenth of the interval (at least 1), the full outputs when the
    /// count reaches the interval, after which the count starts again from 0.
    pub fn tick(&mut self) -> (r: StepOutputs)
        requires
            old(self).isteps < usize::MAX,
        ensures
            final(self).n_steps == old(self).n_steps,
            r.orbit == ((old(self).isteps + 1) % old(self).orbit_period() == 0),
            r.full == (old(self).isteps + 1 == old(self).n_steps),
            final(self).isteps == if r.full {
                0
            } else {
                old(self).isteps + 1
            },
    {
        self.isteps = self.isteps + 1;
        let tenth = self.n_steps / 10;
        let period: usize = if tenth >= 1 {
            tenth
        } else {
            1
        };
        let orbit = self.isteps % period == 0;
        let full = self.isteps == self.n_steps;
        if full {
            self.isteps = 0;
        }
        StepOutputs { orbit, full }
    }
}

/// Full outputs come once every `n_steps` time steps: if the counter stands at the number
/// of steps taken since the start, modulo `n_steps`, one more step leaves it so, and that
/// step writes the full outputs exactly when the new number of steps is a multiple of
/// `n_steps`.
pub proof fn lemma_full_outputs_periodic(s: OutputSchedule, t: nat)
    requires
        s.n_steps > 0,
        s.isteps == t % (s.n_steps as nat),
    ensures
        ((s.isteps + 1 == s.n_steps) <==> ((t + 1) % (s.n_steps as nat) == 0)),
        (if s.isteps + 1 == s.n_steps {
            0
        } else {
            s.isteps + 1
        }) == (t + 1) % (s.n_steps as nat),
{
    let n = s.n_steps as nat;
    let q = t / n;
    let r = t % n;
    vstd::arithmetic::div_mod::lemma_fundamental_div_mod(t as int, n as int);
    assert(t + 1 == n * q + (r + 1));
    if r + 1 == n {
        assert(t + 1 == (q + 1) * n) by (nonlinear_arith)
            requires
                t + 1 == n * q + (r + 1),
                r + 1 == n,
        ;
        vstd::arithmetic::div_mod::lemma_mod_multiples_basic((q + 1) as int, n as int);
    } else {
        vstd::arithmetic::div_mod::lemma_mod_multiples_vanish(q as int, (r + 1) as int, n as int);
        vstd::arithmetic::div_mod::lemma_small_mod((r + 1) as nat, n);
    }
}

} // verus!

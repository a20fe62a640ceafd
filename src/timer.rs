use vstd::arithmetic::div_mod::{lemma_fundamental_div_mod, lemma_fundamental_div_mod_converse};
use vstd::prelude::*;

verus! {

/// What a repeating timer holds: its interval and the time accumulated since it
/// last completed, both in nanoseconds, and whether it is paused.
pub ghost struct TimerView {
    pub duration: nat,
    pub elapsed: nat,
    pub paused: bool,
}

impl TimerView {
    /// A positive interval, and an accumulator that never holds a whole interval.
    pub open spec fn valid(self) -> bool {
        self.duration > 0 && self.elapsed < self.duration
    }

    /// How many whole intervals complete when the timer advances by `delta`.
    pub open spec fn times_finished(self, delta: nat) -> nat {
        if self.paused {
            0
        } else {
            (self.elapsed + delta) / self.duration
        }
    }

    /// The timer after advancing by `delta`: a paused timer does not move; a
    /// running one keeps what is left over after the completed intervals.
    pub open spec fn ticked(self, delta: nat) -> TimerView {
        if self.paused {
            self
        } else {
            TimerView { elapsed: (self.elapsed + delta) % self.duration, ..self }
        }
    }
}

/// A repeating timer over nanoseconds that counts the intervals it completes.
pub struct SpawnTimer {
    duration: u64,
    elapsed: u64,
    paused: bool,
}

impl View for SpawnTimer {
    type V = TimerView;

    closed spec fn view(&self) -> TimerView {
        TimerView { duration: self.duration as nat, elapsed: self.elapsed as nat, paused: self.paused }
    }
}

impl SpawnTimer {
    #[verifier::type_invariant]
    closed spec fn inv(self) -> bool {
        self@.valid()
    }

    /// A running timer with the given interval and nothing accumulated.
    pub fn new(duration_ns: u64) -> (r: SpawnTimer)
        requires
            duration_ns > 0,
        ensures
            r@ == (TimerView { duration: duration_ns as nat, elapsed: 0, paused: false }),
    {
        SpawnTimer { duration: duration_ns, elapsed: 0, paused: false }
    }

    pub fn duration_ns(&self) -> (r: u64)
        ensures
            r == self@.duration,
    {
        self.duration
    }

    pub fn elapsed_ns(&self) -> (r: u64)
        ensures
            r == self@.elapsed,
    {
        self.elapsed
    }

    pub fn paused(&self) -> (r: bool)
        ensures
            r == self@.paused,
    {
        self.paused
    }

    /// Stops the timer: ticks leave it as it is until it is resumed.
    pub fn pause(&mut self)
        ensures
            final(self)@ == (TimerView { paused: true, ..old(self)@ }),
    {
        proof {
            use_type_invariant(&*self);
        }
        self.paused = true;
    }

    /// Lets the timer run again from where it was paused.
    pub fn unpause(&mut self)
        ensures
            final(self)@ == (TimerView { paused: false, ..old(self)@ }),
    {
        proof {
            use_type_invariant(&*self);
        }
        self.paused = false;
    }

    /// Advances the timer by `delta_ns` and returns how many intervals completed;
    /// the accumulator keeps only the remainder.
    pub fn tick(&mut self, delta_ns: u64) -> (r: u64)
        ensures
            final(self)@ == old(self)@.ticked(delta_ns as nat),
            r == old(self)@.times_finished(delta_ns as nat),
    {
        proof {
            use_type_invariant(&*self);
        }
        if self.paused {
            return 0;
        }
        let room: u64 = self.duration - self.elapsed;
        if delta_ns < room {
            self.elapsed = self.elapsed + delta_ns;
            proof {
                lemma_fundamental_div_mod_converse(
                    self.elapsed as int,
                    self.duration as int,
                    0,
                    self.elapsed as int,
                );
            }
            0
        } else {
            let rest: u64 = delta_ns - room;
            let d: u64 = self.duration;
            proof {
                lemma_fundamental_div_mod(rest as int, d as int);
                assert(rest / d <= rest) by (nonlinear_arith)
                    requires
                        d > 0,
                ;
                let q = rest as int / d as int;
                let m = rest as int % d as int;
                assert(rest as int == d * q + m);
                assert(d * q + m + d == (q + 1) * d + m) by (nonlinear_arith);
                lemma_fundamental_div_mod_converse(
                    (self.elapsed + delta_ns) as int,
                    d as int,
                    q + 1,
                    m,
                );
            }
            self.elapsed = rest % d;
            1 + rest / d
        }
    }
}

} // verus!

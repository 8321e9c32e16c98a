use vstd::prelude::*;

verus! {

/// Phase constant of the injected square wave.
pub const STEP: usize = 3;

/// The integer factor in the argument of the injected square wave at step `i`:
/// `i * (STEP + 1)`, or `None` where that product does not fit in a `usize`.
pub fn injection_phase(i: usize) -> (r: Option<usize>)
    ensures
        i * (STEP + 1) <= usize::MAX ==> r == Some((i * (STEP + 1)) as usize),
        i * (STEP + 1) > usize::MAX ==> r is None,
{
    i.checked_mul(STEP + 1)
}

/// One sample of every quantity that the simulation tracks, all taken at the same step:
/// the membrane potential, the four current densities and the three gating variables.
#[derive(Clone, Copy, Debug)]
pub struct Sample<T> {
    pub voltage: T,
    pub i_na: T,
    pub i_k: T,
    pub i_leak: T,
    pub i_injection: T,
    pub m: T,
    pub h: T,
    pub n: T,
}

/// The history of a simulated membrane: eight parallel sequences, one entry per step,
/// advanced by an explicit update rule that maps the sample at one index to the next.
///
/// The numeric type `T` and the update rule are the caller's: the simulator owns the
/// bookkeeping (which sample each step reads, where its result lands, how many steps run).
#[derive(Clone, Debug)]
pub struct HodgkinHuxley<T> {
    /// Number of steps that one call of `calc` runs.
    pub time: usize,
    /// Time-step size handed to the update rule.
    pub dt: T,
    /// Index of the most recently computed sample.
    pub current_step: usize,
    pub voltage: Vec<T>,
    pub i_na: Vec<T>,
    pub i_k: Vec<T>,
    pub i_leak: Vec<T>,
    pub i_injection: Vec<T>,
    pub m: Vec<T>,
    pub h: Vec<T>,
    pub n: Vec<T>,
}

impl<T: Copy> HodgkinHuxley<T> {
    /// Every sequence holds exactly one sample per computed step, index 0 included.
    pub open spec fn wf(self) -> bool {
        &&& self.voltage.len() == self.current_step + 1
        &&& self.i_na.len() == self.current_step + 1
        &&& self.i_k.len() == self.current_step + 1
        &&& self.i_leak.len() == self.current_step + 1
        &&& self.i_injection.len() == self.current_step + 1
        &&& self.m.len() == self.current_step + 1
        &&& self.h.len() == self.current_step + 1
        &&& self.n.len() == self.current_step + 1
    }

    /// The eight values stored at index `i`.
    pub open spec fn sample_at(self, i: int) -> Sample<T> {
        Sample {
            voltage: self.voltage@[i],
            i_na: self.i_na@[i],
            i_k: self.i_k@[i],
            i_leak: self.i_leak@[i],
            i_injection: self.i_injection@[i],
            m: self.m@[i],
            h: self.h@[i],
            n: self.n@[i],
        }
    }

    /// Samples `0..=upto` of `self` are those of `other`.
    pub open spec fn keeps_prefix(self, other: Self, upto: int) -> bool {
        forall|i: int| 0 <= i <= upto ==> #[trigger] self.sample_at(i) == other.sample_at(i)
    }

    /// The sample at index `i + 1` is a result of `rule` on the sample at index `i`,
    /// the time step and the index `i`.
    pub open spec fn advances<F: Fn(Sample<T>, T, usize) -> Sample<T>>(
        self,
        rule: F,
        i: int,
    ) -> bool {
        rule.ensures((self.sample_at(i), self.dt, i as usize), self.sample_at(i + 1))
    }

    /// Every step from index `from` on follows `rule`.
    pub open spec fn evolves_by<F: Fn(Sample<T>, T, usize) -> Sample<T>>(
        self,
        rule: F,
        from: int,
    ) -> bool {
        forall|i: int| from <= i < self.current_step ==> #[trigger] self.advances(rule, i)
    }

    /// A history holding only `initial` at index 0, set to run `time` steps of size `dt`.
    pub fn new(dt: T, time: usize, initial: Sample<T>) -> (r: Self)
        ensures
            r.wf(),
            r.current_step == 0,
            r.sample_at(0) == initial,
            r.dt == dt,
            r.time == time,
    {
        HodgkinHuxley {
            time,
            dt,
            current_step: 0,
            voltage: vec![initial.voltage],
            i_na: vec![initial.i_na],
            i_k: vec![initial.i_k],
            i_leak: vec![initial.i_leak],
            i_injection: vec![initial.i_injection],
            m: vec![initial.m],
            h: vec![initial.h],
            n: vec![initial.n],
        }
    }

    /// The sample stored at index `i`.
    pub fn sample(&self, i: usize) -> (r: Sample<T>)
        requires
            self.wf(),
            i <= self.current_step,
        ensures
            r == self.sample_at(i as int),
    {
        Sample {
            voltage: self.voltage[i],
            i_na: self.i_na[i],
            i_k: self.i_k[i],
            i_leak: self.i_leak[i],
            i_injection: self.i_injection[i],
            m: self.m[i],
            h: self.h[i],
            n: self.n[i],
        }
    }

    /// Advances the history by one step: the sample at the current index, the time step
    /// and the index go to `rule`, and its result is appended to every sequence at once.
    pub fn step<F: Fn(Sample<T>, T, usize) -> Sample<T>>(&mut self, rule: &F)
        requires
            old(self).wf(),
            old(self).current_step + 1 < usize::MAX,
            rule.requires((old(self).sample_at(old(self).current_step as int), old(self).dt, old(self).current_step)),
        ensures
            final(self).wf(),
            final(self).current_step == old(self).current_step + 1,
            final(self).dt == old(self).dt,
            final(self).time == old(self).time,
            final(self).keeps_prefix(*old(self), old(self).current_step as int),
            final(self).advances(*rule, old(self).current_step as int),
    {
        let cur = self.current_step;
        let now = self.sample(cur);
        let next = rule(now, self.dt, cur);
        self.voltage.push(next.voltage);
        self.i_na.push(next.i_na);
        self.i_k.push(next.i_k);
        self.i_leak.push(next.i_leak);
        self.i_injection.push(next.i_injection);
        self.m.push(next.m);
        self.h.push(next.h);
        self.n.push(next.n);
        self.current_step = cur + 1;
    }

    /// Runs `time` steps one after the other, from the current index on.
    pub fn calc<F: Fn(Sample<T>, T, usize) -> Sample<T>>(&mut self, rule: &F)
        requires
            old(self).wf(),
            old(self).current_step + old(self).time + 1 < usize::MAX,
            forall|s: Sample<T>, dt: T, i: usize| rule.requires((s, dt, i)),
        ensures
            final(self).wf(),
            final(self).current_step == old(self).current_step + old(self).time,
            final(self).dt == old(self).dt,
            final(self).time == old(self).time,
            final(self).keeps_prefix(*old(self), old(self).current_step as int),
            final(self).evolves_by(*rule, old(self).current_step as int),
    {
        let start = self.current_step;
        let time = self.time;
        let mut k: usize = 0;
        while k < time
            invariant
                self.wf(),
                forall|s: Sample<T>, dt: T, i: usize| rule.requires((s, dt, i)),
                k <= time,
                time == old(self).time,
                start == old(self).current_step,
                start + time + 1 < usize::MAX,
                self.current_step == start + k,
                self.dt == old(self).dt,
                self.time == time,
                self.keeps_prefix(*old(self), start as int),
                self.evolves_by(*rule, start as int),
            decreases time - k,
        {
            let ghost before = *self;
            self.step(rule);
            assert(self.evolves_by(*rule, start as int)) by {
                assert forall|i: int| start <= i < self.current_step implies #[trigger] self.advances(
                    *rule,
                    i,
                ) by {
                    if i + 1 < self.current_step {
                        assert(before.advances(*rule, i));
                        assert(before.sample_at(i) == self.sample_at(i));
                        assert(before.sample_at(i + 1) == self.sample_at(i + 1));
                    }
                }
            }
            k = k + 1;
        }
    }
}

/// A history made by `new` and then run holds `time + 1` samples in every sequence, and
/// its first sample is still the initial one; with `time == 0` that sample is all it holds.
pub proof fn lemma_fresh_run<T: Copy>(
    initial: Sample<T>,
    fresh: HodgkinHuxley<T>,
    run: HodgkinHuxley<T>,
)
    requires
        fresh.wf(),
        fresh.current_step == 0,
        fresh.sample_at(0) == initial,
        run.wf(),
        run.current_step == fresh.current_step + fresh.time,
        run.keeps_prefix(fresh, fresh.current_step as int),
    ensures
        run.voltage.len() == fresh.time + 1,
        run.i_na.len() == fresh.time + 1,
        run.i_k.len() == fresh.time + 1,
        run.i_leak.len() == fresh.time + 1,
        run.i_injection.len() == fresh.time + 1,
        run.m.len() == fresh.time + 1,
        run.h.len() == fresh.time + 1,
        run.n.len() == fresh.time + 1,
        run.sample_at(0) == initial,
        fresh.time == 0 ==> run.voltage@ == seq![initial.voltage] && run.i_na@ == seq![initial.i_na]
            && run.i_k@ == seq![initial.i_k] && run.i_leak@ == seq![initial.i_leak]
            && run.i_injection@ == seq![initial.i_injection] && run.m@ == seq![initial.m]
            && run.h@ == seq![initial.h] && run.n@ == seq![initial.n],
{
    if fresh.time == 0 {
        assert(run.voltage@ =~= seq![initial.voltage]);
        assert(run.i_na@ =~= seq![initial.i_na]);
        assert(run.i_k@ =~= seq![initial.i_k]);
        assert(run.i_leak@ =~= seq![initial.i_leak]);
        assert(run.i_injection@ =~= seq![initial.i_injection]);
        assert(run.m@ =~= seq![initial.m]);
        assert(run.h@ =~= seq![initial.h]);
        assert(run.n@ =~= seq![initial.n]);
    }
}

/// The histories `a` and `b` agree on every index up to `k`.
proof fn lemma_agree_upto<T: Copy, F: Fn(Sample<T>, T, usize) -> Sample<T>>(
    rule: F,
    a: HodgkinHuxley<T>,
    b: HodgkinHuxley<T>,
    k: int,
)
    requires
        forall|s: Sample<T>, dt: T, i: usize, r1: Sample<T>, r2: Sample<T>|
            #[trigger] rule.ensures((s, dt, i), r1) && #[trigger] rule.ensures((s, dt, i), r2)
                ==> r1 == r2,
        a.current_step == b.current_step,
        a.dt == b.dt,
        a.sample_at(0) == b.sample_at(0),
        a.evolves_by(rule, 0),
        b.evolves_by(rule, 0),
        0 <= k <= a.current_step,
    ensures
        forall|i: int| 0 <= i <= k ==> #[trigger] a.sample_at(i) == b.sample_at(i),
    decreases k,
{
    if k > 0 {
        lemma_agree_upto(rule, a, b, k - 1);
        assert(a.advances(rule, k - 1));
        assert(b.advances(rule, k - 1));
    }
}

/// Running is deterministic: two histories that start from the same sample, use the same
/// time step and have run the same number of steps of an update rule that gives one result
/// for each argument hold identical sequences.
pub proof fn lemma_same_run_same_history<T: Copy, F: Fn(Sample<T>, T, usize) -> Sample<T>>(
    rule: F,
    a: HodgkinHuxley<T>,
    b: HodgkinHuxley<T>,
)
    requires
        forall|s: Sample<T>, dt: T, i: usize, r1: Sample<T>, r2: Sample<T>|
            #[trigger] rule.ensures((s, dt, i), r1) && #[trigger] rule.ensures((s, dt, i), r2)
                ==> r1 == r2,
        a.wf(),
        b.wf(),
        a.current_step == b.current_step,
        a.dt == b.dt,
        a.sample_at(0) == b.sample_at(0),
        a.evolves_by(rule, 0),
        b.evolves_by(rule, 0),
    ensures
        a.voltage@ == b.voltage@,
        a.i_na@ == b.i_na@,
        a.i_k@ == b.i_k@,
        a.i_leak@ == b.i_leak@,
        a.i_injection@ == b.i_injection@,
        a.m@ == b.m@,
        a.h@ == b.h@,
        a.n@ == b.n@,
{
    lemma_agree_upto(rule, a, b, a.current_step as int);
    assert forall|i: int| 0 <= i < a.voltage.len() implies a.voltage@[i] == b.voltage@[i]
        && a.i_na@[i] == b.i_na@[i] && a.i_k@[i] == b.i_k@[i] && a.i_leak@[i] == b.i_leak@[i]
        && a.i_injection@[i] == b.i_injection@[i] && a.m@[i] == b.m@[i] && a.h@[i] == b.h@[i]
        && a.n@[i] == b.n@[i] by {
        assert(a.sample_at(i) == b.sample_at(i));
    }
    assert(a.voltage@ =~= b.voltage@);
    assert(a.i_na@ =~= b.i_na@);
    assert(a.i_k@ =~= b.i_k@);
    assert(a.i_leak@ =~= b.i_leak@);
    assert(a.i_injection@ =~= b.i_injection@);
    assert(a.m@ =~= b.m@);
    assert(a.h@ =~= b.h@);
    assert(a.n@ =~= b.n@);
}

} // verus!

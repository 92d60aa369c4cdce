//! Decision logic of the Monte Carlo point-cloud sampler.
//!
//! Drawing a candidate position, evaluating `|psi|^2` there and weighting an
//! accepted point are floating-point steps performed by the application.
//! Everything the sampler *decides* — which sampling strategy applies, how
//! many draws a round may spend, when the bounding box grows, when the
//! remaining quota is filled with zero-weight points, and when a run is
//! complete — lives here, so that the run provably produces exactly the
//! requested number of samples and never loops forever.

use crate::orbital::Orbital;
use vstd::prelude::*;

verus! {

/// How many points one sampling call must produce.
#[derive(Clone, Copy, Debug, PartialEq, Eq, Structural)]
pub struct SampleConfig {
    pub samples: usize,
}

impl SampleConfig {
    pub fn new(samples: usize) -> (r: SampleConfig)
        ensures
            r == (SampleConfig { samples }),
    {
        SampleConfig { samples }
    }
}

/// Which of the two sampling algorithms a request runs.
#[derive(Clone, Copy, Debug, PartialEq, Eq, Structural)]
pub enum SampleStrategy {
    /// Radius drawn directly from a Gamma distribution — exact for the
    /// ground state.
    Direct,
    /// Acceptance-rejection inside a growing bounding box.
    Rejection,
}

/// Picks the sampling algorithm: the direct Gamma sampler serves exactly the
/// ground state, and only when the application could construct the Gamma
/// distribution (a finite, positive scale); everything else is rejection
/// sampled.
pub fn select_strategy(orbital: &Orbital, gamma_available: bool) -> (r: SampleStrategy)
    ensures
        r == if orbital.spec_is_ground_state() && gamma_available {
            SampleStrategy::Direct
        } else {
            SampleStrategy::Rejection
        },
{
    if orbital.is_ground_state() && gamma_available {
        SampleStrategy::Direct
    } else {
        SampleStrategy::Rejection
    }
}

/// The attempt budget of one rejection round: fifty draws per requested
/// sample, never fewer than ten thousand, saturating at the machine limit.
pub open spec fn spec_attempt_cap(samples: int) -> int {
    let scaled = if samples * 50 > usize::MAX {
        usize::MAX as int
    } else {
        samples * 50
    };
    if scaled > 10_000 {
        scaled
    } else {
        10_000
    }
}

/// Computes the attempt budget of one rejection round.
pub fn attempt_cap(samples: usize) -> (r: usize)
    ensures
        r == spec_attempt_cap(samples as int),
{
    let scaled: usize = match samples.checked_mul(50) {
        Some(v) => v,
        None => usize::MAX,
    };
    if scaled > 10_000 {
        scaled
    } else {
        10_000
    }
}

/// How many times the bounding box may grow before the run gives up and
/// fills the remaining quota with zero-weight points.
pub const MAX_EXPANSIONS: usize = 4;

/// The next thing a rejection-sampling run must do.
#[derive(Clone, Copy, Debug, PartialEq, Eq, Structural)]
pub enum SampleAction {
    /// Draw one candidate inside the current bounding box and test it
    /// against the density.
    Draw,
    /// Scale the bounding box up by one half and start a fresh round.
    Expand,
    /// Synthesize one zero-weight point at a random position in the final
    /// box: the degraded-but-never-failing path.
    Fill,
    /// Exactly the requested number of points has been produced.
    Done,
}

/// Bookkeeping of one rejection-sampling run.
///
/// The application owns the random generator, the bounding box and the
/// density; it asks [`RejectionRun::next_action`] what to do, performs the
/// floating-point work, and records the outcome here.
#[derive(Clone, Copy, Debug, PartialEq, Eq, Structural)]
pub struct RejectionRun {
    /// How many points the run must produce.
    pub target: usize,
    /// Points produced so far, accepted and filler together.
    pub produced: usize,
    /// Draws spent in the current round.
    pub attempts: usize,
    /// The attempt budget of each round.
    pub cap: usize,
    /// Bounding-box expansions performed so far.
    pub expansions: usize,
    /// Zero-weight filler points produced so far.
    pub filled: usize,
}

impl RejectionRun {
    /// The run invariant, established by [`RejectionRun::start`] and kept by
    /// every recording step.
    pub open spec fn wf(self) -> bool {
        &&& self.produced <= self.target
        &&& self.attempts <= self.cap
        &&& self.expansions <= MAX_EXPANSIONS + 1
        &&& self.cap == spec_attempt_cap(self.target as int)
        &&& self.filled <= self.produced
        &&& self.expansions <= MAX_EXPANSIONS ==> self.filled == 0
    }

    /// What the run must do next: done once the quota is met; fill once the
    /// expansion budget is exhausted; otherwise draw while the round has
    /// budget, and expand when it runs out.
    pub open spec fn spec_next_action(self) -> SampleAction {
        if self.produced == self.target {
            SampleAction::Done
        } else if self.expansions > MAX_EXPANSIONS {
            SampleAction::Fill
        } else if self.attempts < self.cap {
            SampleAction::Draw
        } else {
            SampleAction::Expand
        }
    }

    /// An upper bound on the steps left in the run; every recording step
    /// strictly decreases it, so a run always terminates.
    pub open spec fn spec_measure(self) -> int {
        let round_budget = if self.expansions <= MAX_EXPANSIONS {
            (MAX_EXPANSIONS + 1 - self.expansions) * (self.cap + 1) + (self.cap - self.attempts)
        } else {
            0
        };
        round_budget + (self.target - self.produced)
    }

    /// Begins a run that must produce `config.samples` points.
    pub fn start(config: SampleConfig) -> (r: RejectionRun)
        ensures
            r.wf(),
            r.target == config.samples,
            r.produced == 0,
            r.attempts == 0,
            r.expansions == 0,
            r.filled == 0,
    {
        RejectionRun {
            target: config.samples,
            produced: 0,
            attempts: 0,
            cap: attempt_cap(config.samples),
            expansions: 0,
            filled: 0,
        }
    }

    /// Reports the next step of the run.
    pub fn next_action(&self) -> (r: SampleAction)
        ensures
            r == self.spec_next_action(),
    {
        if self.produced == self.target {
            SampleAction::Done
        } else if self.expansions > MAX_EXPANSIONS {
            SampleAction::Fill
        } else if self.attempts < self.cap {
            SampleAction::Draw
        } else {
            SampleAction::Expand
        }
    }

    /// Records one candidate draw, accepted or rejected.
    pub fn record_draw(&mut self, accepted: bool)
        requires
            old(self).wf(),
            old(self).spec_next_action() == SampleAction::Draw,
        ensures
            final (self).wf(),
            final (self).target == old(self).target,
            final (self).cap == old(self).cap,
            final (self).attempts == old(self).attempts + 1,
            final (self).produced == old(self).produced + (if accepted {
                1int
            } else {
                0int
            }),
            final (self).expansions == old(self).expansions,
            final (self).filled == old(self).filled,
            final (self).spec_measure() < old(self).spec_measure(),
    {
        self.attempts = self.attempts + 1;
        if accepted {
            self.produced = self.produced + 1;
        }
    }

    /// Records one bounding-box expansion; the new round starts with a fresh
    /// attempt budget.
    pub fn record_expand(&mut self)
        requires
            old(self).wf(),
            old(self).spec_next_action() == SampleAction::Expand,
        ensures
            final (self).wf(),
            final (self).target == old(self).target,
            final (self).cap == old(self).cap,
            final (self).attempts == 0,
            final (self).produced == old(self).produced,
            final (self).expansions == old(self).expansions + 1,
            final (self).filled == old(self).filled,
            final (self).spec_measure() < old(self).spec_measure(),
    {
        self.expansions = self.expansions + 1;
        self.attempts = 0;
        proof {
            lemma_measure_expand_decreases(*old(self), *self);
        }
    }

    /// Records one zero-weight filler point.
    pub fn record_fill(&mut self)
        requires
            old(self).wf(),
            old(self).spec_next_action() == SampleAction::Fill,
        ensures
            final (self).wf(),
            final (self).target == old(self).target,
            final (self).cap == old(self).cap,
            final (self).attempts == old(self).attempts,
            final (self).produced == old(self).produced + 1,
            final (self).expansions == old(self).expansions,
            final (self).filled == old(self).filled + 1,
            final (self).spec_measure() < old(self).spec_measure(),
    {
        self.produced = self.produced + 1;
        self.filled = self.filled + 1;
    }

    /// How many points are still owed; once the run is filling, this is the
    /// shortfall reported as a non-fatal diagnostic.
    pub fn shortfall(&self) -> (r: usize)
        requires
            self.wf(),
        ensures
            r == self.target - self.produced,
    {
        self.target - self.produced
    }
}

/// The measure shrinks across an expansion: one round's budget is traded for
/// a strictly smaller remainder.
proof fn lemma_measure_expand_decreases(pre: RejectionRun, post: RejectionRun)
    requires
        pre.wf(),
        pre.spec_next_action() == SampleAction::Expand,
        post.target == pre.target,
        post.cap == pre.cap,
        post.attempts == 0,
        post.produced == pre.produced,
        post.expansions == pre.expansions + 1,
    ensures
        post.spec_measure() < pre.spec_measure(),
{
    let e = pre.expansions as int;
    let c = pre.cap as int;
    assert(pre.attempts == pre.cap);
    if post.expansions <= MAX_EXPANSIONS {
        assert((MAX_EXPANSIONS + 1 - (e + 1)) * (c + 1) + c < (MAX_EXPANSIONS + 1 - e) * (c + 1))
            by (nonlinear_arith)
            requires
                0 <= e <= MAX_EXPANSIONS as int,
                c >= 0,
        ;
    } else {
        assert((MAX_EXPANSIONS + 1 - e) * (c + 1) >= 1) by (nonlinear_arith)
            requires
                e == MAX_EXPANSIONS as int,
                c >= 0,
        ;
    }
}

/// A run is complete exactly when it has produced the requested count: the
/// sampler returns precisely `target` points, never fewer and never more.
pub proof fn lemma_done_is_exact_count(run: RejectionRun)
    requires
        run.wf(),
    ensures
        run.spec_next_action() == SampleAction::Done <==> run.produced == run.target,
{
}

/// A request for zero samples is complete before any draw: the result is the
/// empty cloud, whatever the orbital.
pub proof fn lemma_empty_request_is_done(run: RejectionRun)
    requires
        run.wf(),
        run.target == 0,
    ensures
        run.spec_next_action() == SampleAction::Done,
{
}

/// The measure never goes negative, so the strict decrease recorded by every
/// step bounds the number of steps: a run cannot go on forever.
pub proof fn lemma_measure_nonnegative(run: RejectionRun)
    requires
        run.wf(),
    ensures
        run.spec_measure() >= 0,
{
    let e = run.expansions as int;
    let c = run.cap as int;
    if run.expansions <= MAX_EXPANSIONS {
        assert((MAX_EXPANSIONS + 1 - e) * (c + 1) >= 0) by (nonlinear_arith)
            requires
                0 <= e <= MAX_EXPANSIONS as int,
                c >= 0,
        ;
    }
}

/// Filler points exist only after every expansion round has been exhausted,
/// and only to make up the exact shortfall of the final round.
pub proof fn lemma_filler_only_after_expansions(run: RejectionRun)
    requires
        run.wf(),
        run.filled > 0,
    ensures
        run.expansions > MAX_EXPANSIONS,
{
}

} // verus!

//! The rule that bounds the iteration of Kepler's equation.
//!
//! The eccentric anomaly is found by repeated improvement of an estimate,
//! until two estimates in a row differ by less than the tolerance. For the
//! orbits of the planets a handful of steps is enough. The rule here decides
//! after each step whether to stop, to go on, or to give up, so that the
//! iteration ends on any input.

use vstd::prelude::*;
use crate::error::EphemerisError;

verus! {

/// The most steps that the iteration may take.
pub const STEP_LIMIT: u32 = 50;

/// What to do after a step of the iteration.
#[derive(Clone, Copy, Debug, PartialEq, Eq, Structural)]
pub enum Verdict {
    /// The last estimate is the result.
    Converged,
    /// Take another step.
    Continue,
    /// Stop without a result.
    GiveUp,
}

/// What to do after a step: `steps` counts the steps taken so far, `settled`
/// says whether the last step changed the estimate by less than the
/// tolerance. A settled estimate is the result, whatever the count; an
/// unsettled one is improved further while the count is below `STEP_LIMIT`.
pub open spec fn verdict_after(steps: int, settled: bool) -> Verdict {
    if settled {
        Verdict::Converged
    } else if steps < STEP_LIMIT {
        Verdict::Continue
    } else {
        Verdict::GiveUp
    }
}

/// What to do after a step of the iteration.
pub fn judge(steps: u32, settled: bool) -> (verdict: Verdict)
    ensures
        verdict == verdict_after(steps as int, settled),
{
    if settled {
        Verdict::Converged
    } else if steps < STEP_LIMIT {
        Verdict::Continue
    } else {
        Verdict::GiveUp
    }
}

/// The progress of one iteration: the steps taken so far.
#[derive(Clone, Copy, Debug, PartialEq, Eq, Structural)]
pub struct Progress {
    pub steps: u32,
}

impl Progress {
    /// The progress of an iteration that has taken no step.
    pub fn start() -> (progress: Progress)
        ensures
            progress.steps == 0,
    {
        Progress { steps: 0 }
    }

    /// Records a step and says how the iteration goes on: `Ok(true)` where
    /// the estimate has settled and is the result, `Ok(false)` where another
    /// step is to be taken, and `SolverDidNotConverge` where the step that
    /// was recorded used up the allowance without settling. The count grows
    /// by one, and stays where it is once it has reached `STEP_LIMIT`.
    pub fn record(&mut self, settled: bool) -> (done: Result<bool, EphemerisError>)
        ensures
            final(self).steps == if old(self).steps < STEP_LIMIT {
                old(self).steps + 1
            } else {
                STEP_LIMIT as int
            },
            done == match verdict_after(final(self).steps as int, settled) {
                Verdict::Converged => Ok::<bool, EphemerisError>(true),
                Verdict::Continue => Ok(false),
                Verdict::GiveUp => Err(EphemerisError::SolverDidNotConverge),
            },
    {
        if self.steps < STEP_LIMIT {
            self.steps = self.steps + 1;
        } else {
            self.steps = STEP_LIMIT;
        }
        match judge(self.steps, settled) {
            Verdict::Converged => Ok(true),
            Verdict::Continue => Ok(false),
            Verdict::GiveUp => Err(EphemerisError::SolverDidNotConverge),
        }
    }
}

/// The iteration ends: once `STEP_LIMIT` steps are taken the verdict is
/// never to go on.
pub proof fn iteration_is_bounded(steps: int, settled: bool)
    requires
        steps >= STEP_LIMIT,
    ensures
        verdict_after(steps, settled) != Verdict::Continue,
{
}

/// An estimate that has settled is accepted at once, and nothing else is:
/// the verdict is `Converged` exactly where the last step changed the
/// estimate by less than the tolerance.
pub proof fn settled_means_converged(steps: int, settled: bool)
    ensures
        verdict_after(steps, settled) == Verdict::Converged <==> settled,
{
}

} // verus!

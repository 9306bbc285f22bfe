//! How far a refinement has come, and when its guesses are settled.
use crate::options::StoneGuessRefinementOpts;
use vstd::prelude::*;

verus! {

/// How far a refinement has come.
#[derive(Clone, Copy, Debug, PartialEq, Eq)]
pub struct RefinementProgress {
    /// How many steps in a row, up to now, found no error.
    pub no_err_steps: usize,
    /// How many steps were taken.
    pub total_steps: u64,
}

impl RefinementProgress {
    /// Whether the guesses count as settled under `opts`.
    pub open spec fn spec_converged(&self, opts: &StoneGuessRefinementOpts) -> bool {
        self.no_err_steps >= opts.no_err_steps_to_stop
    }

    /// The progress after one more step, which found the error `err`: a step
    /// without error adds to the count of such steps in a row, and any other
    /// step starts that count anew.
    pub open spec fn after_step(self, err: i64) -> RefinementProgress {
        RefinementProgress {
            no_err_steps: if err == 0 {
                (self.no_err_steps + 1) as usize
            } else {
                0
            },
            total_steps: (self.total_steps + 1) as u64,
        }
    }

    /// The progress after the steps that found the errors `errs`, one after
    /// the other, from the start of a refinement.
    pub open spec fn after_steps(errs: Seq<i64>) -> RefinementProgress
        decreases errs.len(),
    {
        if errs.len() == 0 {
            RefinementProgress { no_err_steps: 0, total_steps: 0 }
        } else {
            Self::after_steps(errs.drop_last()).after_step(errs.last())
        }
    }

    /// A refinement takes a step only while its guesses are not settled. Then
    /// the count of steps without error in a row never passes what `opts`
    /// asks for: once the guesses are settled, the count is that number
    /// exactly.
    pub proof fn lemma_settled_exactly_at_threshold(
        opts: &StoneGuessRefinementOpts,
        errs: Seq<i64>,
    )
        requires
            forall|n: int|
                0 <= n < errs.len() ==> !(#[trigger] Self::after_steps(errs.take(n))).converged(
                    opts,
                ),
        ensures
            Self::after_steps(errs).no_err_steps <= opts.no_err_steps_to_stop,
            Self::after_steps(errs).converged(opts) <==> Self::after_steps(errs).no_err_steps
                == opts.no_err_steps_to_stop,
    {
        if errs.len() > 0 {
            let before = Self::after_steps(errs.take(errs.len() - 1));
            assert(errs.drop_last() == errs.take(errs.len() - 1));
            assert(!before.converged(opts));
            assert(Self::after_steps(errs) == before.after_step(errs.last()));
        }
    }

    /// The progress of a refinement that has taken no step yet.
    pub fn new() -> (progress: Self)
        ensures
            progress.no_err_steps == 0,
            progress.total_steps == 0,
            progress == Self::after_steps(Seq::empty()),
    {
        RefinementProgress { no_err_steps: 0, total_steps: 0 }
    }

    /// Whether the guesses count as settled under `opts`: whether as many
    /// steps in a row as `opts` asks for found no error.
    #[verifier::when_used_as_spec(spec_converged)]
    pub fn converged(&self, opts: &StoneGuessRefinementOpts) -> (settled: bool)
        ensures
            settled == self.spec_converged(opts),
    {
        self.no_err_steps >= opts.no_err_steps_to_stop
    }
}

} // verus!

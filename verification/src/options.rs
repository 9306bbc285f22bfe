//! How a refinement is to be run.
use vstd::prelude::*;

verus! {

/// How a refinement is to be run.
#[derive(Debug)]
pub struct StoneGuessRefinementOpts {
    /// How many steps in a row must find no error before the guesses count as
    /// settled.
    pub no_err_steps_to_stop: usize,
    /// The sample sizes to choose from at each step.
    pub comb_sizes: Vec<usize>,
    /// After every how many steps the guesses are to be reported, if at all.
    pub debug_interval: Option<u32>,
}

impl Default for StoneGuessRefinementOpts {
    /// A thousand steps without error, samples of two to five stones, and no
    /// reports.
    fn default() -> (opts: Self)
        ensures
            opts.no_err_steps_to_stop == 1000,
            opts.comb_sizes@ == seq![2usize, 3usize, 4usize, 5usize],
            opts.debug_interval is None,
    {
        let mut comb_sizes: Vec<usize> = Vec::new();
        comb_sizes.push(2);
        comb_sizes.push(3);
        comb_sizes.push(4);
        comb_sizes.push(5);
        StoneGuessRefinementOpts { no_err_steps_to_stop: 1000, comb_sizes, debug_interval: None }
    }
}

/// Whether no entry of `sizes` is above `bound`.
pub open spec fn at_most(sizes: Seq<usize>, bound: nat) -> bool {
    forall|j: int| 0 <= j < sizes.len() ==> sizes[j] <= bound
}

/// Whether `total` is a multiple of `interval`. Zero has no multiple but zero.
pub open spec fn is_multiple_of(total: nat, interval: nat) -> bool {
    if interval == 0 {
        total == 0
    } else {
        total % interval == 0
    }
}

/// Whether the guesses are to be reported after the step that brought the
/// number of steps to `total_steps`: whether there is an interval, and the
/// number is a multiple of it.
pub open spec fn report_due(debug_interval: Option<u32>, total_steps: nat) -> bool {
    match debug_interval {
        Some(interval) => is_multiple_of(total_steps, interval as nat),
        None => false,
    }
}

} // verus!

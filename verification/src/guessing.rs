//! The guesses for a collection of stones, and the step that refines them.
use crate::chance::choose_one;
use crate::options::{at_most, report_due, StoneGuessRefinementOpts};
use crate::progress::RefinementProgress;
use crate::sampling::{is_sample, within, Sample, SampleError};
use vstd::prelude::*;

verus! {

/// What the part of a step that follows the weighing found.
#[derive(Clone, Copy, Debug, PartialEq, Eq)]
pub struct StepOutcome {
    /// The guessed weight of the sample less its measured weight.
    pub err: i64,
    /// Whether the guesses are to be reported now.
    pub report_due: bool,
}

/// One whole step of a refinement: what was put on the scale, what was
/// weighed, and what came of it.
#[derive(Debug)]
pub struct Weighing {
    /// The stones that were on the scale.
    pub sample_inds: Vec<usize>,
    /// What the guesses for those stones weigh.
    pub guessed_weight: u32,
    /// What the scale showed for those stones.
    pub measured_weight: u32,
    /// What the step found.
    pub outcome: StepOutcome,
}

/// The entries of `all` that `inds` names, in the order of `inds`.
pub open spec fn sampled<T>(all: Seq<T>, inds: Seq<usize>) -> Seq<T> {
    Seq::new(inds.len(), |j: int| all[inds[j] as int])
}

/// The error of a step: the guessed weight of the sample less its measured
/// weight.
pub open spec fn step_err(guessed_weight: u32, measured_weight: u32) -> i64 {
    (guessed_weight - measured_weight) as i64
}

/// Whether `weigh` may be called on any stones out of `stones`.
pub open spec fn can_weigh<S, F: Fn(Vec<&S>) -> u32>(weigh: F, stones: Seq<S>) -> bool {
    forall|handed: Vec<&S>|
        (forall|j: int| 0 <= j < handed@.len() ==> stones.contains(*#[trigger] handed@[j]))
            ==> call_requires(weigh, (handed,))
}

/// Whether `guess_weight` may be called on any guesses out of `guesses`.
pub open spec fn can_guess_weight<W, F: Fn(Vec<W>) -> u32>(
    guess_weight: F,
    guesses: Seq<W>,
) -> bool {
    forall|handed: Vec<W>|
        (forall|j: int| 0 <= j < handed@.len() ==> guesses.contains(#[trigger] handed@[j]))
            ==> call_requires(guess_weight, (handed,))
}

/// Whether `nudge` may be called on any guess out of `guesses`, together with
/// any error but zero and any number of stones that a sample of them can
/// have.
pub open spec fn can_nudge_any<W, F: Fn(W, i64, usize) -> W>(nudge: F, guesses: Seq<W>) -> bool {
    forall|guess: W, err: i64, k: usize|
        guesses.contains(guess) && err != 0 && 0 < k <= guesses.len() ==> call_requires(
            nudge,
            (guess, err, k),
        )
}

/// Whether `nudge` may be called on each guess of `guesses` that `sample_inds`
/// names, together with `err` and the number of stones in the sample.
pub open spec fn can_nudge<W, F: Fn(W, i64, usize) -> W>(
    nudge: F,
    guesses: Seq<W>,
    sample_inds: Seq<usize>,
    err: i64,
) -> bool {
    forall|j: int|
        0 <= j < sample_inds.len() ==> call_requires(
            nudge,
            (#[trigger] guesses[sample_inds[j] as int], err, sample_inds.len() as usize),
        )
}

/// Whether `weight` is what `guess_weight` may return for the guesses
/// `on_scale`.
pub open spec fn guesses_weigh<W, F: Fn(Vec<W>) -> u32>(
    guess_weight: F,
    on_scale: Seq<W>,
    weight: u32,
) -> bool {
    exists|handed: Vec<W>| handed@ == on_scale && call_ensures(guess_weight, (handed,), weight)
}

/// Whether `weight` is what `weigh` may return for the stones `on_scale`.
pub open spec fn stones_weigh<S, F: Fn(Vec<&S>) -> u32>(
    weigh: F,
    on_scale: Seq<S>,
    weight: u32,
) -> bool {
    exists|handed: Vec<&S>|
        {
            &&& handed@.len() == on_scale.len()
            &&& forall|j: int| 0 <= j < on_scale.len() ==> *handed@[j] == on_scale[j]
            &&& call_ensures(weigh, (handed,), weight)
        }
}

/// Whether `after` differs from `before` at most where `sample_inds` names a
/// stone.
pub open spec fn kept_outside<W>(before: Seq<W>, after: Seq<W>, sample_inds: Seq<usize>) -> bool {
    &&& after.len() == before.len()
    &&& forall|i: usize|
        i < before.len() && !sample_inds.contains(i) ==> after[i as int] == before[i as int]
}

/// Whether each guess of `after` that `sample_inds` names is what `nudge` may
/// return for the guess in its place in `before`, for `err` and for the
/// number of stones in the sample.
pub open spec fn nudged_inside<W, F: Fn(W, i64, usize) -> W>(
    before: Seq<W>,
    after: Seq<W>,
    sample_inds: Seq<usize>,
    err: i64,
    nudge: F,
) -> bool {
    forall|j: int|
        0 <= j < sample_inds.len() ==> call_ensures(
            nudge,
            (before[sample_inds[j] as int], err, sample_inds.len() as usize),
            #[trigger] after[sample_inds[j] as int],
        )
}

/// Whether a step that found the error `err` for the stones `sample_inds` may
/// have made the guesses `after` of the guesses `before`.
///
/// No step changes a guess for a stone outside the sample. A step without
/// error changes no guess at all. Any other step hands each guess for a stone
/// of the sample to `nudge`, once, and puts what comes back in its place.
pub open spec fn is_step<W, F: Fn(W, i64, usize) -> W>(
    before: Seq<W>,
    after: Seq<W>,
    sample_inds: Seq<usize>,
    err: i64,
    nudge: F,
) -> bool {
    &&& kept_outside(before, after, sample_inds)
    &&& err == 0 ==> after == before
    &&& err != 0 ==> nudged_inside(before, after, sample_inds, err, nudge)
}

/// A step that found no error finds none when it is taken again. It left each
/// guess as it was, so the sampled guesses weigh what they weighed before,
/// whatever way of weighing `guessed_weight` stands for, and against the same
/// measured weight the error is zero once more.
pub proof fn lemma_clean_step_repeats<W, F: Fn(W, i64, usize) -> W>(
    before: Seq<W>,
    after: Seq<W>,
    sample_inds: Seq<usize>,
    guessed_weight: spec_fn(Seq<W>) -> u32,
    measured_weight: u32,
    nudge: F,
)
    requires
        step_err(guessed_weight(sampled(before, sample_inds)), measured_weight) == 0,
        is_step(
            before,
            after,
            sample_inds,
            step_err(guessed_weight(sampled(before, sample_inds)), measured_weight),
            nudge,
        ),
    ensures
        after == before,
        step_err(guessed_weight(sampled(after, sample_inds)), measured_weight) == 0,
{
}

/// A collection of stones with a guess of each stone's weight.
///
/// `guesses[i]` is the guess for `stones[i]`.
pub struct StoneGuesses<S, W> {
    pub stones: Vec<S>,
    pub guesses: Vec<W>,
}

impl<S, W: Copy> StoneGuesses<S, W> {
    /// Whether there is one guess for each stone.
    pub open spec fn aligned(&self) -> bool {
        self.guesses@.len() == self.stones@.len()
    }

    /// Takes over `stones`, with `initial` as the guess for each of them.
    pub fn init_from_stones(stones: Vec<S>, initial: W) -> (fresh: Self)
        ensures
            fresh.stones@ == stones@,
            fresh.guesses@ == Seq::new(stones@.len(), |i: int| initial),
            fresh.aligned(),
    {
        let n = stones.len();
        let mut guesses: Vec<W> = Vec::new();
        while guesses.len() < n
            invariant
                n == stones@.len(),
                guesses@.len() <= n,
                forall|i: int| 0 <= i < guesses@.len() ==> guesses@[i] == initial,
            decreases n - guesses@.len(),
        {
            guesses.push(initial);
        }
        assert(guesses@ =~= Seq::new(stones@.len(), |i: int| initial));
        StoneGuesses { stones, guesses }
    }

    /// Draws a sample of `k` stones, stone by stone, with at most `max_draws`
    /// draws.
    ///
    /// There is no sample of more stones than there are: that is an error.
    /// Which stones are drawn is up to chance, and so is whether the draws
    /// complete the sample; where they do not, nothing is returned. That
    /// happens to every sample of more stones than draws were allowed. It
    /// does not happen to a sample of no stone, nor to one of a single stone
    /// that was allowed a draw.
    pub fn get_random_sample_inds(&self, k: usize, max_draws: usize) -> (drawn: Result<
        Option<Vec<usize>>,
        SampleError,
    >)
        ensures
            k > self.stones@.len() <==> drawn is Err,
            drawn matches Err(e) ==> e == (SampleError::TooLarge {
                size: k,
                among: self.stones.len(),
            }),
            drawn matches Ok(Some(sample_inds)) ==> ({
                &&& is_sample(sample_inds@, self.stones@.len())
                &&& sample_inds@.len() == k
            }),
            k <= self.stones@.len() && k <= (if max_draws > 0 { 1nat } else { 0nat })
                ==> drawn matches Ok(Some(_)),
            k <= self.stones@.len() && k > max_draws ==> drawn matches Ok(None),
    {
        let mut sample = match Sample::begin(k, self.stones.len()) {
            Ok(sample) => sample,
            Err(e) => {
                return Err(e);
            },
        };
        if sample.fill(max_draws) {
            Ok(Some(sample.inds()))
        } else {
            Ok(None)
        }
    }

    /// The guesses for the stones that `sample_inds` names, in that order.
    pub fn sample_guesses(&self, sample_inds: &Vec<usize>) -> (picked: Vec<W>)
        requires
            within(sample_inds@, self.guesses@.len()),
        ensures
            picked@ == sampled(self.guesses@, sample_inds@),
    {
        let k = sample_inds.len();
        let mut picked: Vec<W> = Vec::new();
        while picked.len() < k
            invariant
                k == sample_inds@.len(),
                picked@.len() <= k,
                within(sample_inds@, self.guesses@.len()),
                forall|j: int|
                    0 <= j < picked@.len() ==> picked@[j] == self.guesses@[sample_inds@[j] as int],
            decreases k - picked@.len(),
        {
            let i = sample_inds[picked.len()];
            picked.push(self.guesses[i]);
        }
        assert(picked@ =~= sampled(self.guesses@, sample_inds@));
        picked
    }

    /// The stones that `sample_inds` names, in that order.
    pub fn sample_stones(&self, sample_inds: &Vec<usize>) -> (picked: Vec<&S>)
        requires
            within(sample_inds@, self.stones@.len()),
        ensures
            picked@.len() == sample_inds@.len(),
            forall|j: int|
                0 <= j < picked@.len() ==> *picked@[j] == sampled(self.stones@, sample_inds@)[j],
    {
        let k = sample_inds.len();
        let mut picked: Vec<&S> = Vec::new();
        while picked.len() < k
            invariant
                k == sample_inds@.len(),
                picked@.len() <= k,
                within(sample_inds@, self.stones@.len()),
                forall|j: int|
                    0 <= j < picked@.len() ==> *picked@[j] == self.stones@[sample_inds@[j] as int],
            decreases k - picked@.len(),
        {
            let i = sample_inds[picked.len()];
            picked.push(&self.stones[i]);
        }
        picked
    }

    /// Takes one whole step of a refinement.
    ///
    /// The step chooses the size of its sample, each entry of
    /// `opts.comb_sizes` with equal chance, and draws the sample as
    /// [`StoneGuesses::get_random_sample_inds`] does. It hands the guesses
    /// for the sampled stones to `guess_weight` and the stones themselves to
    /// `weigh`, and goes on with the two weights as
    /// [`StoneGuesses::refine_weighed`] does.
    ///
    /// There is no step where there is no sample to draw: that is an error.
    /// Where the draws did not complete the sample, the sample is given up
    /// and no step is taken. That happens to every sample of more stones than
    /// draws were allowed. It does not happen to a sample of no stone, nor to
    /// one of a single stone that was allowed a draw. Without a step nothing
    /// has changed.
    pub fn refine<FS, FG, FN>(
        &mut self,
        opts: &StoneGuessRefinementOpts,
        progress: &mut RefinementProgress,
        max_draws: usize,
        weigh: FS,
        guess_weight: FG,
        nudge: FN,
    ) -> (taken: Result<Option<Weighing>, SampleError>) where
        FS: Fn(Vec<&S>) -> u32,
        FG: Fn(Vec<W>) -> u32,
        FN: Fn(W, i64, usize) -> W,

        requires
            old(self).aligned(),
            !old(progress).converged(opts),
            old(progress).total_steps < u64::MAX,
            can_weigh(weigh, old(self).stones@),
            can_guess_weight(guess_weight, old(self).guesses@),
            can_nudge_any(nudge, old(self).guesses@),
        ensures
            final(self).stones@ == old(self).stones@,
            final(self).aligned(),
            opts.comb_sizes@.len() == 0 <==> taken == Err::<Option<Weighing>, SampleError>(
                SampleError::NoSizes,
            ),
            taken matches Err(SampleError::TooLarge { size, among }) ==> ({
                &&& opts.comb_sizes@.contains(size)
                &&& among == old(self).stones@.len()
                &&& size > among
            }),
            opts.comb_sizes@.len() > 0 && at_most(opts.comb_sizes@, old(self).stones@.len())
                ==> taken is Ok,
            opts.comb_sizes@.len() > 0 && at_most(opts.comb_sizes@, old(self).stones@.len())
                && at_most(opts.comb_sizes@, (if max_draws > 0 { 1 } else { 0 }))
                ==> taken matches Ok(Some(_)),
            opts.comb_sizes@.len() > 0 && at_most(opts.comb_sizes@, old(self).stones@.len())
                && (forall|j: int|
                0 <= j < opts.comb_sizes@.len() ==> opts.comb_sizes@[j] > max_draws)
                ==> taken matches Ok(None),
            !(taken matches Ok(Some(_))) ==> ({
                &&& final(self).guesses@ == old(self).guesses@
                &&& *final(progress) == *old(progress)
            }),
            taken matches Ok(Some(step)) ==> ({
                &&& is_sample(step.sample_inds@, old(self).stones@.len())
                &&& opts.comb_sizes@.contains(step.sample_inds.len())
                &&& guesses_weigh(
                    guess_weight,
                    sampled(old(self).guesses@, step.sample_inds@),
                    step.guessed_weight,
                )
                &&& stones_weigh(
                    weigh,
                    sampled(old(self).stones@, step.sample_inds@),
                    step.measured_weight,
                )
                &&& step.outcome.err == step_err(step.guessed_weight, step.measured_weight)
                &&& step.outcome.report_due == report_due(
                    opts.debug_interval,
                    final(progress).total_steps as nat,
                )
                &&& is_step(
                    old(self).guesses@,
                    final(self).guesses@,
                    step.sample_inds@,
                    step.outcome.err,
                    nudge,
                )
                &&& *final(progress) == old(progress).after_step(step.outcome.err)
                &&& final(progress).converged(opts) <==> final(progress).no_err_steps
                    == opts.no_err_steps_to_stop
            }),
    {
        let k = match choose_one(&opts.comb_sizes) {
            Some(k) => k,
            None => {
                return Err(SampleError::NoSizes);
            },
        };
        let sample_inds = match self.get_random_sample_inds(k, max_draws) {
            Ok(Some(sample_inds)) => sample_inds,
            Ok(None) => {
                return Ok(None);
            },
            Err(e) => {
                return Err(e);
            },
        };
        let guesses_on_scale = self.sample_guesses(&sample_inds);
        let guessed_weight = guess_weight(guesses_on_scale);
        let stones_on_scale = self.sample_stones(&sample_inds);
        assert forall|j: int| 0 <= j < stones_on_scale@.len() implies self.stones@.contains(
            *#[trigger] stones_on_scale@[j],
        ) by {
            assert(self.stones@[sample_inds@[j] as int] == *stones_on_scale@[j]);
        }
        let measured_weight = weigh(stones_on_scale);
        let outcome = self.refine_weighed(
            opts,
            progress,
            &sample_inds,
            guessed_weight,
            measured_weight,
            nudge,
        );
        Ok(Some(Weighing { sample_inds, guessed_weight, measured_weight, outcome }))
    }

    /// Takes the part of a step that follows the weighing: the stones
    /// `sample_inds` were on the scale, their guesses weigh `guessed_weight`,
    /// and the scale showed `measured_weight`.
    ///
    /// The error of the step is the first weight less the second. Without
    /// error no guess changes. Otherwise `nudge` is handed each guess for a
    /// stone of the sample, together with the error and the number of stones
    /// in the sample, and what it returns becomes the guess. Guesses for other
    /// stones stay as they are. The step is counted in `progress`, and the
    /// guesses are due to be reported where the number of steps has become a
    /// multiple of the interval that `opts` sets.
    pub fn refine_weighed<F: Fn(W, i64, usize) -> W>(
        &mut self,
        opts: &StoneGuessRefinementOpts,
        progress: &mut RefinementProgress,
        sample_inds: &Vec<usize>,
        guessed_weight: u32,
        measured_weight: u32,
        nudge: F,
    ) -> (outcome: StepOutcome)
        requires
            old(self).aligned(),
            is_sample(sample_inds@, old(self).stones@.len()),
            !old(progress).converged(opts),
            old(progress).total_steps < u64::MAX,
            guessed_weight != measured_weight ==> can_nudge(
                nudge,
                old(self).guesses@,
                sample_inds@,
                step_err(guessed_weight, measured_weight),
            ),
        ensures
            outcome.err == step_err(guessed_weight, measured_weight),
            outcome.report_due == report_due(
                opts.debug_interval,
                final(progress).total_steps as nat,
            ),
            final(self).stones@ == old(self).stones@,
            final(self).aligned(),
            is_step(
                old(self).guesses@,
                final(self).guesses@,
                sample_inds@,
                outcome.err,
                nudge,
            ),
            *final(progress) == old(progress).after_step(outcome.err),
            final(progress).no_err_steps == (if outcome.err == 0 {
                old(progress).no_err_steps + 1
            } else {
                0
            }),
            final(progress).total_steps == old(progress).total_steps + 1,
            final(progress).converged(opts) <==> final(progress).no_err_steps
                == opts.no_err_steps_to_stop,
    {
        let err: i64 = guessed_weight as i64 - measured_weight as i64;
        let k: usize = sample_inds.len();
        if err == 0 {
            progress.no_err_steps = progress.no_err_steps + 1;
        } else {
            progress.no_err_steps = 0;
            let mut j: usize = 0;
            while j < k
                invariant
                    j <= k,
                    k == sample_inds@.len(),
                    is_sample(sample_inds@, old(self).guesses@.len()),
                    can_nudge(nudge, old(self).guesses@, sample_inds@, err),
                    self.stones@ == old(self).stones@,
                    kept_outside(old(self).guesses@, self.guesses@, sample_inds@),
                    forall|m: int|
                        j <= m < k ==> #[trigger] self.guesses@[sample_inds@[m] as int] == old(
                            self
                        ).guesses@[sample_inds@[m] as int],
                    forall|m: int|
                        0 <= m < j ==> call_ensures(
                            nudge,
                            (old(self).guesses@[sample_inds@[m] as int], err, k),
                            #[trigger] self.guesses@[sample_inds@[m] as int],
                        ),
                decreases k - j,
            {
                let i = sample_inds[j];
                let guess = self.guesses[i];
                let nudged = nudge(guess, err, k);
                self.guesses.set(i, nudged);
                j = j + 1;
            }
        }
        progress.total_steps = progress.total_steps + 1;
        let report_due = match opts.debug_interval {
            Some(interval) => if interval == 0 {
                false
            } else {
                progress.total_steps % (interval as u64) == 0
            },
            None => false,
        };
        StepOutcome { err, report_due }
    }
}

} // verus!

//! Drawing the stones that go on the scale together.
//!
//! A [`Sample`] is filled one draw at a time. Each draw picks any stone with
//! equal chance; a stone that is already in the sample is not added again, so
//! a draw may leave the sample as it was. How many draws it takes to fill a
//! sample is therefore not bounded, and the caller decides how long to go on.
use crate::chance::random_index;
use std::collections::HashSet;
use vstd::prelude::*;
use vstd::std_specs::hash::spec_hash_keys_iter;
use vstd::std_specs::iter::IteratorSpec;

verus! {

/// Whether each entry of `inds` names one of `among` stones.
pub open spec fn within(inds: Seq<usize>, among: nat) -> bool {
    forall|j: int| 0 <= j < inds.len() ==> inds[j] < among
}

/// Whether `inds` names stones out of `among` without naming one twice.
pub open spec fn is_sample(inds: Seq<usize>, among: nat) -> bool {
    &&& inds.no_duplicates()
    &&& within(inds, among)
}

/// Why there is no sample to draw.
#[derive(Clone, Copy, Debug, PartialEq, Eq)]
pub enum SampleError {
    /// There is no sample size to choose from.
    NoSizes,
    /// A sample of `size` stones was asked of only `among` stones.
    TooLarge { size: usize, among: usize },
}

/// Tells whether `inds` names stones out of `among` without naming one twice.
pub fn is_valid_sample(inds: &Vec<usize>, among: usize) -> (valid: bool)
    ensures
        valid == is_sample(inds@, among as nat),
{
    let k = inds.len();
    let mut j: usize = 0;
    while j < k
        invariant
            j <= k,
            k == inds@.len(),
            is_sample(inds@.take(j as int), among as nat),
        decreases k - j,
    {
        if inds[j] >= among {
            return false;
        }
        let mut m: usize = 0;
        while m < j
            invariant
                m <= j,
                j < k,
                k == inds@.len(),
                forall|a: int| 0 <= a < m ==> inds@[a] != inds@[j as int],
            decreases j - m,
        {
            if inds[m] == inds[j] {
                return false;
            }
            m = m + 1;
        }
        assert(inds@.take(j + 1) =~= inds@.take(j as int).push(inds@[j as int]));
        j = j + 1;
    }
    assert(inds@.take(k as int) =~= inds@);
    true
}

/// The stones drawn so far for one weighing, as indices below `among`.
#[derive(Debug)]
pub struct Sample {
    among: usize,
    size: usize,
    picked: HashSet<usize>,
}

impl View for Sample {
    type V = Set<usize>;

    /// The indices drawn so far.
    closed spec fn view(&self) -> Set<usize> {
        self.picked@
    }
}

impl Sample {
    /// How many stones there are to draw from.
    pub closed spec fn spec_among(&self) -> usize {
        self.among
    }

    /// How many stones the sample is to hold in the end.
    pub closed spec fn spec_size(&self) -> usize {
        self.size
    }

    /// What holds of every sample: it asks for no more stones than there are,
    /// holds no more than it asks for, and holds only stones that exist.
    pub open spec fn wf(&self) -> bool {
        &&& self.size() <= self.among()
        &&& self@.finite()
        &&& self@.len() <= self.size()
        &&& forall|i: usize| self@.contains(i) ==> i < self.among()
    }

    #[verifier::type_invariant]
    spec fn inv(&self) -> bool {
        self.wf()
    }

    /// Whether the sample holds as many stones as it is to hold.
    pub open spec fn complete(&self) -> bool {
        self@.len() == self.size()
    }

    /// Starts an empty sample of `size` stones out of `among`.
    ///
    /// There is no such sample when `size` is more than `among`: that, and
    /// nothing else, is an error.
    pub fn begin(size: usize, among: usize) -> (started: Result<Sample, SampleError>)
        ensures
            size > among <==> started is Err,
            started matches Err(e) ==> e == (SampleError::TooLarge { size, among }),
            started matches Ok(s) ==> ({
                &&& s.wf()
                &&& s.size() == size
                &&& s.among() == among
                &&& s@ == Set::<usize>::empty()
            }),
    {
        if size > among {
            Err(SampleError::TooLarge { size, among })
        } else {
            Ok(Sample { among, size, picked: HashSet::new() })
        }
    }

    /// How many stones there are to draw from.
    #[verifier::when_used_as_spec(spec_among)]
    pub fn among(&self) -> (n: usize)
        ensures
            n == self.spec_among(),
    {
        self.among
    }

    /// How many stones the sample is to hold in the end.
    #[verifier::when_used_as_spec(spec_size)]
    pub fn size(&self) -> (k: usize)
        ensures
            k == self.spec_size(),
    {
        self.size
    }

    /// How many stones the sample holds by now.
    pub fn len(&self) -> (held: usize)
        ensures
            held == self@.len(),
            self.wf(),
    {
        broadcast use vstd::std_specs::hash::group_hash_axioms;
        proof {
            use_type_invariant(self);
        }
        self.picked.len()
    }

    /// Whether the sample holds as many stones as it is to hold.
    pub fn is_complete(&self) -> (done: bool)
        ensures
            done == self.complete(),
            self.wf(),
    {
        broadcast use vstd::std_specs::hash::group_hash_axioms;
        proof {
            use_type_invariant(self);
        }
        self.picked.len() == self.size
    }

    /// Puts the stone `index` into the sample unless it is there already.
    ///
    /// Returns whether the stone was new to the sample.
    pub fn offer(&mut self, index: usize) -> (fresh: bool)
        requires
            !old(self).complete(),
            index < old(self).among(),
        ensures
            fresh == !old(self)@.contains(index),
            final(self)@ == old(self)@.insert(index),
            final(self).among() == old(self).among(),
            final(self).size() == old(self).size(),
            final(self).wf(),
    {
        broadcast use vstd::std_specs::hash::group_hash_axioms;
        proof {
            use_type_invariant(&*self);
        }
        // `insert` may unwind, and a sample has to be well-formed whenever
        // control leaves it: the set is taken out for the insertion.
        let mut picked: HashSet<usize> = HashSet::new();
        core::mem::swap(&mut self.picked, &mut picked);
        let fresh = picked.insert(index);
        core::mem::swap(&mut self.picked, &mut picked);
        fresh
    }

    /// Draws one stone, each with equal chance, and puts it into the sample
    /// unless it is there already.
    ///
    /// Returns the stone drawn. Which stone that is, is up to chance; whichever
    /// it is, the sample afterwards is the sample before with that stone in it.
    pub fn draw(&mut self) -> (index: usize)
        requires
            !old(self).complete(),
        ensures
            index < old(self).among(),
            final(self)@ == old(self)@.insert(index),
            final(self).among() == old(self).among(),
            final(self).size() == old(self).size(),
            final(self).wf(),
    {
        proof {
            use_type_invariant(&*self);
        }
        let index = random_index(self.among);
        self.offer(index);
        index
    }

    /// Draws stones as [`Sample::draw`] does until the sample is complete or
    /// `max_draws` stones were drawn, and tells whether it is complete.
    ///
    /// How far the draws bring the sample is up to chance. None of them takes
    /// a stone out of it and none puts in more than one, a complete sample is
    /// left as it is, and the first draw into an empty sample puts a stone
    /// into it.
    pub fn fill(&mut self, max_draws: usize) -> (complete: bool)
        ensures
            complete == final(self).complete(),
            old(self)@.subset_of(final(self)@),
            old(self).complete() || max_draws == 0 ==> final(self)@ == old(self)@,
            max_draws > 0 && old(self).size() > 0 ==> final(self)@.len() > 0,
            final(self)@.len() <= old(self)@.len() + max_draws,
            final(self).among() == old(self).among(),
            final(self).size() == old(self).size(),
            final(self).wf(),
    {
        proof {
            use_type_invariant(&*self);
        }
        let mut drawn: usize = 0;
        while drawn < max_draws && !self.is_complete()
            invariant
                drawn <= max_draws,
                old(self)@.subset_of(self@),
                old(self).complete() || max_draws == 0 ==> self@ == old(self)@,
                drawn > 0 ==> self@.len() > 0,
                self@.len() <= old(self)@.len() + drawn,
                self.among() == old(self).among(),
                self.size() == old(self).size(),
                self.wf(),
            decreases max_draws - drawn,
        {
            self.draw();
            drawn = drawn + 1;
        }
        self.is_complete()
    }

    /// The stones of a complete sample, each once, in no particular order.
    pub fn inds(&self) -> (inds: Vec<usize>)
        requires
            self.complete(),
        ensures
            is_sample(inds@, self.among() as nat),
            inds@.len() == self.size(),
            inds@.to_set() == self@,
    {
        broadcast use vstd::std_specs::hash::group_hash_axioms;
        proof {
            use_type_invariant(self);
        }
        let mut inds: Vec<usize> = Vec::new();
        let ghost order = spec_hash_keys_iter(&self.picked).remaining();
        for i in it: self.picked.iter()
            invariant
                it.seq() == order,
                inds@.len() == it.index(),
                forall|j: int| 0 <= j < inds@.len() ==> inds@[j] == *order[j],
        {
            inds.push(*i);
        }
        proof {
            assert(inds@ =~= order.unref());
            assert forall|a: int, b: int|
                0 <= a < inds@.len() && 0 <= b < inds@.len() && a != b implies inds@[a]
                != inds@[b] by {
                assert(order[a] != order[b]);
            }
            assert forall|j: int| 0 <= j < inds@.len() implies inds@[j] < self.among() by {
                assert(inds@.to_set().contains(inds@[j]));
            }
        }
        inds
    }
}

} // verus!

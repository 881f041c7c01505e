use vstd::prelude::*;

use crate::errors::SampleError;

verus! {

/// The setup pass of the hidden shuffle: a geometric skip-count over the
/// conceptual slots `[0, sample_size)` that decides how many of the final
/// outputs will come from the fast hidden-shuffle phase (`hidden`) and how
/// many are deferred to the leftover phase (`sample_size - hidden`).
///
/// The driver owns the randomness: for each step it draws the geometric
/// skip and the acceptance coin from its uniform source and hands them in
/// as plain values; every decision and every counter update is made here.
#[derive(Clone, Copy, Debug)]
pub struct SetupPhase {
    /// Population size `N`, fixed for the whole pass.
    pub population: usize,
    /// Requested sample size `n`, fixed for the whole pass.
    pub sample_size: usize,
    /// The walking slot index `i`; the pass is over once it reaches
    /// `sample_size`.
    pub index: usize,
    /// Running count of slots kept for the hidden-shuffle phase.
    pub hidden: usize,
}

impl SetupPhase {
    /// Everything the pass guarantees at every observation point.
    ///
    /// `sample_size <= hidden + index` records that at most one slot is
    /// rejected per step while `index` grows by at least one, so `hidden`
    /// can never underflow.
    pub open spec fn wf(self) -> bool {
        &&& self.sample_size <= self.population
        &&& self.hidden <= self.sample_size
        &&& self.sample_size <= self.hidden + self.index
    }

    /// The pass is finished: no slot is left to decide.
    pub open spec fn spec_done(self) -> bool {
        self.index >= self.sample_size
    }

    /// Whether the pass is finished.
    pub fn done(&self) -> (r: bool)
        ensures
            r == self.spec_done(),
    {
        self.index >= self.sample_size
    }

    /// Validate a request and open the setup pass.
    ///
    /// A sample larger than the population is refused.  When the whole
    /// population is requested (`sample_size == population`) no skip
    /// counting happens at all: every output is deferred to the leftover
    /// phase, so the pass starts already finished with `hidden == 0`.
    pub fn start(population: usize, sample_size: usize) -> (r: Result<SetupPhase, SampleError>)
        ensures
            sample_size > population <==> r is Err,
            r is Err ==> r == Err::<SetupPhase, SampleError>(SampleError::InvalidArgument),
            r matches Ok(p) ==> {
                &&& p.wf()
                &&& p.population == population
                &&& p.sample_size == sample_size
                &&& (population == sample_size ==> p.spec_done() && p.hidden == 0)
                &&& (population > sample_size ==> p.index == 0 && p.hidden == sample_size)
            },
    {
        if sample_size > population {
            Err(SampleError::InvalidArgument)
        } else if population == sample_size {
            Ok(SetupPhase { population, sample_size, index: sample_size, hidden: 0 })
        } else {
            Ok(SetupPhase { population, sample_size, index: 0, hidden: sample_size })
        }
    }

    /// One step of the skip-counting pass, for the geometric skip and the
    /// acceptance coin the driver drew for it.
    ///
    /// The index lands `skip` slots further on.  A landing inside the range
    /// with a winning coin rejects that slot — one output moves from the
    /// hidden-shuffle phase to the leftover phase — and the index then moves
    /// one past the landing point.  A landing at or beyond the range ends
    /// the pass.
    pub fn step(&mut self, skip: usize, coin: bool)
        requires
            old(self).wf(),
            !old(self).spec_done(),
        ensures
            final(self).wf(),
            final(self).population == old(self).population,
            final(self).sample_size == old(self).sample_size,
            old(self).index + skip < old(self).sample_size ==> {
                &&& final(self).index == old(self).index + skip + 1
                &&& final(self).hidden == old(self).hidden - (if coin { 1int } else { 0int })
            },
            old(self).index + skip >= old(self).sample_size ==> {
                &&& final(self).index == old(self).sample_size
                &&& final(self).hidden == old(self).hidden
                &&& final(self).spec_done()
            },
            old(self).index < final(self).index,
    {
        if skip < self.sample_size - self.index {
            if coin {
                self.hidden = self.hidden - 1;
            }
            self.index = self.index + skip + 1;
        } else {
            self.index = self.sample_size;
        }
    }
}

} // verus!

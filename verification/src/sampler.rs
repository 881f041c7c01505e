use vstd::prelude::*;

use crate::setup::SetupPhase;

verus! {

/// A sequence of indices that grows strictly, so it never repeats a value.
pub open spec fn strictly_increasing(s: Seq<usize>) -> bool {
    forall|i: int, j: int| 0 <= i < j < s.len() ==> s[i] < s[j]
}

/// The generation state machine of the hidden shuffle.  It runs two phases
/// in sequence: while `hidden > 0` the hidden-shuffle phase, and once
/// `hidden == 0`, while `leftover > 0`, the leftover phase; it is exhausted
/// when both counters are zero, having emitted exactly the requested number
/// of values.
///
/// The driver owns the floating-point scale factor and the uniform source;
/// it hands each refined order-statistic position and each leftover skip in
/// as a plain integer.  Every emission decision, every counter update and
/// the ordering of the output are decided and accounted for here.
pub struct HiddenShuffle {
    /// Population size `N`, fixed for the sampler's lifetime.
    pub population: usize,
    /// The working sample-size counter `n`: fixed during the hidden-shuffle
    /// phase, and the shrinking upper bound of the still-unsampled suffix
    /// during the leftover phase.
    pub bound: usize,
    /// Hidden-shuffle steps still to run.
    pub hidden: usize,
    /// Leftover steps still to run; grows by one for each collision the
    /// hidden-shuffle phase detects.
    pub leftover: usize,
    /// The last floored order-statistic offset `floor(a * (N - n))`, where
    /// `a` is the driver's scale factor.  The driver refines `a` downward,
    /// so each offset it hands in is at most this one; a strict decrease is
    /// a fresh value, equality is a collision.
    pub frac: usize,
    /// Every value emitted so far, in emission order.
    pub emitted: Ghost<Seq<usize>>,
    /// The sample size originally requested.
    pub requested: Ghost<nat>,
}

impl HiddenShuffle {
    /// Exclusive upper bound on every value emitted so far.  During the
    /// hidden-shuffle phase emissions are `population - 1 - bound - frac`
    /// for the current offset `frac`; afterwards they are
    /// `population - 1 - bound` for the current `bound`.
    pub open spec fn ceiling(self) -> int {
        if self.hidden > 0 {
            self.population - self.bound - self.frac
        } else {
            self.population - self.bound
        }
    }

    /// Everything the sampler guarantees at every observation point.
    pub open spec fn wf(self) -> bool {
        &&& self.bound <= self.population
        &&& self.hidden + self.leftover <= self.bound
        &&& (self.hidden > 0 ==> self.frac <= self.population - self.bound)
        &&& strictly_increasing(self.emitted@)
        &&& (forall|i: int| 0 <= i < self.emitted@.len() ==> self.emitted@[i] < self.ceiling())
        &&& self.emitted@.len() + self.hidden + self.leftover == self.requested@
    }

    /// The sampler is exhausted: both phases have run dry.
    pub open spec fn spec_done(self) -> bool {
        self.hidden == 0 && self.leftover == 0
    }

    /// Whether the sampler is exhausted.
    pub fn done(&self) -> (r: bool)
        ensures
            r == self.spec_done(),
    {
        self.hidden == 0 && self.leftover == 0
    }

    /// Build the generation state from a finished setup pass: the working
    /// bound starts at the requested sample size, the leftover count is the
    /// complement of the hidden count, and the offset starts at its maximum
    /// `population - sample_size` (the driver's scale factor starts at one).
    pub fn from_setup(setup: &SetupPhase) -> (r: HiddenShuffle)
        requires
            setup.wf(),
            setup.spec_done(),
        ensures
            r.wf(),
            r.population == setup.population,
            r.bound == setup.sample_size,
            r.hidden == setup.hidden,
            r.leftover == setup.sample_size - setup.hidden,
            r.frac == setup.population - setup.sample_size,
            r.emitted@ == Seq::<usize>::empty(),
            r.requested@ == setup.sample_size,
    {
        HiddenShuffle {
            population: setup.population,
            bound: setup.sample_size,
            hidden: setup.hidden,
            leftover: setup.sample_size - setup.hidden,
            frac: setup.population - setup.sample_size,
            emitted: Ghost(Seq::empty()),
            requested: Ghost(setup.sample_size as nat),
        }
    }

    /// One hidden-shuffle step, for the freshly refined offset
    /// `floor(a * (population - bound))` the driver computed after updating
    /// its scale factor `a`.  The scale factor only shrinks, so the offset
    /// is at most the remembered one.  A strict decrease emits the fresh
    /// value `population - 1 - (bound + offset)`; an unchanged offset is a
    /// collision with a value already implicitly counted, which defers one
    /// output to the leftover phase.  Either way one hidden step is
    /// consumed and the offset is remembered.
    pub fn hidden_step(&mut self, offset: usize) -> (r: Option<usize>)
        requires
            old(self).wf(),
            old(self).hidden > 0,
            offset <= old(self).frac,
        ensures
            final(self).wf(),
            final(self).population == old(self).population,
            final(self).bound == old(self).bound,
            final(self).requested == old(self).requested,
            final(self).frac == offset,
            final(self).hidden == old(self).hidden - 1,
            r is Some <==> offset < old(self).frac,
            offset < old(self).frac ==> {
                &&& r == Some((old(self).population - old(self).bound - offset - 1) as usize)
                &&& final(self).leftover == old(self).leftover
                &&& final(self).emitted@ == old(self).emitted@.push(
                    (old(self).population - old(self).bound - offset - 1) as usize,
                )
            },
            offset == old(self).frac ==> {
                &&& r is None
                &&& final(self).leftover == old(self).leftover + 1
                &&& final(self).emitted@ == old(self).emitted@
            },
    {
        let previous = self.frac;
        self.frac = offset;
        self.hidden = self.hidden - 1;
        if offset < previous {
            let value = self.population - 1 - (self.bound + offset);
            proof {
                assert forall|i: int| 0 <= i < self.emitted@.len() implies self.emitted@[i]
                    < value by {}
            }
            self.emitted = Ghost(self.emitted@.push(value));
            Some(value)
        } else {
            self.leftover = self.leftover + 1;
            None
        }
    }

    /// One leftover step, for the skip the driver computed by walking the
    /// cumulative-probability recurrence against its uniform draw.  The
    /// skip never exceeds the room left in the shrinking suffix,
    /// `bound - leftover`.  The working bound shrinks past the skipped
    /// slots and the step emits `population - 1 - bound` for the shrunken
    /// bound — always a fresh value above everything emitted before.
    pub fn leftover_step(&mut self, skip: usize) -> (r: usize)
        requires
            old(self).wf(),
            old(self).hidden == 0,
            old(self).leftover > 0,
            skip <= old(self).bound - old(self).leftover,
        ensures
            final(self).wf(),
            final(self).population == old(self).population,
            final(self).requested == old(self).requested,
            final(self).hidden == 0,
            final(self).leftover == old(self).leftover - 1,
            final(self).bound == old(self).bound - skip - 1,
            r == old(self).population - old(self).bound + skip,
            final(self).emitted@ == old(self).emitted@.push(r),
            r < final(self).population,
    {
        self.leftover = self.leftover - 1;
        self.bound = self.bound - skip - 1;
        let value = self.population - 1 - self.bound;
        proof {
            assert forall|i: int| 0 <= i < self.emitted@.len() implies self.emitted@[i]
                < value by {}
        }
        self.emitted = Ghost(self.emitted@.push(value));
        value
    }
}

} // verus!

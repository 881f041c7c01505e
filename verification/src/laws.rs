use vstd::prelude::*;

use crate::sampler::HiddenShuffle;
use crate::sampler::strictly_increasing;

verus! {

/// In a strictly increasing sequence every entry is at least its position.
proof fn lemma_increasing_lower(s: Seq<usize>, i: int)
    requires
        strictly_increasing(s),
        0 <= i < s.len(),
    ensures
        i <= s[i],
    decreases i,
{
    if i > 0 {
        lemma_increasing_lower(s, i - 1);
        assert(s[i - 1] < s[i]);
    }
}

/// In a strictly increasing sequence every entry leaves room below the last
/// one for all the entries after it.
proof fn lemma_increasing_upper(s: Seq<usize>, i: int)
    requires
        strictly_increasing(s),
        0 <= i < s.len(),
    ensures
        s[i] + (s.len() - 1 - i) <= s[s.len() - 1],
    decreases s.len() - i,
{
    if i < s.len() - 1 {
        lemma_increasing_upper(s, i + 1);
        assert(s[i] < s[i + 1]);
    }
}

/// Range: every value a well-formed sampler has emitted lies in
/// `[0, population)`.
pub proof fn lemma_range(s: HiddenShuffle)
    requires
        s.wf(),
    ensures
        forall|i: int| 0 <= i < s.emitted@.len() ==> s.emitted@[i] < s.population,
{
    assert forall|i: int| 0 <= i < s.emitted@.len() implies s.emitted@[i] < s.population by {
        assert(s.emitted@[i] < s.ceiling());
    }
}

/// Cardinality: what was emitted plus what is still pending always equals
/// the request, so an exhausted sampler has emitted exactly the requested
/// number of values.
pub proof fn lemma_cardinality(s: HiddenShuffle)
    requires
        s.wf(),
    ensures
        s.emitted@.len() + s.hidden + s.leftover == s.requested@,
        s.spec_done() ==> s.emitted@.len() == s.requested@,
{
}

/// Ordering: the emitted sequence is strictly increasing — the
/// hidden-shuffle emissions and the leftover emissions, merged in the
/// order they happen, form one globally sorted sequence.
pub proof fn lemma_ordering(s: HiddenShuffle)
    requires
        s.wf(),
    ensures
        forall|i: int, j: int|
            0 <= i < j < s.emitted@.len() ==> s.emitted@[i] < s.emitted@[j],
{
}

/// Uniqueness: no value is emitted twice within one sampling run.
pub proof fn lemma_no_repeats(s: HiddenShuffle)
    requires
        s.wf(),
    ensures
        forall|i: int, j: int|
            0 <= i < s.emitted@.len() && 0 <= j < s.emitted@.len() && i != j
                ==> s.emitted@[i] != s.emitted@[j],
{
    assert forall|i: int, j: int|
        0 <= i < s.emitted@.len() && 0 <= j < s.emitted@.len() && i != j
        implies s.emitted@[i] != s.emitted@[j] by {
        if i < j {
            assert(s.emitted@[i] < s.emitted@[j]);
        } else {
            assert(s.emitted@[j] < s.emitted@[i]);
        }
    }
}

/// Full sample: an exhausted sampler that was asked for the whole
/// population has emitted exactly `0, 1, ..., population - 1`, in order.
pub proof fn lemma_full_sample(s: HiddenShuffle)
    requires
        s.wf(),
        s.spec_done(),
        s.requested@ == s.population,
    ensures
        s.emitted@.len() == s.population,
        forall|i: int| 0 <= i < s.emitted@.len() ==> s.emitted@[i] == i,
{
    let e = s.emitted@;
    if e.len() > 0 {
        let last = e.len() - 1;
        lemma_increasing_lower(e, last);
        assert(e[last] < s.ceiling());
        assert forall|i: int| 0 <= i < e.len() implies e[i] == i by {
            lemma_increasing_lower(e, i);
            lemma_increasing_upper(e, i);
        }
    }
}

} // verus!

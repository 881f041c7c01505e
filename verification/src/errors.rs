use vstd::prelude::*;

verus! {

/// Why a sample request is refused before any sampler state is built.
#[derive(Clone, Copy, Debug, PartialEq, Eq, Structural)]
pub enum SampleError {
    /// The requested sample size exceeds the population size, so no
    /// sample without replacement exists.
    InvalidArgument,
}

} // verus!

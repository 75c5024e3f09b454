use vstd::prelude::*;

verus! {

/// The processing of a gain node: it copies its input to its output and
/// applies the `gain` parameter to each frame
///
/// It keeps no state of its own.
#[derive(Clone, Copy, PartialEq, Eq, Structural, Debug)]
pub struct GainProcessor;

impl GainProcessor {
    /// A gain processor
    pub fn new() -> (processor: Self)
        ensures
            processor == GainProcessor,
    {
        Self
    }
}

} // verus!

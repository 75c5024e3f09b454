use vstd::prelude::*;

use crate::id::Id;

verus! {

/// The processing of a pan node: it moves a stereo input between the left and
/// right channels by the parameter with the given id
#[derive(Clone, Copy, PartialEq, Eq, Structural, Debug)]
pub struct PanProcessor {
    pan_id: Id,
}

impl PanProcessor {
    /// The id of the pan parameter
    pub closed spec fn spec_pan_id(&self) -> Id {
        self.pan_id
    }

    /// A pan processor driven by the parameter `pan_id`
    pub fn new(pan_id: Id) -> (processor: Self)
        ensures
            processor.spec_pan_id() == pan_id,
    {
        Self { pan_id }
    }

    /// The id of the pan parameter
    pub fn pan_id(&self) -> (pan_id: Id)
        ensures
            pan_id == self.spec_pan_id(),
    {
        self.pan_id
    }
}

} // verus!

use vstd::prelude::*;

verus! {

/// Identifies a DSP node (and its parameters) across the control and audio
/// threads
#[derive(Clone, Copy, PartialEq, Eq, Structural, Hash, Debug)]
pub struct Id {
    pub value: u64,
}

impl Id {
    /// An identifier with the given raw value
    pub fn from_raw(value: u64) -> (id: Self)
        ensures
            id.value == value,
    {
        Self { value }
    }

    /// The raw value of the identifier
    pub fn as_raw(&self) -> (value: u64)
        ensures
            value == self.value,
    {
        self.value
    }
}

} // verus!

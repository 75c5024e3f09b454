use vstd::prelude::*;

verus! {

/// What a notifier asks of the context after it has run
#[derive(Clone, Copy, PartialEq, Eq, Structural, Debug)]
pub enum NotifierStatus {
    /// Keep the notifier, and run it after the next audio block
    Continue,
    /// Remove the notifier
    Remove,
}

} // verus!

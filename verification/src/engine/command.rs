use vstd::prelude::*;

use crate::graph::{Connection, Endpoint};
use crate::id::Id;

verus! {

/// A change to the audio graph or to the engine's state, sent from the
/// control thread to the audio thread; `D` is the type of a DSP node
pub enum Command<D> {
    /// Start processing audio
    Start,
    /// Stop processing audio
    Stop,
    /// Add a DSP node to the graph
    AddDsp(D),
    /// Remove the DSP node with the given id from the graph
    RemoveDsp(Id),
    /// Add a connection between two nodes
    AddConnection(Connection),
    /// Remove a connection between two nodes
    RemoveConnection(Connection),
    /// Feed the system input into a node
    ConnectToInput(Endpoint),
    /// Send a node's output to the system output
    ConnectToOutput(Endpoint),
}

} // verus!

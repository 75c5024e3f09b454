use vstd::prelude::*;

use crate::id::Id;

verus! {

/// The audio-thread side of a node: its processor and its parameters, with
/// the id and the channel counts that the graph routes by
pub struct Dsp<P, Q> {
    id: Id,
    input_count: usize,
    output_count: usize,
    /// What turns the node's input into its output
    pub processor: P,
    /// The parameters that drive the processor
    pub parameters: Q,
}

impl<P, Q> Dsp<P, Q> {
    /// The id of the node
    pub closed spec fn spec_id(&self) -> Id {
        self.id
    }

    /// The processor
    pub closed spec fn spec_processor(&self) -> P {
        self.processor
    }

    /// The parameters
    pub closed spec fn spec_parameters(&self) -> Q {
        self.parameters
    }

    /// The number of input channels
    pub closed spec fn spec_input_count(&self) -> usize {
        self.input_count
    }

    /// The number of output channels
    pub closed spec fn spec_output_count(&self) -> usize {
        self.output_count
    }

    /// A DSP node
    pub fn new(id: Id, input_count: usize, output_count: usize, processor: P, parameters: Q) -> (dsp: Self)
        ensures
            dsp.spec_id() == id,
            dsp.spec_input_count() == input_count,
            dsp.spec_output_count() == output_count,
            dsp.spec_processor() == processor,
            dsp.spec_parameters() == parameters,
    {
        Self { id, input_count, output_count, processor, parameters }
    }

    /// The number of input channels
    pub fn input_count(&self) -> (input_count: usize)
        ensures
            input_count == self.spec_input_count(),
    {
        self.input_count
    }

    /// The number of output channels
    pub fn output_count(&self) -> (output_count: usize)
        ensures
            output_count == self.spec_output_count(),
    {
        self.output_count
    }

    /// The id of the node
    pub fn get_id(&self) -> (id: Id)
        ensures
            id == self.spec_id(),
    {
        self.id
    }
}

} // verus!

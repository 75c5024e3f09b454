use vstd::prelude::*;

use crate::id::Id;

verus! {

/// Whether an endpoint is the input side or the output side of a node
#[derive(Clone, Copy, PartialEq, Eq, Structural, Hash, Debug)]
pub enum EndpointType {
    /// The input of a node
    Input,
    /// The output of a node
    Output,
}

/// One side of a node in the graph
#[derive(Clone, Copy, PartialEq, Eq, Structural, Hash, Debug)]
pub struct Endpoint {
    /// Which side of the node
    pub endpoint_type: EndpointType,
    /// The node
    pub dsp_id: Id,
}

impl Endpoint {
    /// The `endpoint_type` side of the node `node_id`
    pub fn new(node_id: Id, endpoint_type: EndpointType) -> (endpoint: Self)
        ensures
            endpoint.dsp_id == node_id,
            endpoint.endpoint_type == endpoint_type,
    {
        Self { dsp_id: node_id, endpoint_type }
    }
}

} // verus!

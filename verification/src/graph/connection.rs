use vstd::prelude::*;

use crate::id::Id;
use super::endpoint::{Endpoint, EndpointType};

verus! {

/// A connection that carries `channel_count` channels from the output of one
/// node to the input of another
#[derive(Clone, Copy, PartialEq, Eq, Structural, Debug)]
pub struct Connection {
    /// The output side of the source node
    pub source: Endpoint,
    /// The first output channel of the source that is carried
    pub source_output_channel: usize,
    /// The input side of the destination node
    pub destination: Endpoint,
    /// The first input channel of the destination that receives
    pub destination_input_channel: usize,
    /// The number of channels that are carried
    pub channel_count: usize,
}

impl Connection {
    /// A connection from the output of `source_id` to the input of
    /// `destination_id`, starting at channel 0 on both sides
    pub fn new(source_id: Id, destination_id: Id, channel_count: usize) -> (connection: Self)
        ensures
            connection.source == (Endpoint { dsp_id: source_id, endpoint_type: EndpointType::Output }),
            connection.destination == (Endpoint { dsp_id: destination_id, endpoint_type: EndpointType::Input }),
            connection.source_output_channel == 0,
            connection.destination_input_channel == 0,
            connection.channel_count == channel_count,
    {
        Self {
            source: Endpoint::new(source_id, EndpointType::Output),
            destination: Endpoint::new(destination_id, EndpointType::Input),
            source_output_channel: 0,
            destination_input_channel: 0,
            channel_count,
        }
    }

    /// This connection, starting at output channel `channel` of the source
    pub fn with_source_output_channel(self, channel: usize) -> (connection: Self)
        ensures
            connection == (Connection { source_output_channel: channel, ..self }),
    {
        let mut connection = self;
        connection.source_output_channel = channel;
        connection
    }

    /// This connection, starting at input channel `channel` of the destination
    pub fn with_destination_input_channel(self, channel: usize) -> (connection: Self)
        ensures
            connection == (Connection { destination_input_channel: channel, ..self }),
    {
        let mut connection = self;
        connection.destination_input_channel = channel;
        connection
    }
}

} // verus!

use vstd::prelude::*;

use crate::channel::{send_message, EventTransmitter};
use crate::engine::Command;
use crate::id::Id;

use super::connection::Connection;
use super::dsp::Dsp;
use super::endpoint::{Endpoint, EndpointType};

verus! {

/// A node that connects into the audio graph; `P` is the type of its
/// processor and `Q` that of its parameters
///
/// Every change is a command sent to the audio thread.
#[verifier::reject_recursive_types(P)]
#[verifier::reject_recursive_types(Q)]
pub struct GraphNode<P, Q> {
    id: Id,
    command_queue: EventTransmitter<Command<Box<Dsp<P, Q>>>>,
    output_count: usize,
}

impl<P, Q> GraphNode<P, Q> {
    /// The id of the node
    pub closed spec fn spec_id(&self) -> Id {
        self.id
    }

    /// The number of output channels of the node
    pub closed spec fn spec_output_count(&self) -> usize {
        self.output_count
    }

    /// The commands handed to the node's command queue, in order
    pub closed spec fn sent_commands(&self) -> Seq<Command<Box<Dsp<P, Q>>>> {
        self.command_queue.sent()
    }

    /// Create a node with `input_count` inputs and `output_count` outputs,
    /// and add its DSP node, which runs `processor` with `parameters`, to the
    /// audio graph
    pub fn new(
        id: Id,
        command_queue: EventTransmitter<Command<Box<Dsp<P, Q>>>>,
        input_count: usize,
        output_count: usize,
        processor: P,
        parameters: Q,
    ) -> (node: Self)
        ensures
            node.spec_id() == id,
            node.spec_output_count() == output_count,
            node.sent_commands().len() == command_queue.sent().len() + 1,
            node.sent_commands().drop_last() == command_queue.sent(),
            node.sent_commands().last() matches Command::AddDsp(dsp) && {
                &&& dsp.spec_id() == id
                &&& dsp.spec_input_count() == input_count
                &&& dsp.spec_output_count() == output_count
                &&& dsp.spec_processor() == processor
                &&& dsp.spec_parameters() == parameters
            },
    {
        let dsp = Dsp::new(id, input_count, output_count, processor, parameters);
        let mut node = Self { id, command_queue, output_count };
        node.send(Command::AddDsp(Box::new(dsp)));
        node
    }

    /// Send `command` to the audio thread
    fn send(&mut self, command: Command<Box<Dsp<P, Q>>>)
        ensures
            final(self).sent_commands() == old(self).sent_commands().push(command),
            final(self).spec_id() == old(self).spec_id(),
            final(self).spec_output_count() == old(self).spec_output_count(),
    {
        let _ = send_message(&mut self.command_queue, command);
    }

    /// The id of the node
    pub fn get_id(&self) -> (id: Id)
        ensures
            id == self.spec_id(),
    {
        self.id
    }

    /// Connect this node to the system input
    ///
    /// Only one node can be connected to the system input: connecting
    /// another one replaces the first.
    pub fn connect_to_input(&mut self)
        ensures
            final(self).sent_commands() == old(self).sent_commands().push(
                Command::ConnectToInput(Endpoint { dsp_id: old(self).spec_id(), endpoint_type: EndpointType::Input }),
            ),
            final(self).spec_id() == old(self).spec_id(),
            final(self).spec_output_count() == old(self).spec_output_count(),
    {
        let endpoint = Endpoint::new(self.id, EndpointType::Input);
        self.send(Command::ConnectToInput(endpoint));
    }

    /// Connect this node to the system output
    ///
    /// Only one node can be connected to the system output: connecting
    /// another one replaces the first. To send more than one node to the
    /// output, connect them all to another node (a gain, say) and connect
    /// that one to the output.
    pub fn connect_to_output(&mut self)
        ensures
            final(self).sent_commands() == old(self).sent_commands().push(
                Command::ConnectToOutput(Endpoint { dsp_id: old(self).spec_id(), endpoint_type: EndpointType::Output }),
            ),
            final(self).spec_id() == old(self).spec_id(),
            final(self).spec_output_count() == old(self).spec_output_count(),
    {
        let endpoint = Endpoint::new(self.id, EndpointType::Output);
        self.send(Command::ConnectToOutput(endpoint));
    }

    /// Connect every output of this node to the inputs of `node`
    pub fn connect_to(&mut self, node: &GraphNode<P, Q>)
        ensures
            final(self).sent_commands() == old(self).sent_commands().push(
                Command::AddConnection(
                    Connection {
                        source: Endpoint { dsp_id: old(self).spec_id(), endpoint_type: EndpointType::Output },
                        source_output_channel: 0,
                        destination: Endpoint { dsp_id: node.spec_id(), endpoint_type: EndpointType::Input },
                        destination_input_channel: 0,
                        channel_count: old(self).spec_output_count(),
                    },
                ),
            ),
            final(self).spec_id() == old(self).spec_id(),
            final(self).spec_output_count() == old(self).spec_output_count(),
    {
        let connection = Connection::new(self.id, node.id, self.output_count);
        self.send(Command::AddConnection(connection));
    }

    /// Connect `channel_count` channels of this node, from
    /// `source_output_channel` on, to the inputs of `node`, from
    /// `destination_input_channel` on
    pub fn connect_channels_to(
        &mut self,
        node: &GraphNode<P, Q>,
        source_output_channel: usize,
        destination_input_channel: usize,
        channel_count: usize,
    )
        ensures
            final(self).sent_commands() == old(self).sent_commands().push(
                Command::AddConnection(
                    Connection {
                        source: Endpoint { dsp_id: old(self).spec_id(), endpoint_type: EndpointType::Output },
                        source_output_channel,
                        destination: Endpoint { dsp_id: node.spec_id(), endpoint_type: EndpointType::Input },
                        destination_input_channel,
                        channel_count,
                    },
                ),
            ),
            final(self).spec_id() == old(self).spec_id(),
            final(self).spec_output_count() == old(self).spec_output_count(),
    {
        let connection = Connection::new(self.id, node.id, channel_count).with_source_output_channel(
            source_output_channel,
        ).with_destination_input_channel(destination_input_channel);
        self.send(Command::AddConnection(connection));
    }

    /// Disconnect the output of this node from the input of the node with
    /// `id`
    fn disconnect_from_id(&mut self, id: Id)
        ensures
            final(self).sent_commands() == old(self).sent_commands().push(
                Command::RemoveConnection(
                    Connection {
                        source: Endpoint { dsp_id: old(self).spec_id(), endpoint_type: EndpointType::Output },
                        source_output_channel: 0,
                        destination: Endpoint { dsp_id: id, endpoint_type: EndpointType::Input },
                        destination_input_channel: 0,
                        channel_count: old(self).spec_output_count(),
                    },
                ),
            ),
            final(self).spec_id() == old(self).spec_id(),
            final(self).spec_output_count() == old(self).spec_output_count(),
    {
        let connection = Connection::new(self.id, id, self.output_count);
        self.send(Command::RemoveConnection(connection));
    }

    /// Disconnect the output of this node from the input of `node`
    pub fn disconnect_from_node(&mut self, node: &GraphNode<P, Q>)
        ensures
            final(self).sent_commands() == old(self).sent_commands().push(
                Command::RemoveConnection(
                    Connection {
                        source: Endpoint { dsp_id: old(self).spec_id(), endpoint_type: EndpointType::Output },
                        source_output_channel: 0,
                        destination: Endpoint { dsp_id: node.spec_id(), endpoint_type: EndpointType::Input },
                        destination_input_channel: 0,
                        channel_count: old(self).spec_output_count(),
                    },
                ),
            ),
            final(self).spec_id() == old(self).spec_id(),
            final(self).spec_output_count() == old(self).spec_output_count(),
    {
        self.disconnect_from_id(node.id);
    }

    /// Remove this node's DSP node from the audio graph, as the node goes
    /// away
    pub fn remove_from_audio_process(&mut self)
        ensures
            final(self).sent_commands() == old(self).sent_commands().push(Command::RemoveDsp(old(self).spec_id())),
            final(self).spec_id() == old(self).spec_id(),
            final(self).spec_output_count() == old(self).spec_output_count(),
    {
        let id = self.id;
        self.send(Command::RemoveDsp(id));
    }
}

} // verus!

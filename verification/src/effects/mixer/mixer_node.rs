use vstd::prelude::*;

use crate::channel::{event_channel, send_message, EventReceiver, EventTransmitter};
use crate::engine::Command;
use crate::graph::{Dsp, GraphNode};
use crate::id::Id;

use super::mixer_matrix::{filled_levels, MixerMatrix};

verus! {

/// The number of matrices that the channel to the audio thread holds
pub const EVENT_CHANNEL_CAPACITY: usize = 32;

/// A node that mixes between its input and output channels; `P` is the type
/// of the processor in the graph, `Q` that of its parameters, and `L` the
/// type of a level
///
/// It can change the number of channels in the graph (mono to stereo, for
/// example). Each change of a level hands the whole matrix to the processor,
/// which takes it at the start of a block.
#[verifier::reject_recursive_types(P)]
#[verifier::reject_recursive_types(Q)]
#[verifier::reject_recursive_types(L)]
pub struct Mixer<P, Q, L> {
    /// The node to connect to the audio graph
    pub node: GraphNode<P, Q>,
    /// The matrix for how the inputs are mixed into the outputs
    pub gain_matrix: MixerMatrix<L>,
    event_transmitter: EventTransmitter<MixerMatrix<L>>,
}

/// The levels of each matrix in `matrices`
pub open spec fn matrix_levels<L>(matrices: Seq<MixerMatrix<L>>) -> Seq<Seq<Seq<L>>> {
    matrices.map_values(|matrix: MixerMatrix<L>| matrix.levels())
}

/// Whether `after` is `before` with a level of `level` at `input` in
/// `output`
pub open spec fn level_set<L>(before: Seq<Seq<L>>, after: Seq<Seq<L>>, input: int, output: int, level: L) -> bool {
    after == before.update(output, before[output].update(input, level))
}

impl<P, Q, L: Copy> Mixer<P, Q, L> {
    /// The node
    pub closed spec fn spec_node(&self) -> GraphNode<P, Q> {
        self.node
    }

    /// The matrix for how the inputs are mixed into the outputs
    pub closed spec fn spec_gain_matrix(&self) -> MixerMatrix<L> {
        self.gain_matrix
    }

    /// The matrices handed to the channel to the node's processor, in order
    pub closed spec fn sent_matrices(&self) -> Seq<MixerMatrix<L>> {
        self.event_transmitter.sent()
    }

    /// Create a mixer of `input_count` inputs and `output_count` outputs,
    /// with every level `zero_level`, and add it, with id `id`, to the graph
    /// that `command_queue` feeds
    ///
    /// `create_processor` receives the end of the channel on which the
    /// processor takes its matrices, and builds the processor that the graph
    /// runs; the node runs it with `parameters`.
    pub fn new<F: FnOnce(EventReceiver<MixerMatrix<L>>) -> P>(
        id: Id,
        command_queue: EventTransmitter<Command<Box<Dsp<P, Q>>>>,
        input_count: usize,
        output_count: usize,
        zero_level: L,
        create_processor: F,
        parameters: Q,
    ) -> (mixer: Self)
        requires
            forall|receiver: EventReceiver<MixerMatrix<L>>| create_processor.requires((receiver,)),
        ensures
            mixer.spec_gain_matrix().spec_input_count() == input_count,
            mixer.spec_gain_matrix().levels() == filled_levels(input_count as nat, output_count as nat, zero_level),
            mixer.sent_matrices() == Seq::<MixerMatrix<L>>::empty(),
            mixer.spec_node().spec_id() == id,
            mixer.spec_node().spec_output_count() == output_count,
            mixer.spec_node().sent_commands().len() == command_queue.sent().len() + 1,
            mixer.spec_node().sent_commands().drop_last() == command_queue.sent(),
            mixer.spec_node().sent_commands().last() matches Command::AddDsp(dsp) && {
                &&& dsp.spec_id() == id
                &&& dsp.spec_input_count() == input_count
                &&& dsp.spec_output_count() == output_count
                &&& dsp.spec_parameters() == parameters
                &&& exists|receiver: EventReceiver<MixerMatrix<L>>| create_processor.ensures((receiver,), dsp.spec_processor())
            },
    {
        let gain_matrix = MixerMatrix::filled(input_count, output_count, zero_level);
        let (event_transmitter, event_receiver) = event_channel(EVENT_CHANNEL_CAPACITY);
        let ghost receiver = event_receiver;
        let processor = create_processor(event_receiver);
        assert(create_processor.ensures((receiver,), processor));
        let node = GraphNode::new(id, command_queue, input_count, output_count, processor, parameters);
        Self { node, gain_matrix, event_transmitter }
    }

    /// Set the level of `input_channel` in `output_channel`, and hand the
    /// whole matrix to the processor
    pub fn set_level(&mut self, input_channel: usize, output_channel: usize, level: L)
        requires
            input_channel < old(self).spec_gain_matrix().spec_input_count(),
            output_channel < old(self).spec_gain_matrix().levels().len(),
        ensures
            final(self).spec_gain_matrix().spec_input_count() == old(self).spec_gain_matrix().spec_input_count(),
            level_set(
                old(self).spec_gain_matrix().levels(),
                final(self).spec_gain_matrix().levels(),
                input_channel as int,
                output_channel as int,
                level,
            ),
            final(self).sent_matrices().len() == old(self).sent_matrices().len() + 1,
            matrix_levels(final(self).sent_matrices()) == matrix_levels(old(self).sent_matrices()).push(
                final(self).spec_gain_matrix().levels(),
            ),
            final(self).spec_node() == old(self).spec_node(),
    {
        self.gain_matrix.set_level(input_channel, output_channel, level);
        let copy = self.gain_matrix.duplicate();
        let _ = send_message(&mut self.event_transmitter, copy);
        proof {
            assert(matrix_levels(self.sent_matrices()) =~= matrix_levels(old(self).sent_matrices()).push(
                self.gain_matrix.levels(),
            ));
        }
    }

    /// Create a mixer from one input to two outputs that copies the input to
    /// both at `unity_level`, and add it, with id `id`, to the graph that
    /// `command_queue` feeds
    pub fn mono_to_stereo_splitter<F: FnOnce(EventReceiver<MixerMatrix<L>>) -> P>(
        id: Id,
        command_queue: EventTransmitter<Command<Box<Dsp<P, Q>>>>,
        zero_level: L,
        unity_level: L,
        create_processor: F,
        parameters: Q,
    ) -> (mixer: Self)
        requires
            forall|receiver: EventReceiver<MixerMatrix<L>>| create_processor.requires((receiver,)),
        ensures
            mixer.spec_gain_matrix().spec_input_count() == 1,
            mixer.spec_gain_matrix().levels() == seq![seq![unity_level], seq![unity_level]],
            matrix_levels(mixer.sent_matrices()) == seq![
                seq![seq![unity_level], seq![zero_level]],
                seq![seq![unity_level], seq![unity_level]],
            ],
            mixer.spec_node().spec_id() == id,
            mixer.spec_node().spec_output_count() == 2,
            mixer.spec_node().sent_commands().drop_last() == command_queue.sent(),
            mixer.spec_node().sent_commands().last() matches Command::AddDsp(dsp) && {
                &&& dsp.spec_id() == id
                &&& dsp.spec_input_count() == 1
                &&& dsp.spec_output_count() == 2
                &&& dsp.spec_parameters() == parameters
            },
    {
        let mut mixer = Self::new(id, command_queue, 1, 2, zero_level, create_processor, parameters);
        assert(mixer.spec_gain_matrix().levels() =~~= seq![seq![zero_level], seq![zero_level]]);
        mixer.set_level(0, 0, unity_level);
        assert(mixer.spec_gain_matrix().levels() =~~= seq![seq![unity_level], seq![zero_level]]);
        mixer.set_level(0, 1, unity_level);
        assert(mixer.spec_gain_matrix().levels() =~~= seq![seq![unity_level], seq![unity_level]]);
        assert(matrix_levels(mixer.sent_matrices()) =~~= seq![
            seq![seq![unity_level], seq![zero_level]],
            seq![seq![unity_level], seq![unity_level]],
        ]);
        mixer
    }

    /// Create a mixer of `channel_count` inputs and outputs that passes each
    /// channel through at `unity_level`, and add it, with id `id`, to the
    /// graph that `command_queue` feeds
    ///
    /// The matrix is handed to the processor once per channel, as each
    /// channel's level is set.
    pub fn unity<F: FnOnce(EventReceiver<MixerMatrix<L>>) -> P>(
        id: Id,
        command_queue: EventTransmitter<Command<Box<Dsp<P, Q>>>>,
        channel_count: usize,
        zero_level: L,
        unity_level: L,
        create_processor: F,
        parameters: Q,
    ) -> (mixer: Self)
        requires
            forall|receiver: EventReceiver<MixerMatrix<L>>| create_processor.requires((receiver,)),
        ensures
            mixer.spec_gain_matrix().spec_input_count() == channel_count,
            mixer.spec_gain_matrix().levels() == Seq::new(
                channel_count as nat,
                |output: int| Seq::new(channel_count as nat, |input: int| if input == output { unity_level } else { zero_level }),
            ),
            mixer.sent_matrices().len() == channel_count,
            channel_count > 0 ==> matrix_levels(mixer.sent_matrices()).last() == mixer.spec_gain_matrix().levels(),
            mixer.spec_node().spec_id() == id,
            mixer.spec_node().spec_output_count() == channel_count,
            mixer.spec_node().sent_commands().drop_last() == command_queue.sent(),
            mixer.spec_node().sent_commands().last() matches Command::AddDsp(dsp) && {
                &&& dsp.spec_id() == id
                &&& dsp.spec_input_count() == channel_count
                &&& dsp.spec_output_count() == channel_count
                &&& dsp.spec_parameters() == parameters
            },
    {
        let mut mixer = Self::new(id, command_queue, channel_count, channel_count, zero_level, create_processor, parameters);
        assert(mixer.gain_matrix.levels() =~~= Seq::new(
            channel_count as nat,
            |output: int| Seq::new(
                channel_count as nat,
                |input: int| if input == output && output < 0 { unity_level } else { zero_level },
            ),
        ));
        let ghost node = mixer.spec_node();
        let mut channel: usize = 0;
        while channel < channel_count
            invariant
                channel <= channel_count,
                mixer.spec_node() == node,
                mixer.spec_gain_matrix().spec_input_count() == channel_count,
                mixer.spec_gain_matrix().levels() == Seq::new(
                    channel_count as nat,
                    |output: int| Seq::new(
                        channel_count as nat,
                        |input: int| if input == output && output < channel { unity_level } else { zero_level },
                    ),
                ),
                mixer.sent_matrices().len() == channel,
                channel > 0 ==> matrix_levels(mixer.sent_matrices()).last() == mixer.spec_gain_matrix().levels(),
            decreases channel_count - channel,
        {
            let ghost before = mixer.gain_matrix.levels();
            mixer.set_level(channel, channel, unity_level);
            proof {
                let after = mixer.gain_matrix.levels();
                assert(after.len() == channel_count);
                assert forall|o: int| 0 <= o < channel_count implies (#[trigger] after[o]) =~= Seq::new(
                    channel_count as nat,
                    |input: int| if input == o && o < channel + 1 { unity_level } else { zero_level },
                ) by {
                    if o == channel {
                        assert(after[o] == before[o].update(channel as int, unity_level));
                    } else {
                        assert(after[o] == before[o]);
                    }
                }
                assert(mixer.spec_gain_matrix().levels() =~= Seq::new(
                    channel_count as nat,
                    |output: int| Seq::new(
                        channel_count as nat,
                        |input: int| if input == output && output < channel + 1 { unity_level } else { zero_level },
                    ),
                ));
            }
            channel = channel + 1;
        }
        proof {
            let levels = mixer.gain_matrix.levels();
            assert forall|o: int| 0 <= o < channel_count implies (#[trigger] levels[o]) =~= Seq::new(
                channel_count as nat,
                |input: int| if input == o { unity_level } else { zero_level },
            ) by {
                assert(levels[o] == Seq::new(
                    channel_count as nat,
                    |input: int| if input == o && o < channel { unity_level } else { zero_level },
                ));
            }
            assert(levels =~= Seq::new(
                channel_count as nat,
                |output: int| Seq::new(channel_count as nat, |input: int| if input == output { unity_level } else { zero_level }),
            ));
        }
        mixer
    }
}

} // verus!

use vstd::prelude::*;

use crate::channel::{event_channel, send_message, EventTransmitter, MAX_CHANNEL_CAPACITY};
use crate::engine::Command;
use crate::graph::{Dsp, GraphNode};
use crate::id::Id;
use crate::timestamp::Timestamp;

use super::sampler_event::{SampleEventType, SamplerEvent};
use super::sampler_processor::{FADE_LENGTH_MILLISECONDS, SamplerDspProcess};
use super::sampler_voice::Phase;

verus! {

/// The number of events that the channel to the audio thread holds
pub const EVENT_CHANNEL_CAPACITY: usize = 32;

/// Whether `after` is `before` with one more event, scheduled at `time` (in
/// ticks) to do `event_type`
pub open spec fn appended_event(
    before: Seq<SamplerEvent>,
    after: Seq<SamplerEvent>,
    time: i64,
    event_type: SampleEventType,
) -> bool {
    &&& after.len() == before.len() + 1
    &&& after.drop_last() =~= before
    &&& after.last().spec_event_time()@ == time
    &&& after.last().spec_event_type() == event_type
}

/// Whether `process` is a sampler processor as `SamplerDspProcess::new`
/// creates it
pub open spec fn is_fresh_process(process: SamplerDspProcess, sample_rate: usize, sample_frame_count: usize) -> bool {
    &&& process.wf()
    &&& process.spec_fade_length() == (sample_rate * FADE_LENGTH_MILLISECONDS + 999) / 1000
    &&& process.spec_sample_frame_count() == sample_frame_count
    &&& process.spec_sample_rate() == sample_rate
    &&& process@.voices == seq![(0usize, Phase::Stopped), (0usize, Phase::Stopped)]
    &&& process@.active_voice.is_none()
    &&& process@.loop_points.is_none()
    &&& process@.position == 0
    &&& process@.start_position_in_sample == 0
    &&& process@.completed_loops == 0
    &&& process.pending_events() == Seq::<SamplerEvent>::empty()
}

/// Whether `node` is `before` with the sampler's DSP node added to the
/// graph: id `id`, no input, `channel_count` outputs, a processor that
/// `create_processor` builds from a fresh sampler processor, and `parameters`
pub open spec fn adds_sampler_dsp<P, Q, F: FnOnce(SamplerDspProcess) -> P>(
    node: GraphNode<P, Q>,
    before: Seq<Command<Box<Dsp<P, Q>>>>,
    id: Id,
    channel_count: usize,
    sample_rate: usize,
    sample_frame_count: usize,
    create_processor: F,
    parameters: Q,
) -> bool {
    &&& node.spec_id() == id
    &&& node.spec_output_count() == channel_count
    &&& node.sent_commands().len() == before.len() + 1
    &&& node.sent_commands().drop_last() == before
    &&& node.sent_commands().last() matches Command::AddDsp(dsp) && {
        &&& dsp.spec_id() == id
        &&& dsp.spec_input_count() == 0
        &&& dsp.spec_output_count() == channel_count
        &&& dsp.spec_parameters() == parameters
        &&& exists|process: SamplerDspProcess|
            is_fresh_process(process, sample_rate, sample_frame_count) && create_processor.ensures(
                (process,),
                dsp.spec_processor(),
            )
    }
}

/// A node that can play or loop a sample
///
/// The node hands timed events to its processor on the audio thread, which
/// turns them into playback; `P` is the type of the processor in the graph
/// and `Q` that of its parameters.
#[verifier::reject_recursive_types(P)]
#[verifier::reject_recursive_types(Q)]
pub struct Sampler<P, Q> {
    /// The node to connect to the audio graph
    pub node: GraphNode<P, Q>,
    event_transmitter: EventTransmitter<SamplerEvent>,
}

impl<P, Q> Sampler<P, Q> {
    /// The node
    pub closed spec fn spec_node(&self) -> GraphNode<P, Q> {
        self.node
    }

    /// The events handed to the channel to the sampler's processor, in order
    pub closed spec fn sent_events(&self) -> Seq<SamplerEvent> {
        self.event_transmitter.sent()
    }

    /// Create a sampler for a sample of `sample_frame_count` frames and
    /// `channel_count` channels at `sample_rate`, whose event channel holds
    /// `capacity` events, and add its node, with id `id`, to the graph that
    /// `command_queue` feeds
    ///
    /// `create_processor` turns the sampler's processor into the processor
    /// that the graph runs; the node runs it with `parameters`.
    pub fn new_with_event_capacity<F: FnOnce(SamplerDspProcess) -> P>(
        id: Id,
        command_queue: EventTransmitter<Command<Box<Dsp<P, Q>>>>,
        sample_rate: usize,
        sample_frame_count: usize,
        channel_count: usize,
        capacity: usize,
        create_processor: F,
        parameters: Q,
    ) -> (sampler: Self)
        requires
            sample_rate > 0,
            capacity <= MAX_CHANNEL_CAPACITY,
            forall|process: SamplerDspProcess| create_processor.requires((process,)),
        ensures
            sampler.sent_events() == Seq::<SamplerEvent>::empty(),
            adds_sampler_dsp(
                sampler.spec_node(),
                command_queue.sent(),
                id,
                channel_count,
                sample_rate,
                sample_frame_count,
                create_processor,
                parameters,
            ),
    {
        let (event_transmitter, event_receiver) = event_channel(capacity);
        let process = SamplerDspProcess::new(sample_rate, sample_frame_count, event_receiver);
        let ghost created = process;
        let processor = create_processor(process);
        let ghost before = command_queue.sent();
        let node = GraphNode::new(id, command_queue, 0, channel_count, processor, parameters);
        assert(is_fresh_process(created, sample_rate, sample_frame_count));
        let sampler = Self { node, event_transmitter };
        assert(adds_sampler_dsp(
            sampler.spec_node(),
            before,
            id,
            channel_count,
            sample_rate,
            sample_frame_count,
            create_processor,
            parameters,
        ));
        sampler
    }

    /// Create a sampler for a sample of `sample_frame_count` frames and
    /// `channel_count` channels at `sample_rate`, and add its node, with id
    /// `id`, to the graph that `command_queue` feeds
    pub fn new<F: FnOnce(SamplerDspProcess) -> P>(
        id: Id,
        command_queue: EventTransmitter<Command<Box<Dsp<P, Q>>>>,
        sample_rate: usize,
        sample_frame_count: usize,
        channel_count: usize,
        create_processor: F,
        parameters: Q,
    ) -> (sampler: Self)
        requires
            sample_rate > 0,
            forall|process: SamplerDspProcess| create_processor.requires((process,)),
        ensures
            sampler.sent_events() == Seq::<SamplerEvent>::empty(),
            adds_sampler_dsp(
                sampler.spec_node(),
                command_queue.sent(),
                id,
                channel_count,
                sample_rate,
                sample_frame_count,
                create_processor,
                parameters,
            ),
    {
        Self::new_with_event_capacity(
            id,
            command_queue,
            sample_rate,
            sample_frame_count,
            channel_count,
            EVENT_CHANNEL_CAPACITY,
            create_processor,
            parameters,
        )
    }

    /// Hand `event` to the processor
    fn send_event(&mut self, event: SamplerEvent)
        ensures
            final(self).sent_events() == old(self).sent_events().push(event),
            final(self).spec_node() == old(self).spec_node(),
    {
        let _ = send_message(&mut self.event_transmitter, event);
    }

    /// Start the sampler playing
    pub fn start_now(&mut self)
        ensures
            appended_event(old(self).sent_events(), final(self).sent_events(), 0, SampleEventType::StartImmediate),
            final(self).spec_node() == old(self).spec_node(),
    {
        self.send_event(SamplerEvent::start_now());
    }

    /// Stop the sampler playing
    pub fn stop_now(&mut self)
        ensures
            appended_event(old(self).sent_events(), final(self).sent_events(), 0, SampleEventType::Stop),
            final(self).spec_node() == old(self).spec_node(),
    {
        self.send_event(SamplerEvent::stop_now());
    }

    /// Start from the specified time, at the specified position in the sample
    pub fn start_from_position_at_time(&mut self, start_time: Timestamp, position_in_sample: Timestamp)
        ensures
            appended_event(
                old(self).sent_events(),
                final(self).sent_events(),
                start_time@,
                SampleEventType::Start(position_in_sample),
            ),
            final(self).spec_node() == old(self).spec_node(),
    {
        self.send_event(SamplerEvent::start(start_time, position_in_sample));
    }

    /// Stop at the specified time
    pub fn stop_at_time(&mut self, stop_time: Timestamp)
        ensures
            appended_event(old(self).sent_events(), final(self).sent_events(), stop_time@, SampleEventType::Stop),
            final(self).spec_node() == old(self).spec_node(),
    {
        self.send_event(SamplerEvent::stop(stop_time));
    }

    /// Enable looping between `loop_start` and `loop_end`, positions in the
    /// sample: on reaching `loop_end`, playback goes back to `loop_start`
    pub fn enable_loop(&mut self, loop_start: Timestamp, loop_end: Timestamp)
        ensures
            appended_event(
                old(self).sent_events(),
                final(self).sent_events(),
                0,
                SampleEventType::EnableLoop(loop_start, loop_end),
            ),
            final(self).spec_node() == old(self).spec_node(),
    {
        self.send_event(SamplerEvent::enable_loop(loop_start, loop_end));
    }

    /// Cancel a loop
    ///
    /// This clears the loop points; playback finishes at the end of the sample
    pub fn cancel_loop(&mut self)
        ensures
            appended_event(old(self).sent_events(), final(self).sent_events(), 0, SampleEventType::CancelLoop),
            final(self).spec_node() == old(self).spec_node(),
    {
        self.send_event(SamplerEvent::cancel_loop());
    }

    /// Cancel all scheduled events that haven't occurred yet
    pub fn cancel_all(&mut self)
        ensures
            appended_event(old(self).sent_events(), final(self).sent_events(), 0, SampleEventType::CancelAll),
            final(self).spec_node() == old(self).spec_node(),
    {
        self.send_event(SamplerEvent::cancel_all());
    }

    /// Enable looping between `loop_start` and `loop_end` from
    /// `enable_at_time` on
    pub fn enable_loop_at_time(&mut self, enable_at_time: Timestamp, loop_start: Timestamp, loop_end: Timestamp)
        ensures
            appended_event(
                old(self).sent_events(),
                final(self).sent_events(),
                enable_at_time@,
                SampleEventType::EnableLoop(loop_start, loop_end),
            ),
            final(self).spec_node() == old(self).spec_node(),
    {
        self.send_event(SamplerEvent::enable_loop_at_time(enable_at_time, loop_start, loop_end));
    }

    /// Cancel the loop at `cancel_time`
    pub fn cancel_loop_at_time(&mut self, cancel_time: Timestamp)
        ensures
            appended_event(
                old(self).sent_events(),
                final(self).sent_events(),
                cancel_time@,
                SampleEventType::CancelLoop,
            ),
            final(self).spec_node() == old(self).spec_node(),
    {
        self.send_event(SamplerEvent::cancel_loop_at_time(cancel_time));
    }
}

} // verus!

use vstd::prelude::*;

use crate::buffer::{extend_frames, min_nat, prefix_frames, FrameBuffer, Frames};
use crate::channel::{drain_messages, event_channel, send_message, EventReceiver, EventTransmitter};
use crate::engine::Command;
use crate::graph::{Dsp, GraphNode};
use crate::id::Id;
use crate::timestamp::Timestamp;

use super::recorder_event::{RecorderEvent, RecorderEventType};
use super::recorder_processor::{
    FrameCopy, RecorderNotice, RecorderNotification, RecorderProcessor, BUFFER_COUNT, BUFFER_SIZE,
};

verus! {

/// The number of events that the channel to the audio thread holds
pub const EVENT_CHANNEL_CAPACITY: usize = 32;

/// The number of notifications that the channel from the audio thread holds
pub const NOTIFICATION_CHANNEL_CAPACITY: usize = 32;

/// Whether the recorder is recording after the notifications, starting from
/// `recording`: the last start or stop decides
pub open spec fn recording_after<B>(recording: bool, notifications: Seq<RecorderNotification<B>>) -> bool
    decreases notifications.len(),
{
    if notifications.len() == 0 {
        recording
    } else {
        match notifications.last() {
            RecorderNotification::Start => true,
            RecorderNotification::Stop => false,
            RecorderNotification::Data(_, _) => recording_after(recording, notifications.drop_last()),
        }
    }
}

/// The recording after the first `frame_count` frames of `buffer` are added
/// to it; a recording that could not count its frames in a `usize` stays as
/// it is
pub open spec fn appended_recording<S>(recording: Option<Frames<S>>, buffer: Frames<S>, frame_count: int) -> Option<Frames<S>> {
    match recording {
        None => Some(prefix_frames(buffer, frame_count)),
        Some(frames) => if frames.frame_count + min_nat(frame_count, buffer.frame_count as int) <= usize::MAX {
            Some(extend_frames(frames, buffer, frame_count))
        } else {
            Some(frames)
        },
    }
}

/// The recording after the notifications: the first frames of each buffer
/// of audio they carry, as many as it reports, added in order
pub open spec fn recorded_after<S>(
    recording: Option<Frames<S>>,
    notifications: Seq<RecorderNotification<FrameBuffer<S>>>,
) -> Option<Frames<S>>
    decreases notifications.len(),
{
    if notifications.len() == 0 {
        recording
    } else {
        let before = recorded_after(recording, notifications.drop_last());
        match notifications.last() {
            RecorderNotification::Data(buffer, frame_count) => appended_recording(before, buffer@, frame_count as int),
            _ => before,
        }
    }
}

/// The buffers that the notifications carry, in order
pub open spec fn carried_buffers<B>(notifications: Seq<RecorderNotification<B>>) -> Seq<B>
    decreases notifications.len(),
{
    if notifications.len() == 0 {
        Seq::empty()
    } else {
        let rest = carried_buffers(notifications.drop_last());
        match notifications.last() {
            RecorderNotification::Data(buffer, _) => rest.push(buffer),
            _ => rest,
        }
    }
}

/// Whether `after` is `before` followed by one event that hands back each of
/// `buffers`, in order, as soon as possible
pub open spec fn returned_in_order<B>(before: Seq<RecorderEvent<B>>, after: Seq<RecorderEvent<B>>, buffers: Seq<B>) -> bool {
    &&& after.len() == before.len() + buffers.len()
    &&& after.take(before.len() as int) =~= before
    &&& forall|i: int|
        0 <= i < buffers.len() ==> {
            &&& (#[trigger] after[before.len() + i]).time@ == 0
            &&& after[before.len() + i].event_type == RecorderEventType::ReturnBuffer(buffers[i])
        }
}

/// Whether `process` is a recorder processor as `RecorderProcessor::new`
/// creates it, with nothing sent yet
pub open spec fn is_fresh_recorder<S: Copy + Default>(process: RecorderProcessor<S>, channel_count: usize, sample_rate: usize) -> bool {
    &&& process.wf()
    &&& process.spec_sample_rate() == sample_rate
    &&& process.pending_events() == Seq::<RecorderEvent<FrameBuffer<S>>>::empty()
    &&& !process@.recording
    &&& process@.position == 0
    &&& process@.pool.len() == BUFFER_COUNT
    &&& forall|i: int|
        0 <= i < BUFFER_COUNT ==> {
            let buffer = #[trigger] process@.pool[i];
            &&& buffer.frame_count == BUFFER_SIZE
            &&& buffer.channels.len() == channel_count
            &&& buffer.sample_rate == sample_rate
        }
    &&& process@.current.frame_count == BUFFER_SIZE
    &&& process@.current.channels.len() == channel_count
    &&& process@.current.sample_rate == sample_rate
    &&& process@.notices == Seq::<RecorderNotice<S>>::empty()
    &&& process@.copies == Seq::<FrameCopy>::empty()
}

/// A node that records its input; `P` is the type of the processor in the
/// graph, `Q` that of its parameters, and `S` that of a sample
///
/// The recorder node doesn't produce output so should be at the end of the
/// chain. Call `take_recording()` to get the recording from the node.
#[verifier::reject_recursive_types(P)]
#[verifier::reject_recursive_types(Q)]
#[verifier::reject_recursive_types(S)]
pub struct Recorder<P, Q, S> {
    /// The node to connect to the audio graph
    pub node: GraphNode<P, Q>,
    event_transmitter: EventTransmitter<RecorderEvent<FrameBuffer<S>>>,
    notification_receiver: EventReceiver<RecorderNotification<FrameBuffer<S>>>,
    current_recording: Option<FrameBuffer<S>>,
    is_recording: bool,
}

impl<P, Q, S: Copy + Default> Recorder<P, Q, S> {
    /// The node
    pub closed spec fn spec_node(&self) -> GraphNode<P, Q> {
        self.node
    }

    /// The events handed to the channel to the processor, in order
    pub closed spec fn sent_events(&self) -> Seq<RecorderEvent<FrameBuffer<S>>> {
        self.event_transmitter.sent()
    }

    /// Whether the processor has reported that it is recording
    pub closed spec fn spec_is_recording(&self) -> bool {
        self.is_recording
    }

    /// The audio recorded since the recording was last taken, if any
    pub closed spec fn spec_recording(&self) -> Option<Frames<S>> {
        match self.current_recording {
            Some(buffer) => Some(buffer@),
            None => None,
        }
    }

    /// Create a recorder of `channel_count` channels at `sample_rate`, and
    /// add its node, with id `id`, `channel_count` inputs and no output, to
    /// the graph that `command_queue` feeds
    ///
    /// `create_processor` turns the recorder's processor into the processor
    /// that the graph runs; the node runs it with `parameters`.
    pub fn new<F: FnOnce(RecorderProcessor<S>) -> P>(
        id: Id,
        command_queue: EventTransmitter<Command<Box<Dsp<P, Q>>>>,
        channel_count: usize,
        sample_rate: usize,
        create_processor: F,
        parameters: Q,
    ) -> (recorder: Self)
        requires
            sample_rate > 0,
            forall|process: RecorderProcessor<S>| create_processor.requires((process,)),
        ensures
            !recorder.spec_is_recording(),
            recorder.spec_recording().is_none(),
            recorder.sent_events() == Seq::<RecorderEvent<FrameBuffer<S>>>::empty(),
            recorder.spec_node().spec_id() == id,
            recorder.spec_node().spec_output_count() == 0,
            recorder.spec_node().sent_commands().len() == command_queue.sent().len() + 1,
            recorder.spec_node().sent_commands().drop_last() == command_queue.sent(),
            recorder.spec_node().sent_commands().last() matches Command::AddDsp(dsp) && {
                &&& dsp.spec_id() == id
                &&& dsp.spec_input_count() == channel_count
                &&& dsp.spec_output_count() == 0
                &&& dsp.spec_parameters() == parameters
                &&& exists|process: RecorderProcessor<S>|
                    is_fresh_recorder(process, channel_count, sample_rate) && create_processor.ensures(
                        (process,),
                        dsp.spec_processor(),
                    )
            },
    {
        let (event_transmitter, event_receiver) = event_channel(EVENT_CHANNEL_CAPACITY);
        let (notification_transmitter, notification_receiver) = event_channel(NOTIFICATION_CHANNEL_CAPACITY);
        let process = RecorderProcessor::new(sample_rate, channel_count, event_receiver, notification_transmitter);
        let ghost created = process;
        assert(created@.notices =~= Seq::<RecorderNotice<S>>::empty());
        assert(is_fresh_recorder(created, channel_count, sample_rate));
        let processor = create_processor(process);
        let node = GraphNode::new(id, command_queue, channel_count, 0, processor, parameters);
        Self { node, event_transmitter, notification_receiver, current_recording: None, is_recording: false }
    }

    /// Hand `event` to the processor
    fn send_event(&mut self, event: RecorderEvent<FrameBuffer<S>>)
        ensures
            final(self).sent_events() == old(self).sent_events().push(event),
            final(self).spec_node() == old(self).spec_node(),
            final(self).spec_is_recording() == old(self).spec_is_recording(),
            final(self).spec_recording() == old(self).spec_recording(),
    {
        let _ = send_message(&mut self.event_transmitter, event);
    }

    /// Start recording
    pub fn record_now(&mut self)
        ensures
            final(self).sent_events().len() == old(self).sent_events().len() + 1,
            final(self).sent_events().drop_last() == old(self).sent_events(),
            final(self).sent_events().last().time@ == 0,
            final(self).sent_events().last().event_type is Start,
            final(self).spec_node() == old(self).spec_node(),
            final(self).spec_is_recording() == old(self).spec_is_recording(),
            final(self).spec_recording() == old(self).spec_recording(),
    {
        self.send_event(RecorderEvent::start_now());
    }

    /// Stop recording
    pub fn stop_record_now(&mut self)
        ensures
            final(self).sent_events().len() == old(self).sent_events().len() + 1,
            final(self).sent_events().drop_last() == old(self).sent_events(),
            final(self).sent_events().last().time@ == 0,
            final(self).sent_events().last().event_type is Stop,
            final(self).spec_node() == old(self).spec_node(),
            final(self).spec_is_recording() == old(self).spec_is_recording(),
            final(self).spec_recording() == old(self).spec_recording(),
    {
        self.send_event(RecorderEvent::stop_now());
    }

    /// Stop recording at a particular time
    pub fn stop_record_at_time(&mut self, time: Timestamp)
        ensures
            final(self).sent_events().len() == old(self).sent_events().len() + 1,
            final(self).sent_events().drop_last() == old(self).sent_events(),
            final(self).sent_events().last().time == time,
            final(self).sent_events().last().event_type is Stop,
            final(self).spec_node() == old(self).spec_node(),
            final(self).spec_is_recording() == old(self).spec_is_recording(),
            final(self).spec_recording() == old(self).spec_recording(),
    {
        self.send_event(RecorderEvent::stop_at_time(time));
    }

    /// Query if the recorder is currently recording
    pub fn is_recording(&self) -> (recording: bool)
        ensures
            recording == self.spec_is_recording(),
    {
        self.is_recording
    }

    /// Take the current recording from the node
    ///
    /// This clears the recording.
    pub fn take_recording(&mut self) -> (recording: Option<FrameBuffer<S>>)
        ensures
            match recording {
                Some(buffer) => old(self).spec_recording() == Some(buffer@),
                None => old(self).spec_recording().is_none(),
            },
            final(self).spec_recording().is_none(),
            final(self).spec_is_recording() == old(self).spec_is_recording(),
            final(self).sent_events() == old(self).sent_events(),
            final(self).spec_node() == old(self).spec_node(),
    {
        self.current_recording.take()
    }

    /// Add the first `samples_used` frames of `buffer` to the recording
    fn append_buffer(&mut self, buffer: &FrameBuffer<S>, samples_used: usize)
        ensures
            final(self).spec_recording() == appended_recording(old(self).spec_recording(), buffer@, samples_used as int),
            final(self).spec_is_recording() == old(self).spec_is_recording(),
            final(self).sent_events() == old(self).sent_events(),
            final(self).spec_node() == old(self).spec_node(),
    {
        let extended = match &self.current_recording {
            Some(current_recording) => {
                let ghost frames = current_recording@;
                assert(old(self).spec_recording() == Some(frames));
                match current_recording.extended_with(buffer, samples_used) {
                    Some(extended) => {
                        assert(extended@ == extend_frames(frames, buffer@, samples_used as int));
                        extended
                    },
                    None => {
                        return;
                    },
                }
            },
            None => buffer.prefix(samples_used),
        };
        self.current_recording = Some(extended);
    }

    /// Act on the notifications from the processor, in order: follow its
    /// starts and stops, add the audio of each buffer to the recording, and
    /// hand the buffer back
    pub fn handle_notifications(&mut self, notifications: Vec<RecorderNotification<FrameBuffer<S>>>)
        ensures
            final(self).spec_is_recording() == recording_after(old(self).spec_is_recording(), notifications@),
            final(self).spec_recording() == recorded_after(old(self).spec_recording(), notifications@),
            returned_in_order(old(self).sent_events(), final(self).sent_events(), carried_buffers(notifications@)),
            final(self).spec_node() == old(self).spec_node(),
    {
        let ghost all = notifications@;
        proof {
            assert(all.take(0) =~= Seq::<RecorderNotification<FrameBuffer<S>>>::empty());
        }
        for notification in iter: notifications
            invariant
                iter.seq() == all,
                self.spec_is_recording() == recording_after(old(self).spec_is_recording(), all.take(iter.index())),
                self.spec_recording() == recorded_after(old(self).spec_recording(), all.take(iter.index())),
                returned_in_order(old(self).sent_events(), self.sent_events(), carried_buffers(all.take(iter.index()))),
                self.spec_node() == old(self).spec_node(),
        {
            let ghost index = iter.index();
            let ghost before_sent = self.sent_events();
            proof {
                assert(all.take(index + 1).drop_last() =~= all.take(index));
                assert(all.take(index + 1).last() == notification);
            }
            match notification {
                RecorderNotification::Start => {
                    self.is_recording = true;
                },
                RecorderNotification::Data(buffer, samples_used) => {
                    self.append_buffer(&buffer, samples_used);
                    self.send_event(RecorderEvent::return_buffer(buffer));
                },
                RecorderNotification::Stop => {
                    self.is_recording = false;
                },
            }
            proof {
                let taken = all.take(index + 1);
                let buffers = carried_buffers(taken);
                let old_sent = old(self).sent_events();
                assert forall|i: int| 0 <= i < buffers.len() implies {
                    &&& (#[trigger] self.sent_events()[old_sent.len() + i]).time@ == 0
                    &&& self.sent_events()[old_sent.len() + i].event_type == RecorderEventType::ReturnBuffer(buffers[i])
                } by {
                    if i < carried_buffers(all.take(index as int)).len() {
                        assert(self.sent_events()[old_sent.len() + i] == before_sent[old_sent.len() + i]);
                    }
                }
                assert(self.sent_events().take(old_sent.len() as int) =~= old_sent);
            }
        }
        proof {
            assert(all.take(all.len() as int) =~= all);
        }
    }

    /// Read the notifications that the processor has sent, and act on them
    pub fn process_notifications(&mut self)
        ensures
            exists|notifications: Seq<RecorderNotification<FrameBuffer<S>>>| {
                &&& final(self).spec_is_recording() == recording_after(old(self).spec_is_recording(), notifications)
                &&& final(self).spec_recording() == recorded_after(old(self).spec_recording(), notifications)
                &&& #[trigger] returned_in_order(old(self).sent_events(), final(self).sent_events(), carried_buffers(notifications))
            },
            final(self).spec_node() == old(self).spec_node(),
    {
        let notifications = drain_messages(&self.notification_receiver);
        let ghost arrived = notifications@;
        self.handle_notifications(notifications);
        assert(returned_in_order(old(self).sent_events(), self.sent_events(), carried_buffers(arrived)));
    }
}

} // verus!

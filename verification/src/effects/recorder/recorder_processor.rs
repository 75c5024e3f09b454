use vstd::prelude::*;

use crate::buffer::{copy_frames, FrameBuffer, Frames};
use crate::channel::{send_message, EventReceiver, EventTransmitter};
use crate::effects::utility::{next_event_in_block, span_end, EventProcessor, EventProcessorEvent};
use crate::graph::BufferPool;
use crate::timestamp::{clamp_ticks, samples_to_ticks, Timestamp};

use super::recorder_event::{RecorderEvent, RecorderEventType};

verus! {

/// The number of events that can be pending before the queue grows
pub const MAX_PENDING_EVENTS: usize = 16;

/// The number of buffers that a recorder can fill before the node reads them
/// back
pub const BUFFER_COUNT: usize = 32;

/// The number of frames in each recording buffer
pub const BUFFER_SIZE: usize = 4096;

/// An instruction to copy `frame_count` frames of the input, from
/// `source_frame` on, into the recording buffer from `destination_frame` on
#[derive(Clone, Copy, PartialEq, Eq, Structural, Debug)]
pub struct FrameCopy {
    /// The first frame of the input
    pub source_frame: usize,
    /// The first frame of the recording buffer
    pub destination_frame: usize,
    /// The number of frames
    pub frame_count: usize,
}

/// What a recorder tells its node
pub enum RecorderNotification<B> {
    /// Recording has started
    Start,
    /// A buffer of recorded audio, and how many of its frames hold audio
    Data(B, usize),
    /// Recording has stopped
    Stop,
}

/// A notification as a mathematical value, its buffer taken by its view
pub enum RecorderNotice<S> {
    /// Recording has started
    Start,
    /// A buffer of recorded audio with that many frames of audio
    Data(Frames<S>, usize),
    /// Recording has stopped
    Stop,
}

/// A notification as a mathematical value
pub open spec fn notice_of<S>(notification: RecorderNotification<FrameBuffer<S>>) -> RecorderNotice<S> {
    match notification {
        RecorderNotification::Start => RecorderNotice::Start,
        RecorderNotification::Data(buffer, frame_count) => RecorderNotice::Data(buffer@, frame_count),
        RecorderNotification::Stop => RecorderNotice::Stop,
    }
}

/// The state of a recorder's processor that its events and input act on
pub struct RecorderState<S> {
    /// Whether the input is being recorded
    pub recording: bool,
    /// The number of frames recorded into the current buffer
    pub position: usize,
    /// The buffer being recorded into
    pub current: Frames<S>,
    /// The free buffers, the next one to be used last
    pub pool: Seq<Frames<S>>,
    /// Every notification handed to the channel to the node
    pub notices: Seq<RecorderNotice<S>>,
    /// Every copy made into a recording buffer
    pub copies: Seq<FrameCopy>,
}

/// The state after the current buffer is sent to the node and the next free
/// one takes its place; with no free buffer, nothing changes
pub open spec fn next_buffer_state<S>(state: RecorderState<S>) -> RecorderState<S> {
    if state.pool.len() > 0 {
        RecorderState {
            position: 0,
            current: state.pool.last(),
            pool: state.pool.drop_last(),
            notices: state.notices.push(RecorderNotice::Data(state.current, state.position)),
            ..state
        }
    } else {
        state
    }
}

/// The state after the input frames from `position` to `end` are recorded
///
/// A buffer is sent as soon as it is full. When it is full and no free buffer
/// is left, the rest of the frames are not recorded.
pub open spec fn record_frames<S>(state: RecorderState<S>, input: Frames<S>, position: int, end: int) -> RecorderState<S>
    decreases end - position, state.pool.len(),
{
    if !state.recording || position >= end {
        state
    } else if state.position >= state.current.frame_count {
        if state.pool.len() > 0 {
            record_frames(next_buffer_state(state), input, position, end)
        } else {
            state
        }
    } else {
        let space = state.current.frame_count - state.position;
        let count = if end - position < space {
            end - position
        } else {
            space
        };
        let copy = FrameCopy {
            source_frame: position as usize,
            destination_frame: state.position,
            frame_count: count as usize,
        };
        let copied = RecorderState {
            position: (state.position + count) as usize,
            current: copy_frames(state.current, input, copy),
            copies: state.copies.push(copy),
            ..state
        };
        let next = if copied.position >= copied.current.frame_count {
            next_buffer_state(copied)
        } else {
            copied
        };
        record_frames(next, input, position + count, end)
    }
}

/// The state after recording starts
pub open spec fn start_recording<S>(state: RecorderState<S>) -> RecorderState<S> {
    if state.recording {
        state
    } else {
        RecorderState { recording: true, notices: state.notices.push(RecorderNotice::Start), ..state }
    }
}

/// The state after recording stops: the partly filled buffer is sent first
pub open spec fn stop_recording<S>(state: RecorderState<S>) -> RecorderState<S> {
    if !state.recording {
        state
    } else {
        let sent = next_buffer_state(state);
        RecorderState { recording: false, notices: sent.notices.push(RecorderNotice::Stop), ..sent }
    }
}

/// The state after `event` takes effect
pub open spec fn apply_recorder_event<S>(state: RecorderState<S>, event: RecorderEvent<FrameBuffer<S>>) -> RecorderState<S> {
    match event.event_type {
        RecorderEventType::Start => start_recording(state),
        RecorderEventType::Stop => stop_recording(state),
        RecorderEventType::ReturnBuffer(buffer) => RecorderState { pool: state.pool.push(buffer@), ..state },
    }
}

/// Starting a recording that has already started changes nothing, and so
/// does stopping one that has already stopped
pub proof fn law_start_and_stop_are_idempotent<S>(state: RecorderState<S>)
    ensures
        start_recording(start_recording(state)) == start_recording(state),
        stop_recording(stop_recording(state)) == stop_recording(state),
        start_recording(state).recording,
        !stop_recording(state).recording,
{
}

/// Where the input frames copied from index `from` of `copies` on end: the
/// end of the last such copy, or `position` if there is none
pub open spec fn copied_up_to(copies: Seq<FrameCopy>, from: int, position: int) -> int {
    if copies.len() > from {
        copies.last().source_frame + copies.last().frame_count
    } else {
        position
    }
}

/// Recording the input frames from `position` to `end` copies them in order,
/// each frame once, into the buffers without overrunning one; every frame is
/// copied unless the buffers run out. Nothing already copied or sent changes.
pub proof fn law_recording_copies_each_frame<S>(state: RecorderState<S>, input: Frames<S>, position: int, end: int)
    requires
        state.position <= state.current.frame_count,
        0 <= position <= usize::MAX,
        end <= usize::MAX,
    ensures
        ({
            let recorded = record_frames(state, input, position, end);
            let first = state.copies.len() as int;
            &&& recorded.position <= recorded.current.frame_count
            &&& recorded.recording == state.recording
            &&& state.copies.is_prefix_of(recorded.copies)
            &&& state.notices.is_prefix_of(recorded.notices)
            &&& forall|i: int|
                first <= i < recorded.copies.len() ==> {
                    let copy = #[trigger] recorded.copies[i];
                    &&& copy.frame_count > 0
                    &&& position <= copy.source_frame
                    &&& copy.source_frame + copy.frame_count <= end
                }
            &&& forall|i: int|
                first <= i && i + 1 < recorded.copies.len() ==> (#[trigger] recorded.copies[i + 1]).source_frame
                    == recorded.copies[i].source_frame + recorded.copies[i].frame_count
            &&& recorded.copies.len() > first ==> recorded.copies[first].source_frame == position
            &&& (state.recording && position < end) ==> (copied_up_to(recorded.copies, first, position) == end || (
            recorded.pool.len() == 0 && recorded.position == recorded.current.frame_count))
        }),
    decreases end - position, state.pool.len(),
{
    let first = state.copies.len() as int;
    if !state.recording || position >= end {
    } else if state.position >= state.current.frame_count {
        if state.pool.len() > 0 {
            law_recording_copies_each_frame(next_buffer_state(state), input, position, end);
        }
    } else {
        let space = state.current.frame_count - state.position;
        let count = if end - position < space {
            end - position
        } else {
            space
        };
        let copy = FrameCopy {
            source_frame: position as usize,
            destination_frame: state.position,
            frame_count: count as usize,
        };
        let copied = RecorderState {
            position: (state.position + count) as usize,
            current: copy_frames(state.current, input, copy),
            copies: state.copies.push(copy),
            ..state
        };
        let next = if copied.position >= copied.current.frame_count {
            next_buffer_state(copied)
        } else {
            copied
        };
        law_recording_copies_each_frame(next, input, position + count, end);
        let recorded = record_frames(next, input, position + count, end);
        assert(recorded == record_frames(state, input, position, end));
        assert(next.copies == state.copies.push(copy));
        assert(recorded.copies[first] == copy) by {
            assert(next.copies.is_prefix_of(recorded.copies));
            assert(next.copies[first] == copy);
        }
        assert forall|i: int| first <= i < recorded.copies.len() implies {
            let c = #[trigger] recorded.copies[i];
            &&& c.frame_count > 0
            &&& position <= c.source_frame
            &&& c.source_frame + c.frame_count <= end
        } by {
            if i == first {
            } else {
                assert(first + 1 <= i);
            }
        }
        assert forall|i: int| first <= i && i + 1 < recorded.copies.len() implies (#[trigger] recorded.copies[i
            + 1]).source_frame == recorded.copies[i].source_frame + recorded.copies[i].frame_count by {
            if i == first {
                assert(recorded.copies[first + 1].source_frame == position + count);
            }
        }
        assert(state.copies.is_prefix_of(recorded.copies)) by {
            assert forall|i: int| 0 <= i < state.copies.len() implies recorded.copies[i] == state.copies[i] by {
                assert(next.copies[i] == state.copies[i]);
            }
        }
        assert(state.notices.is_prefix_of(recorded.notices)) by {
            assert forall|i: int| 0 <= i < state.notices.len() implies recorded.notices[i] == state.notices[i] by {
                assert(next.notices[i] == state.notices[i]);
            }
        }
    }
}

/// The state and the events left pending after the rest of a block of
/// `frame_count` frames, from `position` on, is processed: the input is
/// recorded up to each event, and each event takes effect at its frame
pub open spec fn process_recorder_block<S>(
    state: RecorderState<S>,
    input: Frames<S>,
    pending: Seq<RecorderEvent<FrameBuffer<S>>>,
    frame_start_time: i64,
    current_time: i64,
    position: int,
    frame_count: int,
    sample_rate: int,
) -> (RecorderState<S>, Seq<RecorderEvent<FrameBuffer<S>>>)
    decreases frame_count - position, pending.len(),
{
    if position >= frame_count {
        (state, pending)
    } else {
        let next = next_event_in_block(pending, frame_start_time, current_time, frame_count, sample_rate);
        let end = span_end(next.0, position, frame_count);
        let recorded = record_frames(state, input, position, end);
        let applied = match next.1 {
            Some(event) => apply_recorder_event(recorded, event),
            None => recorded,
        };
        let next_time = clamp_ticks(current_time + clamp_ticks(samples_to_ticks(end - position, sample_rate)));
        process_recorder_block(applied, input, next.2, frame_start_time, next_time as i64, end, frame_count, sample_rate)
    }
}

/// A recorder that is not recording copies nothing and sends no notification
/// until a start event takes effect
pub proof fn law_idle_recorder_waits_for_start<S>(
    state: RecorderState<S>,
    input: Frames<S>,
    pending: Seq<RecorderEvent<FrameBuffer<S>>>,
    frame_start_time: i64,
    current_time: i64,
    position: int,
    frame_count: int,
    sample_rate: int,
)
    requires
        !state.recording,
        forall|i: int| 0 <= i < pending.len() ==> !(#[trigger] pending[i].event_type is Start),
    ensures
        ({
            let result = process_recorder_block(
                state,
                input,
                pending,
                frame_start_time,
                current_time,
                position,
                frame_count,
                sample_rate,
            );
            &&& !result.0.recording
            &&& result.0.notices == state.notices
            &&& result.0.copies == state.copies
            &&& result.0.current == state.current
        }),
    decreases frame_count - position, pending.len(),
{
    if position < frame_count {
        let next = next_event_in_block(pending, frame_start_time, current_time, frame_count, sample_rate);
        let end = span_end(next.0, position, frame_count);
        let recorded = record_frames(state, input, position, end);
        assert(recorded == state);
        let applied = match next.1 {
            Some(event) => apply_recorder_event(recorded, event),
            None => recorded,
        };
        if next.1 is Some {
            assert(!(pending[0].event_type is Start));
        }
        assert forall|i: int| 0 <= i < next.2.len() implies !(#[trigger] next.2[i].event_type is Start) by {
            if next.1 is Some {
                assert(next.2[i] == pending[i + 1]);
            }
        }
        let next_time = clamp_ticks(current_time + clamp_ticks(samples_to_ticks(end - position, sample_rate)));
        law_idle_recorder_waits_for_start(
            applied,
            input,
            next.2,
            frame_start_time,
            next_time as i64,
            end,
            frame_count,
            sample_rate,
        );
    }
}

/// A block with no event pending records its input frames in order, each
/// once, from the first to the last, unless the buffers run out
pub proof fn law_block_without_events_records_every_frame<S>(
    state: RecorderState<S>,
    input: Frames<S>,
    frame_start_time: i64,
    frame_count: int,
    sample_rate: int,
)
    requires
        state.recording,
        state.position <= state.current.frame_count,
        0 < frame_count <= usize::MAX,
    ensures
        ({
            let result = process_recorder_block(
                state,
                input,
                Seq::<RecorderEvent<FrameBuffer<S>>>::empty(),
                frame_start_time,
                frame_start_time,
                0,
                frame_count,
                sample_rate,
            );
            let first = state.copies.len() as int;
            &&& result.1 == Seq::<RecorderEvent<FrameBuffer<S>>>::empty()
            &&& result.0.recording
            &&& state.copies.is_prefix_of(result.0.copies)
            &&& result.0.copies.len() > first ==> result.0.copies[first].source_frame == 0
            &&& forall|i: int|
                first <= i && i + 1 < result.0.copies.len() ==> (#[trigger] result.0.copies[i + 1]).source_frame
                    == result.0.copies[i].source_frame + result.0.copies[i].frame_count
            &&& (copied_up_to(result.0.copies, first, 0) == frame_count || (result.0.pool.len() == 0
                && result.0.position == result.0.current.frame_count))
        }),
{
    let recorded = record_frames(state, input, 0, frame_count);
    law_recording_copies_each_frame(state, input, 0, frame_count);
    let next_time = clamp_ticks(frame_start_time + clamp_ticks(samples_to_ticks(frame_count, sample_rate)));
    assert(process_recorder_block(
        state,
        input,
        Seq::<RecorderEvent<FrameBuffer<S>>>::empty(),
        frame_start_time,
        frame_start_time,
        0,
        frame_count,
        sample_rate,
    ) == process_recorder_block(
        recorded,
        input,
        Seq::<RecorderEvent<FrameBuffer<S>>>::empty(),
        frame_start_time,
        next_time as i64,
        frame_count,
        frame_count,
        sample_rate,
    ));
}

/// The buffers as mathematical values
pub open spec fn frames_of<S>(buffers: Seq<FrameBuffer<S>>) -> Seq<Frames<S>> {
    buffers.map_values(|buffer: FrameBuffer<S>| buffer@)
}

/// The recorder's processing on the audio thread: it copies its input into
/// buffers and sends each full buffer to the node; `S` is the type of a
/// sample
#[verifier::reject_recursive_types(S)]
pub struct RecorderProcessor<S> {
    sample_rate: usize,
    notification_transmitter: EventTransmitter<RecorderNotification<FrameBuffer<S>>>,
    event_processor: EventProcessor<RecorderEvent<FrameBuffer<S>>>,
    buffer_pool: BufferPool<FrameBuffer<S>>,
    current_buffer: FrameBuffer<S>,
    current_position_in_buffer: usize,
    recording: bool,
    copies: Ghost<Seq<FrameCopy>>,
}

impl<S> View for RecorderProcessor<S> {
    type V = RecorderState<S>;

    closed spec fn view(&self) -> RecorderState<S> {
        RecorderState {
            recording: self.recording,
            position: self.current_position_in_buffer,
            current: self.current_buffer@,
            pool: frames_of(self.buffer_pool@),
            notices: self.notification_transmitter.sent().map_values(
                |notification: RecorderNotification<FrameBuffer<S>>| notice_of(notification),
            ),
            copies: self.copies@,
        }
    }
}

impl<S: Copy + Default> RecorderProcessor<S> {
    /// The sample rate of the input
    pub closed spec fn spec_sample_rate(&self) -> usize {
        self.sample_rate
    }

    /// The events that are waiting to take effect
    pub closed spec fn pending_events(&self) -> Seq<RecorderEvent<FrameBuffer<S>>> {
        self.event_processor.pending()
    }

    /// The processor's invariant
    pub closed spec fn wf(&self) -> bool {
        &&& self.sample_rate > 0
        &&& self.event_processor.wf()
        &&& self.event_processor.spec_sample_rate() == self.sample_rate
        &&& self.current_position_in_buffer <= self.current_buffer@.frame_count
    }

    /// A recorder of `channel_count` channels at `sample_rate`, with a pool of
    /// free buffers, that sends its notifications through
    /// `notification_transmitter`
    pub fn new(
        sample_rate: usize,
        channel_count: usize,
        event_receiver: EventReceiver<RecorderEvent<FrameBuffer<S>>>,
        notification_transmitter: EventTransmitter<RecorderNotification<FrameBuffer<S>>>,
    ) -> (processor: Self)
        requires
            sample_rate > 0,
        ensures
            processor.wf(),
            processor.spec_sample_rate() == sample_rate,
            processor.pending_events() == Seq::<RecorderEvent<FrameBuffer<S>>>::empty(),
            !processor@.recording,
            processor@.position == 0,
            processor@.pool.len() == BUFFER_COUNT,
            forall|i: int|
                0 <= i < BUFFER_COUNT ==> {
                    let buffer = #[trigger] processor@.pool[i];
                    &&& buffer.frame_count == BUFFER_SIZE
                    &&& buffer.channels.len() == channel_count
                    &&& buffer.sample_rate == sample_rate
                },
            processor@.current.frame_count == BUFFER_SIZE,
            processor@.current.channels.len() == channel_count,
            processor@.current.sample_rate == sample_rate,
            processor@.notices == notification_transmitter.sent().map_values(
                |notification: RecorderNotification<FrameBuffer<S>>| notice_of(notification),
            ),
            processor@.copies == Seq::<FrameCopy>::empty(),
    {
        let buffer_pool = BufferPool::new(BUFFER_COUNT, BUFFER_SIZE, channel_count, sample_rate);
        Self {
            sample_rate,
            notification_transmitter,
            event_processor: EventProcessor::with_capacity(MAX_PENDING_EVENTS, event_receiver, sample_rate),
            buffer_pool,
            current_buffer: FrameBuffer::silent(BUFFER_SIZE, channel_count, sample_rate),
            current_position_in_buffer: 0,
            recording: false,
            copies: Ghost(Seq::empty()),
        }
    }

    /// Send the current buffer to the node and take the next free one in its
    /// place; report whether there was a free one
    fn next_buffer(&mut self) -> (swapped: bool)
        requires
            old(self).wf(),
        ensures
            final(self).wf(),
            final(self)@ == next_buffer_state(old(self)@),
            final(self).pending_events() == old(self).pending_events(),
            final(self).spec_sample_rate() == old(self).spec_sample_rate(),
            swapped == (old(self)@.pool.len() > 0),
    {
        let ghost pool = self.buffer_pool@;
        match self.buffer_pool.remove() {
            Some(buffer) => {
                let mut next_buffer = buffer;
                let samples_used = self.current_position_in_buffer;
                self.current_position_in_buffer = 0;
                std::mem::swap(&mut next_buffer, &mut self.current_buffer);
                let ghost sent = self.notification_transmitter.sent();
                let _ = send_message(
                    &mut self.notification_transmitter,
                    RecorderNotification::Data(next_buffer, samples_used),
                );
                proof {
                    assert(frames_of(pool.drop_last()) =~= frames_of(pool).drop_last());
                    assert(self.notification_transmitter.sent().map_values(
                        |notification: RecorderNotification<FrameBuffer<S>>| notice_of(notification),
                    ) =~= sent.map_values(|notification: RecorderNotification<FrameBuffer<S>>| notice_of(notification)).push(
                        RecorderNotice::Data(old(self)@.current, samples_used),
                    ));
                }
                true
            },
            None => false,
        }
    }

    /// Record the input frames from `start_frame` to `end_frame`
    fn record(&mut self, input: &FrameBuffer<S>, start_frame: usize, end_frame: usize)
        requires
            old(self).wf(),
            end_frame <= input@.frame_count,
        ensures
            final(self).wf(),
            final(self)@ == record_frames(old(self)@, input@, start_frame as int, end_frame as int),
            final(self).pending_events() == old(self).pending_events(),
            final(self).spec_sample_rate() == old(self).spec_sample_rate(),
    {
        if !self.recording || start_frame >= end_frame {
            return;
        }
        let mut position = start_frame;
        while position < end_frame
            invariant_except_break
                self.wf(),
                self.recording,
                position <= end_frame,
                end_frame <= input@.frame_count,
                record_frames(old(self)@, input@, start_frame as int, end_frame as int) == record_frames(
                    self@,
                    input@,
                    position as int,
                    end_frame as int,
                ),
                self.pending_events() == old(self).pending_events(),
                self.spec_sample_rate() == old(self).spec_sample_rate(),
            ensures
                self.wf(),
                self@ == record_frames(old(self)@, input@, start_frame as int, end_frame as int),
                self.pending_events() == old(self).pending_events(),
                self.spec_sample_rate() == old(self).spec_sample_rate(),
            decreases end_frame - position, self@.pool.len(),
        {
            if self.current_position_in_buffer >= self.current_buffer.frame_count() {
                if !self.next_buffer() {
                    break;
                }
                continue;
            }
            let space = self.current_buffer.frame_count() - self.current_position_in_buffer;
            let count = if end_frame - position < space {
                end_frame - position
            } else {
                space
            };
            let copy = FrameCopy {
                source_frame: position,
                destination_frame: self.current_position_in_buffer,
                frame_count: count,
            };
            self.current_buffer.copy_from(input, copy);
            proof {
                self.copies@ = self.copies@.push(copy);
            }
            position = position + count;
            self.current_position_in_buffer = self.current_position_in_buffer + count;
            if self.current_position_in_buffer >= self.current_buffer.frame_count() {
                self.next_buffer();
            }
        }
    }

    /// Start recording, unless it has already started
    fn start(&mut self)
        requires
            old(self).wf(),
        ensures
            final(self).wf(),
            final(self)@ == start_recording(old(self)@),
            final(self).pending_events() == old(self).pending_events(),
            final(self).spec_sample_rate() == old(self).spec_sample_rate(),
    {
        if self.recording {
            return;
        }
        self.recording = true;
        let ghost sent = self.notification_transmitter.sent();
        let _ = send_message(&mut self.notification_transmitter, RecorderNotification::Start);
        assert(self.notification_transmitter.sent().map_values(
            |notification: RecorderNotification<FrameBuffer<S>>| notice_of(notification),
        ) =~= sent.map_values(|notification: RecorderNotification<FrameBuffer<S>>| notice_of(notification)).push(
            RecorderNotice::Start,
        ));
    }

    /// Stop recording, unless it has already stopped, sending the partly
    /// filled buffer first
    fn stop(&mut self)
        requires
            old(self).wf(),
        ensures
            final(self).wf(),
            final(self)@ == stop_recording(old(self)@),
            final(self).pending_events() == old(self).pending_events(),
            final(self).spec_sample_rate() == old(self).spec_sample_rate(),
    {
        if !self.recording {
            return;
        }
        self.next_buffer();
        self.recording = false;
        let ghost sent = self.notification_transmitter.sent();
        let _ = send_message(&mut self.notification_transmitter, RecorderNotification::Stop);
        assert(self.notification_transmitter.sent().map_values(
            |notification: RecorderNotification<FrameBuffer<S>>| notice_of(notification),
        ) =~= sent.map_values(|notification: RecorderNotification<FrameBuffer<S>>| notice_of(notification)).push(
            RecorderNotice::Stop,
        ));
    }

    /// Put `buffer` back in the pool
    fn return_buffer(&mut self, buffer: FrameBuffer<S>)
        requires
            old(self).wf(),
        ensures
            final(self).wf(),
            final(self)@ == (RecorderState { pool: old(self)@.pool.push(buffer@), ..old(self)@ }),
            final(self).pending_events() == old(self).pending_events(),
            final(self).spec_sample_rate() == old(self).spec_sample_rate(),
    {
        let ghost pool = self.buffer_pool@;
        self.buffer_pool.add(buffer);
        assert(frames_of(pool.push(buffer)) =~= frames_of(pool).push(buffer@));
    }

    /// Make `event` take effect
    fn process_event(&mut self, event: RecorderEvent<FrameBuffer<S>>)
        requires
            old(self).wf(),
        ensures
            final(self).wf(),
            final(self)@ == apply_recorder_event(old(self)@, event),
            final(self).pending_events() == old(self).pending_events(),
            final(self).spec_sample_rate() == old(self).spec_sample_rate(),
    {
        match event.event_type {
            RecorderEventType::Start => self.start(),
            RecorderEventType::Stop => self.stop(),
            RecorderEventType::ReturnBuffer(buffer) => self.return_buffer(buffer),
        }
    }

    /// Process the block of `input` that starts at `start_time`, with the
    /// events that are already pending: record the input up to each event,
    /// and make each event take effect at its frame
    pub fn process_block(&mut self, input: &FrameBuffer<S>, start_time: &Timestamp)
        requires
            old(self).wf(),
        ensures
            final(self).wf(),
            final(self).spec_sample_rate() == old(self).spec_sample_rate(),
            ({
                let result = process_recorder_block(
                    old(self)@,
                    input@,
                    old(self).pending_events(),
                    start_time@,
                    start_time@,
                    0,
                    input@.frame_count as int,
                    old(self).spec_sample_rate() as int,
                );
                &&& final(self)@ == result.0
                &&& final(self).pending_events() == result.1
            }),
    {
        let frame_count = input.frame_count();
        let ghost sample_rate = self.sample_rate as int;
        let mut current_time = *start_time;
        let mut position: usize = 0;
        while position < frame_count
            invariant
                self.wf(),
                self.spec_sample_rate() == old(self).spec_sample_rate(),
                sample_rate == self.sample_rate,
                frame_count == input@.frame_count,
                position <= frame_count,
                process_recorder_block(
                    old(self)@,
                    input@,
                    old(self).pending_events(),
                    start_time@,
                    start_time@,
                    0,
                    frame_count as int,
                    sample_rate,
                ) == process_recorder_block(
                    self@,
                    input@,
                    self.pending_events(),
                    start_time@,
                    current_time@,
                    position as int,
                    frame_count as int,
                    sample_rate,
                ),
            decreases frame_count - position, self.pending_events().len(),
        {
            let (end_frame, event) = self.event_processor.next_event(start_time, &current_time, frame_count);
            let end = if end_frame < position {
                position
            } else if end_frame > frame_count {
                frame_count
            } else {
                end_frame
            };
            self.record(input, position, end);
            current_time = current_time.incremented_by_samples(end - position, self.sample_rate);
            position = end;
            match event {
                Some(event) => self.process_event(event),
                None => {},
            }
        }
    }

    /// Take the events that have arrived, then process the block of `input`
    /// that starts at `start_time`
    pub fn process_audio(&mut self, input: &FrameBuffer<S>, start_time: &Timestamp)
        requires
            old(self).wf(),
        ensures
            final(self).wf(),
            final(self).spec_sample_rate() == old(self).spec_sample_rate(),
            exists|arrived: Seq<RecorderEvent<FrameBuffer<S>>>| {
                let result = process_recorder_block(
                    old(self)@,
                    input@,
                    #[trigger] crate::effects::utility::receive_all(old(self).pending_events(), arrived),
                    start_time@,
                    start_time@,
                    0,
                    input@.frame_count as int,
                    old(self).spec_sample_rate() as int,
                );
                &&& final(self)@ == result.0
                &&& final(self).pending_events() == result.1
            },
    {
        self.event_processor.receive_events();
        let ghost arrived = choose|arrived: Seq<RecorderEvent<FrameBuffer<S>>>|
            self.event_processor.pending() == crate::effects::utility::receive_all(old(self).pending_events(), arrived);
        assert(self.pending_events() == crate::effects::utility::receive_all(old(self).pending_events(), arrived));
        self.process_block(input, start_time);
    }
}

} // verus!

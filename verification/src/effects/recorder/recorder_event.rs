use vstd::prelude::*;

use crate::effects::utility::EventProcessorEvent;
use crate::timestamp::Timestamp;

verus! {

/// What a recorder event does
pub enum RecorderEventType<B> {
    /// Hand a buffer that the node has read back to the processor's pool
    ReturnBuffer(B),
    /// Stop recording
    Stop,
    /// Start recording
    Start,
}

/// An event that is scheduled on a recorder's timeline
pub struct RecorderEvent<B> {
    /// The time at which the event takes effect
    pub time: Timestamp,
    /// What the event does
    pub event_type: RecorderEventType<B>,
}

impl<B> RecorderEvent<B> {
    /// Start recording as soon as possible
    pub fn start_now() -> (event: Self)
        ensures
            event.time@ == 0,
            event.event_type is Start,
    {
        Self { time: Timestamp::zero(), event_type: RecorderEventType::Start }
    }

    /// Stop recording as soon as possible
    pub fn stop_now() -> (event: Self)
        ensures
            event.time@ == 0,
            event.event_type is Stop,
    {
        Self { time: Timestamp::zero(), event_type: RecorderEventType::Stop }
    }

    /// Stop recording at `time`
    pub fn stop_at_time(time: Timestamp) -> (event: Self)
        ensures
            event.time == time,
            event.event_type is Stop,
    {
        Self { time, event_type: RecorderEventType::Stop }
    }

    /// Hand `buffer` back to the processor as soon as possible
    pub fn return_buffer(buffer: B) -> (event: Self)
        ensures
            event.time@ == 0,
            event.event_type == RecorderEventType::ReturnBuffer(buffer),
    {
        Self { time: Timestamp::zero(), event_type: RecorderEventType::ReturnBuffer(buffer) }
    }
}

impl<B> EventProcessorEvent for RecorderEvent<B> {
    open spec fn spec_time(&self) -> i64 {
        self.time@
    }

    open spec fn spec_clears_queue(&self) -> bool {
        false
    }

    fn get_time(&self) -> (time: Timestamp) {
        self.time
    }

    fn should_clear_queue(&self) -> (clear: bool) {
        false
    }
}

} // verus!

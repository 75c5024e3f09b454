use vstd::prelude::*;

use crate::effects::utility::EventProcessorEvent;
use crate::timestamp::Timestamp;

verus! {

/// What a sampler event does
#[derive(Clone, Copy, Debug)]
pub enum SampleEventType {
    /// Start playing from the given position in the sample, as if playback
    /// had begun at the event's time
    Start(Timestamp),
    /// Start playing from the start of the sample
    StartImmediate,
    /// Stop playing
    Stop,
    /// Loop between the two positions in the sample
    EnableLoop(Timestamp, Timestamp),
    /// Stop looping
    CancelLoop,
    /// Stop playing, stop looping, and discard every event that is pending
    CancelAll,
}

/// An event that is scheduled on a sampler's timeline
#[derive(Clone, Copy, Debug)]
pub struct SamplerEvent {
    time: Timestamp,
    event_type: SampleEventType,
}

impl SamplerEvent {
    /// The time at which the event takes effect
    pub closed spec fn spec_event_time(&self) -> Timestamp {
        self.time
    }

    /// What the event does
    pub closed spec fn spec_event_type(&self) -> SampleEventType {
        self.event_type
    }

    /// What the event does
    pub fn get_event_type(&self) -> (event_type: &SampleEventType)
        ensures
            *event_type == self.spec_event_type(),
    {
        &self.event_type
    }

    /// Start at `start_at_time`, from `position_in_sample`
    pub fn start(start_at_time: Timestamp, position_in_sample: Timestamp) -> (event: Self)
        ensures
            event.spec_event_time() == start_at_time,
            event.spec_event_type() == SampleEventType::Start(position_in_sample),
    {
        Self { time: start_at_time, event_type: SampleEventType::Start(position_in_sample) }
    }

    /// Start as soon as possible, from the start of the sample
    pub fn start_now() -> (event: Self)
        ensures
            event.spec_event_time()@ == 0,
            event.spec_event_type() matches SampleEventType::StartImmediate,
    {
        Self { time: Timestamp::zero(), event_type: SampleEventType::StartImmediate }
    }

    /// Stop at `stop_at_time`
    pub fn stop(stop_at_time: Timestamp) -> (event: Self)
        ensures
            event.spec_event_time() == stop_at_time,
            event.spec_event_type() matches SampleEventType::Stop,
    {
        Self { time: stop_at_time, event_type: SampleEventType::Stop }
    }

    /// Stop as soon as possible
    pub fn stop_now() -> (event: Self)
        ensures
            event.spec_event_time()@ == 0,
            event.spec_event_type() matches SampleEventType::Stop,
    {
        Self { time: Timestamp::zero(), event_type: SampleEventType::Stop }
    }

    /// Loop between `loop_start` and `loop_end`, from `enable_at_time` on
    pub fn enable_loop_at_time(enable_at_time: Timestamp, loop_start: Timestamp, loop_end: Timestamp) -> (event: Self)
        ensures
            event.spec_event_time() == enable_at_time,
            event.spec_event_type() == SampleEventType::EnableLoop(loop_start, loop_end),
    {
        Self { time: enable_at_time, event_type: SampleEventType::EnableLoop(loop_start, loop_end) }
    }

    /// Stop looping at `cancel_time`
    pub fn cancel_loop_at_time(cancel_time: Timestamp) -> (event: Self)
        ensures
            event.spec_event_time() == cancel_time,
            event.spec_event_type() matches SampleEventType::CancelLoop,
    {
        Self { time: cancel_time, event_type: SampleEventType::CancelLoop }
    }

    /// Loop between `loop_start` and `loop_end`, as soon as possible
    pub fn enable_loop(loop_start: Timestamp, loop_end: Timestamp) -> (event: Self)
        ensures
            event.spec_event_time()@ == 0,
            event.spec_event_type() == SampleEventType::EnableLoop(loop_start, loop_end),
    {
        Self { time: Timestamp::zero(), event_type: SampleEventType::EnableLoop(loop_start, loop_end) }
    }

    /// Stop looping as soon as possible
    pub fn cancel_loop() -> (event: Self)
        ensures
            event.spec_event_time()@ == 0,
            event.spec_event_type() matches SampleEventType::CancelLoop,
    {
        Self { time: Timestamp::zero(), event_type: SampleEventType::CancelLoop }
    }

    /// Stop, stop looping, and discard every pending event, as soon as
    /// possible
    pub fn cancel_all() -> (event: Self)
        ensures
            event.spec_event_time()@ == 0,
            event.spec_event_type() matches SampleEventType::CancelAll,
    {
        Self { time: Timestamp::zero(), event_type: SampleEventType::CancelAll }
    }
}

impl EventProcessorEvent for SamplerEvent {
    open spec fn spec_time(&self) -> i64 {
        self.spec_event_time()@
    }

    open spec fn spec_clears_queue(&self) -> bool {
        self.spec_event_type() matches SampleEventType::CancelAll
    }

    fn get_time(&self) -> (time: Timestamp) {
        self.time
    }

    fn should_clear_queue(&self) -> (clear: bool) {
        match self.event_type {
            SampleEventType::CancelAll => true,
            _ => false,
        }
    }
}

} // verus!

use std::time::Duration;
use vstd::prelude::*;

use crate::effects::utility::EventProcessorEvent;
use crate::timestamp::Timestamp;

verus! {

/// What an ADSR event does; `L` is the type of a level
#[derive(Debug)]
pub enum AdsrEventType<L> {
    /// Close the envelope: start the release
    NoteOff,
    /// Open the envelope: start the attack
    NoteOn,
    /// Set the time from a note on until the gain reaches unity
    SetAttack(Duration),
    /// Set the time from the end of the attack until the sustain level
    SetDecay(Duration),
    /// Set the level that is held after the decay until a note off
    SetSustain(L),
    /// Set the time from a note off until the gain reaches zero
    SetRelease(Duration),
}

/// An event that is scheduled on an ADSR envelope's timeline
#[derive(Debug)]
pub struct AdsrEvent<L> {
    time: Timestamp,
    event_type: AdsrEventType<L>,
}

impl<L> AdsrEvent<L> {
    /// The time at which the event takes effect
    pub closed spec fn spec_event_time(&self) -> Timestamp {
        self.time
    }

    /// What the event does
    pub closed spec fn spec_event_type(&self) -> AdsrEventType<L> {
        self.event_type
    }

    /// An event that does `event_type` at `time`
    pub fn new(time: Timestamp, event_type: AdsrEventType<L>) -> (event: Self)
        ensures
            event.spec_event_time() == time,
            event.spec_event_type() == event_type,
    {
        Self { time, event_type }
    }

    /// What the event does
    pub fn get_event_type(&self) -> (event_type: &AdsrEventType<L>)
        ensures
            *event_type == self.spec_event_type(),
    {
        &self.event_type
    }
}

impl<L> EventProcessorEvent for AdsrEvent<L> {
    open spec fn spec_time(&self) -> i64 {
        self.spec_event_time()@
    }

    open spec fn spec_clears_queue(&self) -> bool {
        false
    }

    fn get_time(&self) -> (time: Timestamp) {
        self.time
    }

    fn should_clear_queue(&self) -> (clear: bool) {
        false
    }
}

} // verus!

use vstd::prelude::*;

use crate::channel::EventReceiver;
use crate::effects::utility::{next_event_in_block, receive_all, span_end, EventProcessor};
use crate::timestamp::{clamp_ticks, samples_to_ticks, Timestamp};

use std::time::Duration;

use super::adsr_event::{AdsrEvent, AdsrEventType};

verus! {

/// The number of events that the processor keeps room for
pub const MAX_PENDING_EVENTS: usize = 64;

/// A stretch of a block over which the envelope runs on undisturbed, followed
/// by the event that takes effect where it ends, if any
pub struct EnvelopeSpan<L> {
    /// The first frame of the stretch within the block
    pub start_frame: usize,
    /// The number of frames in the stretch
    pub frame_count: usize,
    /// The event that takes effect after the stretch
    pub event: Option<AdsrEvent<L>>,
}

/// The events left pending and the stretches of the envelope, after the rest
/// of a block of `frame_count` frames, from `position` on, is planned: the
/// envelope runs up to each event, and each event takes effect at its frame
///
/// `event_rate` is the sample rate of the event timeline and `sample_rate`
/// that of the block.
pub open spec fn plan_envelope<L>(
    pending: Seq<AdsrEvent<L>>,
    frame_start_time: i64,
    current_time: i64,
    position: int,
    frame_count: int,
    event_rate: int,
    sample_rate: int,
) -> (Seq<AdsrEvent<L>>, Seq<EnvelopeSpan<L>>)
    decreases frame_count - position, pending.len(),
{
    if position >= frame_count {
        (pending, Seq::empty())
    } else {
        let next = next_event_in_block(pending, frame_start_time, current_time, frame_count, event_rate);
        let end = span_end(next.0, position, frame_count);
        let next_time = clamp_ticks(current_time + clamp_ticks(samples_to_ticks(end - position, sample_rate))) as i64;
        let span = EnvelopeSpan { start_frame: position as usize, frame_count: (end - position) as usize, event: next.1 };
        let rest = plan_envelope(next.2, frame_start_time, next_time, end, frame_count, event_rate, sample_rate);
        (rest.0, seq![span] + rest.1)
    }
}

/// Whether the stretches tile `0..frame_count`: each starts where the one
/// before it ends, and the last ends at `frame_count`
pub open spec fn tiles_block<L>(spans: Seq<EnvelopeSpan<L>>, position: int, frame_count: int) -> bool
    decreases spans.len(),
{
    if spans.len() == 0 {
        position >= frame_count
    } else {
        &&& spans[0].start_frame == position
        &&& position + spans[0].frame_count <= frame_count
        &&& tiles_block(spans.drop_first(), position + spans[0].frame_count, frame_count)
    }
}

/// The plan of a block covers the block, stretch after stretch
pub proof fn law_plan_tiles_block<L>(
    pending: Seq<AdsrEvent<L>>,
    frame_start_time: i64,
    current_time: i64,
    position: int,
    frame_count: int,
    event_rate: int,
    sample_rate: int,
)
    requires
        0 <= position,
        frame_count <= usize::MAX,
    ensures
        tiles_block(
            plan_envelope(pending, frame_start_time, current_time, position, frame_count, event_rate, sample_rate).1,
            position,
            frame_count,
        ),
    decreases frame_count - position, pending.len(),
{
    if position < frame_count {
        let next = next_event_in_block(pending, frame_start_time, current_time, frame_count, event_rate);
        let end = span_end(next.0, position, frame_count);
        let next_time = clamp_ticks(current_time + clamp_ticks(samples_to_ticks(end - position, sample_rate))) as i64;
        law_plan_tiles_block(next.2, frame_start_time, next_time, end, frame_count, event_rate, sample_rate);
        let spans = plan_envelope(pending, frame_start_time, current_time, position, frame_count, event_rate, sample_rate).1;
        assert(spans.drop_first() =~= plan_envelope(
            next.2,
            frame_start_time,
            next_time,
            end,
            frame_count,
            event_rate,
            sample_rate,
        ).1);
    }
}

/// The events that take effect after the stretches, in order
pub open spec fn span_events<L>(spans: Seq<EnvelopeSpan<L>>) -> Seq<AdsrEvent<L>>
    decreases spans.len(),
{
    if spans.len() == 0 {
        Seq::empty()
    } else {
        let rest = span_events(spans.drop_first());
        match spans[0].event {
            Some(event) => seq![event] + rest,
            None => rest,
        }
    }
}

/// Planning a block loses no event and reorders none: the events that take
/// effect in the block, followed by those left pending, are the events that
/// were pending
pub proof fn law_plan_keeps_every_event<L>(
    pending: Seq<AdsrEvent<L>>,
    frame_start_time: i64,
    current_time: i64,
    position: int,
    frame_count: int,
    event_rate: int,
    sample_rate: int,
)
    ensures
        ({
            let plan = plan_envelope(pending, frame_start_time, current_time, position, frame_count, event_rate, sample_rate);
            span_events(plan.1) + plan.0 == pending
        }),
    decreases frame_count - position, pending.len(),
{
    if position >= frame_count {
        assert(Seq::<AdsrEvent<L>>::empty() + pending =~= pending);
    } else {
        let next = next_event_in_block(pending, frame_start_time, current_time, frame_count, event_rate);
        let end = span_end(next.0, position, frame_count);
        let next_time = clamp_ticks(current_time + clamp_ticks(samples_to_ticks(end - position, sample_rate))) as i64;
        law_plan_keeps_every_event(next.2, frame_start_time, next_time, end, frame_count, event_rate, sample_rate);
        let rest = plan_envelope(next.2, frame_start_time, next_time, end, frame_count, event_rate, sample_rate);
        let spans = plan_envelope(pending, frame_start_time, current_time, position, frame_count, event_rate, sample_rate).1;
        assert(spans.drop_first() =~= rest.1);
        match next.1 {
            Some(event) => {
                assert(seq![event] + span_events(rest.1) + rest.0 =~= seq![event] + (span_events(rest.1) + rest.0));
                assert(seq![pending[0]] + pending.drop_first() =~= pending);
            },
            None => {},
        }
    }
}

/// A block with no event pending is one stretch of the envelope
pub proof fn law_block_without_events_is_one_stretch<L>(
    frame_start_time: i64,
    current_time: i64,
    frame_count: int,
    event_rate: int,
    sample_rate: int,
)
    requires
        0 < frame_count <= usize::MAX,
    ensures
        ({
            let plan = plan_envelope(
                Seq::<AdsrEvent<L>>::empty(),
                frame_start_time,
                current_time,
                0,
                frame_count,
                event_rate,
                sample_rate,
            );
            &&& plan.0 == Seq::<AdsrEvent<L>>::empty()
            &&& plan.1.len() == 1
            &&& plan.1[0].start_frame == 0
            &&& plan.1[0].frame_count == frame_count
            &&& plan.1[0].event.is_none()
        }),
{
    let next_time = clamp_ticks(current_time + clamp_ticks(samples_to_ticks(frame_count, sample_rate))) as i64;
    assert(plan_envelope(
        Seq::<AdsrEvent<L>>::empty(),
        frame_start_time,
        next_time,
        frame_count,
        frame_count,
        event_rate,
        sample_rate,
    ).1 =~= Seq::<EnvelopeSpan<L>>::empty());
}

/// The whole nanoseconds in `duration`, as `Duration::as_nanos` gives them
pub uninterp spec fn duration_nanos(duration: Duration) -> u128;

/// Calls `std::time::Duration::as_nanos`, which gives the total number of
/// whole nanoseconds in `duration`; the claim is only that the result is that
/// number, named `duration_nanos`
#[verifier::external_body]
fn duration_as_nanos(duration: &Duration) -> (nanos: u128)
    ensures
        nanos == duration_nanos(*duration),
{
    duration.as_nanos()
}

/// The settings of an ADSR envelope: its times in whole nanoseconds, and its
/// sustain level
#[derive(Debug)]
pub struct AdsrSettings<L> {
    /// The time from a note on until the gain reaches unity
    pub attack_nanos: u128,
    /// The time from the end of the attack until the sustain level
    pub decay_nanos: u128,
    /// The level that is held after the decay until a note off
    pub sustain_level: L,
    /// The time from a note off until the gain reaches zero
    pub release_nanos: u128,
}

/// The settings that an envelope starts with: no attack, decay or release
/// time, and a sustain level of `unity_level`
pub open spec fn initial_settings<L>(unity_level: L) -> AdsrSettings<L> {
    AdsrSettings { attack_nanos: 0, decay_nanos: 0, sustain_level: unity_level, release_nanos: 0 }
}

/// The settings after `event_type` takes effect: a setting event replaces
/// its setting, and a note leaves them as they are
pub open spec fn apply_setting<L>(settings: AdsrSettings<L>, event_type: AdsrEventType<L>) -> AdsrSettings<L> {
    match event_type {
        AdsrEventType::SetAttack(time) => AdsrSettings { attack_nanos: duration_nanos(time), ..settings },
        AdsrEventType::SetDecay(time) => AdsrSettings { decay_nanos: duration_nanos(time), ..settings },
        AdsrEventType::SetSustain(level) => AdsrSettings { sustain_level: level, ..settings },
        AdsrEventType::SetRelease(time) => AdsrSettings { release_nanos: duration_nanos(time), ..settings },
        AdsrEventType::NoteOn => settings,
        AdsrEventType::NoteOff => settings,
    }
}

/// The settings after `events` take effect, in order
pub open spec fn settings_after<L>(settings: AdsrSettings<L>, events: Seq<AdsrEvent<L>>) -> AdsrSettings<L>
    decreases events.len(),
{
    if events.len() == 0 {
        settings
    } else {
        apply_setting(settings_after(settings, events.drop_last()), events.last().spec_event_type())
    }
}

/// The events of one more stretch follow those of the stretches before it
proof fn lemma_span_events_push<L>(spans: Seq<EnvelopeSpan<L>>, span: EnvelopeSpan<L>)
    ensures
        span_events(spans.push(span)) == span_events(spans) + match span.event {
            Some(event) => seq![event],
            None => Seq::<AdsrEvent<L>>::empty(),
        },
    decreases spans.len(),
{
    if spans.len() == 0 {
        let one = spans.push(span);
        assert(one.drop_first() =~= Seq::<EnvelopeSpan<L>>::empty());
        assert(one[0] == span);
        assert(span_events(one.drop_first()) == Seq::<AdsrEvent<L>>::empty());
        assert(span_events(spans) == Seq::<AdsrEvent<L>>::empty());
        if span.event is Some {
            assert(span_events(one) == seq![span.event->0] + Seq::<AdsrEvent<L>>::empty());
            assert(seq![span.event->0] + Seq::<AdsrEvent<L>>::empty() =~= Seq::<AdsrEvent<L>>::empty() + seq![span.event->0]);
        } else {
            assert(span_events(one) == Seq::<AdsrEvent<L>>::empty());
            assert(Seq::<AdsrEvent<L>>::empty() + Seq::<AdsrEvent<L>>::empty() =~= Seq::<AdsrEvent<L>>::empty());
        }
    } else {
        lemma_span_events_push(spans.drop_first(), span);
        assert(spans.push(span).drop_first() =~= spans.drop_first().push(span));
        let tail = match span.event {
            Some(event) => seq![event],
            None => Seq::<AdsrEvent<L>>::empty(),
        };
        let rest = span_events(spans.drop_first());
        assert(span_events(spans.push(span).drop_first()) == rest + tail);
        assert(spans.push(span)[0] == spans[0]);
        if spans[0].event is Some {
            let head = seq![spans[0].event->0];
            assert(span_events(spans) == head + rest);
            assert(span_events(spans.push(span)) == head + (rest + tail));
            assert(head + (rest + tail) =~= (head + rest) + tail);
        } else {
            assert(span_events(spans) == rest);
            assert(span_events(spans.push(span)) == rest + tail);
        }
        assert(span_events(spans.push(span)) =~= span_events(spans) + match span.event {
            Some(event) => seq![event],
            None => Seq::<AdsrEvent<L>>::empty(),
        });
    }
}

/// The audio-thread side of an ADSR node: it takes the node's events from
/// its channel and works out, for each block, where the envelope runs on and
/// where each event takes effect
#[verifier::reject_recursive_types(L)]
pub struct AdsrProcessor<L> {
    event_processor: EventProcessor<AdsrEvent<L>>,
    settings: AdsrSettings<L>,
    maximum_frame_count: usize,
}

impl<L> AdsrProcessor<L> {
    /// The events that are waiting to take effect, earliest first
    pub closed spec fn pending_events(&self) -> Seq<AdsrEvent<L>> {
        self.event_processor.pending()
    }

    /// The sample rate of the event timeline
    pub closed spec fn spec_sample_rate(&self) -> usize {
        self.event_processor.spec_sample_rate()
    }

    /// The envelope's current settings
    pub closed spec fn spec_settings(&self) -> AdsrSettings<L> {
        self.settings
    }

    /// The envelope's current settings
    pub fn settings(&self) -> (settings: &AdsrSettings<L>)
        ensures
            *settings == self.spec_settings(),
    {
        &self.settings
    }

    /// The largest block that the processor is set up for
    pub closed spec fn spec_maximum_frame_count(&self) -> usize {
        self.maximum_frame_count
    }

    /// The processor's invariant: that of its event processor
    pub closed spec fn wf(&self) -> bool {
        self.event_processor.wf()
    }

    /// A processor that reads its events from `event_receiver`, on a timeline
    /// of `sample_rate`, for blocks of up to `maximum_frame_count` frames
    ///
    /// The envelope starts with no attack, decay or release time and a
    /// sustain level of `unity_level`, the level of unity gain.
    pub fn new(
        event_receiver: EventReceiver<AdsrEvent<L>>,
        sample_rate: usize,
        maximum_frame_count: usize,
        unity_level: L,
    ) -> (processor: Self)
        requires
            sample_rate > 0,
        ensures
            processor.wf(),
            processor.spec_settings() == initial_settings(unity_level),
            processor.pending_events() == Seq::<AdsrEvent<L>>::empty(),
            processor.spec_sample_rate() == sample_rate,
            processor.spec_maximum_frame_count() == maximum_frame_count,
    {
        Self {
            event_processor: EventProcessor::with_capacity(MAX_PENDING_EVENTS, event_receiver, sample_rate),
            settings: AdsrSettings { attack_nanos: 0, decay_nanos: 0, sustain_level: unity_level, release_nanos: 0 },
            maximum_frame_count,
        }
    }

}

impl<L: Copy> AdsrProcessor<L> {
    /// Make a setting event take effect on the envelope's settings
    fn apply_event(&mut self, event: &AdsrEvent<L>)
        ensures
            final(self).spec_settings() == apply_setting(old(self).spec_settings(), event.spec_event_type()),
            final(self).event_processor == old(self).event_processor,
            final(self).maximum_frame_count == old(self).maximum_frame_count,
    {
        match event.get_event_type() {
            AdsrEventType::SetAttack(time) => self.settings.attack_nanos = duration_as_nanos(time),
            AdsrEventType::SetDecay(time) => self.settings.decay_nanos = duration_as_nanos(time),
            AdsrEventType::SetSustain(level) => self.settings.sustain_level = *level,
            AdsrEventType::SetRelease(time) => self.settings.release_nanos = duration_as_nanos(time),
            AdsrEventType::NoteOn => {},
            AdsrEventType::NoteOff => {},
        }
    }

    /// Plan a block of `frame_count` frames at `sample_rate` that starts at
    /// `start_time`, with the events that are already pending: the envelope
    /// runs up to each event, and each event takes effect at its frame
    pub fn plan_block(&mut self, frame_count: usize, start_time: &Timestamp, sample_rate: usize) -> (spans: Vec<EnvelopeSpan<L>>)
        requires
            old(self).wf(),
            sample_rate > 0,
        ensures
            final(self).wf(),
            final(self).spec_sample_rate() == old(self).spec_sample_rate(),
            final(self).spec_maximum_frame_count() == old(self).spec_maximum_frame_count(),
            ({
                let plan = plan_envelope(
                    old(self).pending_events(),
                    start_time@,
                    start_time@,
                    0,
                    frame_count as int,
                    old(self).spec_sample_rate() as int,
                    sample_rate as int,
                );
                &&& final(self).pending_events() == plan.0
                &&& spans@ == plan.1
                &&& final(self).spec_settings() == settings_after(old(self).spec_settings(), span_events(plan.1))
            }),
    {
        let ghost event_rate = self.event_processor.spec_sample_rate() as int;
        let ghost total = plan_envelope(
            old(self).pending_events(),
            start_time@,
            start_time@,
            0,
            frame_count as int,
            event_rate,
            sample_rate as int,
        );
        let mut spans: Vec<EnvelopeSpan<L>> = Vec::new();
        let mut current_time = *start_time;
        let mut position: usize = 0;
        while position < frame_count
            invariant
                self.wf(),
                self.maximum_frame_count == old(self).maximum_frame_count,
                event_rate == self.event_processor.spec_sample_rate(),
                event_rate == old(self).event_processor.spec_sample_rate(),
                sample_rate > 0,
                0 <= position <= frame_count,
                ({
                    let rest = plan_envelope(
                        self.pending_events(),
                        start_time@,
                        current_time@,
                        position as int,
                        frame_count as int,
                        event_rate,
                        sample_rate as int,
                    );
                    &&& total.0 == rest.0
                    &&& total.1 =~= spans@ + rest.1
                }),
                self.settings == settings_after(old(self).settings, span_events(spans@)),
            decreases frame_count - position, self.event_processor.pending().len(),
        {
            let ghost before = spans@;
            let (end_frame, event) = self.event_processor.next_event(start_time, &current_time, frame_count);
            let end_frame = if end_frame < position {
                position
            } else if end_frame > frame_count {
                frame_count
            } else {
                end_frame
            };
            let stretch = end_frame - position;
            match &event {
                Some(event) => self.apply_event(event),
                None => {},
            }
            let span = EnvelopeSpan { start_frame: position, frame_count: stretch, event };
            proof {
                lemma_span_events_push(spans@, span);
                if span.event is Some {
                    let events = span_events(spans@) + seq![span.event->0];
                    assert(events.drop_last() =~= span_events(spans@));
                } else {
                    assert(span_events(spans@) + Seq::<AdsrEvent<L>>::empty() =~= span_events(spans@));
                }
            }
            spans.push(span);
            position = end_frame;
            current_time = current_time.incremented_by_samples(stretch, sample_rate);
            proof {
                let rest = plan_envelope(
                    self.pending_events(),
                    start_time@,
                    current_time@,
                    position as int,
                    frame_count as int,
                    event_rate,
                    sample_rate as int,
                );
                assert(before.push(spans@.last()) + rest.1 =~= before + (seq![spans@.last()] + rest.1));
            }
        }
        proof {
            assert(spans@ + Seq::<EnvelopeSpan<L>>::empty() =~= spans@);
        }
        spans
    }

    /// Take the events that have arrived, and plan a block of `frame_count`
    /// frames at `sample_rate` that starts at `start_time`: the envelope runs
    /// up to each event, and each event takes effect at its frame
    ///
    /// Which events have arrived depends on the control thread: the plan is
    /// that of the pending events with some events received after them.
    pub fn prepare_envelope(&mut self, frame_count: usize, start_time: &Timestamp, sample_rate: usize) -> (spans: Vec<EnvelopeSpan<L>>)
        requires
            old(self).wf(),
            sample_rate > 0,
        ensures
            final(self).wf(),
            final(self).spec_sample_rate() == old(self).spec_sample_rate(),
            final(self).spec_maximum_frame_count() == old(self).spec_maximum_frame_count(),
            exists|arrived: Seq<AdsrEvent<L>>| {
                let plan = plan_envelope(
                    #[trigger] receive_all(old(self).pending_events(), arrived),
                    start_time@,
                    start_time@,
                    0,
                    frame_count as int,
                    old(self).spec_sample_rate() as int,
                    sample_rate as int,
                );
                &&& final(self).pending_events() == plan.0
                &&& spans@ == plan.1
                &&& final(self).spec_settings() == settings_after(old(self).spec_settings(), span_events(plan.1))
            },
    {
        self.event_processor.receive_events();
        let ghost arrived = choose|arrived: Seq<AdsrEvent<L>>|
            self.event_processor.pending() == receive_all(old(self).pending_events(), arrived);
        assert(self.pending_events() == receive_all(old(self).pending_events(), arrived));
        self.plan_block(frame_count, start_time, sample_rate)
    }
}


/// Notes open and close the envelope but never change its settings: after
/// any sequence of note events the settings are as they were
pub proof fn law_notes_keep_settings<L>(settings: AdsrSettings<L>, events: Seq<AdsrEvent<L>>)
    requires
        forall|i: int|
            0 <= i < events.len() ==> (#[trigger] events[i].spec_event_type() is NoteOn) || events[i].spec_event_type() is NoteOff,
    ensures
        settings_after(settings, events) == settings,
    decreases events.len(),
{
    if events.len() > 0 {
        let rest = events.drop_last();
        assert forall|i: int| 0 <= i < rest.len() implies (#[trigger] rest[i].spec_event_type() is NoteOn)
            || rest[i].spec_event_type() is NoteOff by {
            assert(rest[i] == events[i]);
        }
        law_notes_keep_settings(settings, rest);
        assert(events.last() == events[events.len() - 1]);
    }
}

/// A setting event changes its own setting, to the event's value, and no
/// other: an attack time leaves the decay, sustain and release as they were,
/// and so on for each
pub proof fn law_setting_changes_only_its_own<L>(settings: AdsrSettings<L>, event_type: AdsrEventType<L>)
    ensures
        ({
            let after = apply_setting(settings, event_type);
            &&& !(event_type is SetAttack) ==> after.attack_nanos == settings.attack_nanos
            &&& !(event_type is SetDecay) ==> after.decay_nanos == settings.decay_nanos
            &&& !(event_type is SetSustain) ==> after.sustain_level == settings.sustain_level
            &&& !(event_type is SetRelease) ==> after.release_nanos == settings.release_nanos
            &&& (event_type matches AdsrEventType::SetAttack(time) ==> after.attack_nanos == duration_nanos(time))
            &&& (event_type matches AdsrEventType::SetDecay(time) ==> after.decay_nanos == duration_nanos(time))
            &&& (event_type matches AdsrEventType::SetSustain(level) ==> after.sustain_level == level)
            &&& (event_type matches AdsrEventType::SetRelease(time) ==> after.release_nanos == duration_nanos(time))
        }),
{
}

} // verus!

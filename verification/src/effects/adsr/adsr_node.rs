use std::time::Duration;
use vstd::prelude::*;

use crate::channel::{event_channel, send_message, EventTransmitter};
use crate::engine::Command;
use crate::graph::{Dsp, GraphNode};
use crate::id::Id;
use crate::timestamp::Timestamp;

use super::adsr_event::{AdsrEvent, AdsrEventType};
use super::adsr_processor::{initial_settings, AdsrProcessor};

verus! {

/// The number of events that the channel to the audio thread holds
pub const EVENT_CHANNEL_CAPACITY: usize = 32;

/// Whether `after` is `before` with one more event, scheduled at `time` (in
/// ticks) to do `event_type`
pub open spec fn appended_adsr_event<L>(
    before: Seq<AdsrEvent<L>>,
    after: Seq<AdsrEvent<L>>,
    time: i64,
    event_type: AdsrEventType<L>,
) -> bool {
    &&& after.len() == before.len() + 1
    &&& after.drop_last() =~= before
    &&& after.last().spec_event_time()@ == time
    &&& after.last().spec_event_type() == event_type
}

/// An ADSR node, which shapes the level of its input with an envelope; `P` is
/// the type of the processor in the graph, `Q` that of its parameters, and
/// `L` the type of a level
///
/// The node hands timed events to its processor on the audio thread.
#[verifier::reject_recursive_types(P)]
#[verifier::reject_recursive_types(Q)]
#[verifier::reject_recursive_types(L)]
pub struct Adsr<P, Q, L> {
    /// The node that can be routed into the audio graph
    pub node: GraphNode<P, Q>,
    event_transmitter: EventTransmitter<AdsrEvent<L>>,
}

impl<P, Q, L> Adsr<P, Q, L> {
    /// The node
    pub closed spec fn spec_node(&self) -> GraphNode<P, Q> {
        self.node
    }

    /// The events handed to the channel to the node's processor, in order
    pub closed spec fn sent_events(&self) -> Seq<AdsrEvent<L>> {
        self.event_transmitter.sent()
    }

    /// Create an ADSR node of `channel_count` channels, and add it, with id
    /// `id`, to the graph that `command_queue` feeds
    ///
    /// The node's processor runs at `sample_rate` on blocks of up to
    /// `maximum_frame_count` frames, with an envelope that starts with no
    /// attack, decay or release time and a sustain level of `unity_level`;
    /// `create_processor` turns it into the processor that the graph runs,
    /// which the node runs with `parameters`.
    pub fn new<F: FnOnce(AdsrProcessor<L>) -> P>(
        id: Id,
        command_queue: EventTransmitter<Command<Box<Dsp<P, Q>>>>,
        channel_count: usize,
        sample_rate: usize,
        maximum_frame_count: usize,
        unity_level: L,
        create_processor: F,
        parameters: Q,
    ) -> (adsr: Self)
        requires
            sample_rate > 0,
            forall|process: AdsrProcessor<L>| create_processor.requires((process,)),
        ensures
            adsr.sent_events() == Seq::<AdsrEvent<L>>::empty(),
            adsr.spec_node().spec_id() == id,
            adsr.spec_node().spec_output_count() == channel_count,
            adsr.spec_node().sent_commands().len() == command_queue.sent().len() + 1,
            adsr.spec_node().sent_commands().drop_last() == command_queue.sent(),
            adsr.spec_node().sent_commands().last() matches Command::AddDsp(dsp) && {
                &&& dsp.spec_id() == id
                &&& dsp.spec_input_count() == channel_count
                &&& dsp.spec_output_count() == channel_count
                &&& dsp.spec_parameters() == parameters
                &&& exists|process: AdsrProcessor<L>| {
                    &&& process.wf()
                    &&& process.pending_events() == Seq::<AdsrEvent<L>>::empty()
                    &&& process.spec_sample_rate() == sample_rate
                    &&& process.spec_maximum_frame_count() == maximum_frame_count
                    &&& process.spec_settings() == initial_settings(unity_level)
                    &&& create_processor.ensures((process,), dsp.spec_processor())
                }
            },
    {
        let (event_transmitter, event_receiver) = event_channel(EVENT_CHANNEL_CAPACITY);
        let process = AdsrProcessor::new(event_receiver, sample_rate, maximum_frame_count, unity_level);
        let ghost created = process;
        let processor = create_processor(process);
        assert(create_processor.ensures((created,), processor));
        let node = GraphNode::new(id, command_queue, channel_count, channel_count, processor, parameters);
        Self { node, event_transmitter }
    }

    /// Hand `event` to the processor
    fn send_event(&mut self, event: AdsrEvent<L>)
        ensures
            final(self).sent_events() == old(self).sent_events().push(event),
            final(self).spec_node() == old(self).spec_node(),
    {
        let _ = send_message(&mut self.event_transmitter, event);
    }

    /// Trigger a note on at a particular time
    pub fn note_on_at_time(&mut self, time: Timestamp)
        ensures
            appended_adsr_event(old(self).sent_events(), final(self).sent_events(), time@, AdsrEventType::NoteOn),
            final(self).spec_node() == old(self).spec_node(),
    {
        self.send_event(AdsrEvent::new(time, AdsrEventType::NoteOn));
    }

    /// Trigger a note off at a particular time
    pub fn note_off_at_time(&mut self, time: Timestamp)
        ensures
            appended_adsr_event(old(self).sent_events(), final(self).sent_events(), time@, AdsrEventType::NoteOff),
            final(self).spec_node() == old(self).spec_node(),
    {
        self.send_event(AdsrEvent::new(time, AdsrEventType::NoteOff));
    }

    /// Set the attack time
    ///
    /// This is the time from the note on until the gain reaches unity
    pub fn set_attack_time(&mut self, attack_time: Duration)
        ensures
            appended_adsr_event(
                old(self).sent_events(),
                final(self).sent_events(),
                0,
                AdsrEventType::SetAttack(attack_time),
            ),
            final(self).spec_node() == old(self).spec_node(),
    {
        self.send_event(AdsrEvent::new(Timestamp::zero(), AdsrEventType::SetAttack(attack_time)));
    }

    /// Set the decay time
    ///
    /// This is the time after the end of the attack time to reach the
    /// steady-state sustain level
    pub fn set_decay_time(&mut self, decay_time: Duration)
        ensures
            appended_adsr_event(
                old(self).sent_events(),
                final(self).sent_events(),
                0,
                AdsrEventType::SetDecay(decay_time),
            ),
            final(self).spec_node() == old(self).spec_node(),
    {
        self.send_event(AdsrEvent::new(Timestamp::zero(), AdsrEventType::SetDecay(decay_time)));
    }

    /// Set the sustain level
    ///
    /// This is the level that is sustained after the attack and decay phase
    /// until a note off
    pub fn set_sustain_level(&mut self, sustain_level: L)
        ensures
            appended_adsr_event(
                old(self).sent_events(),
                final(self).sent_events(),
                0,
                AdsrEventType::SetSustain(sustain_level),
            ),
            final(self).spec_node() == old(self).spec_node(),
    {
        self.send_event(AdsrEvent::new(Timestamp::zero(), AdsrEventType::SetSustain(sustain_level)));
    }

    /// Set the release time
    ///
    /// This is the time after a note off until a gain of 0 is reached
    pub fn set_release_time(&mut self, release_time: Duration)
        ensures
            appended_adsr_event(
                old(self).sent_events(),
                final(self).sent_events(),
                0,
                AdsrEventType::SetRelease(release_time),
            ),
            final(self).spec_node() == old(self).spec_node(),
    {
        self.send_event(AdsrEvent::new(Timestamp::zero(), AdsrEventType::SetRelease(release_time)));
    }

    /// Set the attack, decay, sustain, and release in one go, in that order
    pub fn set_adsr(&mut self, attack_time: Duration, decay_time: Duration, sustain_level: L, release_time: Duration)
        ensures
            final(self).sent_events().len() == old(self).sent_events().len() + 4,
            final(self).sent_events().take(old(self).sent_events().len() as int) == old(self).sent_events(),
            ({
                let sent = final(self).sent_events();
                let base = old(self).sent_events().len() as int;
                &&& sent[base].spec_event_time()@ == 0
                &&& sent[base].spec_event_type() == AdsrEventType::<L>::SetAttack(attack_time)
                &&& sent[base + 1].spec_event_time()@ == 0
                &&& sent[base + 1].spec_event_type() == AdsrEventType::<L>::SetDecay(decay_time)
                &&& sent[base + 2].spec_event_time()@ == 0
                &&& sent[base + 2].spec_event_type() == AdsrEventType::<L>::SetSustain(sustain_level)
                &&& sent[base + 3].spec_event_time()@ == 0
                &&& sent[base + 3].spec_event_type() == AdsrEventType::<L>::SetRelease(release_time)
            }),
            final(self).spec_node() == old(self).spec_node(),
    {
        let ghost start = self.sent_events();
        self.set_attack_time(attack_time);
        let ghost first = self.sent_events();
        self.set_decay_time(decay_time);
        let ghost second = self.sent_events();
        self.set_sustain_level(sustain_level);
        let ghost third = self.sent_events();
        self.set_release_time(release_time);
        proof {
            let base = start.len() as int;
            let sent = self.sent_events();
            assert(sent.drop_last() == third);
            assert(third.drop_last() == second);
            assert(second.drop_last() == first);
            assert(first.drop_last() == start);
            assert(sent[base] == first[base]);
            assert(sent[base + 1] == second[base + 1]);
            assert(sent[base + 2] == third[base + 2]);
            assert(sent.take(base) =~= start);
        }
    }
}

} // verus!

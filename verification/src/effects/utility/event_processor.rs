use vstd::multiset::Multiset;
use vstd::prelude::*;

use crate::channel::{drain_messages, EventReceiver};
use crate::timestamp::{clamp_ticks, samples_to_ticks, ticks_to_whole_samples, Timestamp};

verus! {

/// An event that can be scheduled on the timeline of an event processor
pub trait EventProcessorEvent: Sized {
    /// The time at which the event takes effect, in ticks
    spec fn spec_time(&self) -> i64;

    /// Whether the event discards every event that was scheduled before it
    /// arrived
    spec fn spec_clears_queue(&self) -> bool;

    /// The time at which the event takes effect
    fn get_time(&self) -> (time: Timestamp)
        ensures
            time@ == self.spec_time(),
    ;

    /// Whether the event discards every event that was scheduled before it
    /// arrived
    fn should_clear_queue(&self) -> (clear: bool)
        ensures
            clear == self.spec_clears_queue(),
    ;
}

/// Whether the events are in non-decreasing order of time
pub open spec fn sorted_by_time<Event: EventProcessorEvent>(events: Seq<Event>) -> bool {
    forall|i: int, j: int|
        0 <= i <= j < events.len() ==> events[i].spec_time() <= events[j].spec_time()
}

/// `event` inserted before the first pending event that is strictly later than
/// it (so after every event at the same time)
pub open spec fn insert_by_time<Event: EventProcessorEvent>(pending: Seq<Event>, event: Event) -> Seq<Event>
    decreases pending.len(),
{
    if pending.len() == 0 {
        seq![event]
    } else if event.spec_time() < pending[0].spec_time() {
        seq![event] + pending
    } else {
        seq![pending[0]] + insert_by_time(pending.drop_first(), event)
    }
}

/// The pending events after `event` arrives: a clearing event first discards
/// everything that is pending
pub open spec fn receive_one<Event: EventProcessorEvent>(pending: Seq<Event>, event: Event) -> Seq<Event> {
    if event.spec_clears_queue() {
        seq![event]
    } else {
        insert_by_time(pending, event)
    }
}

/// The pending events after `events` arrive, in order
pub open spec fn receive_all<Event: EventProcessorEvent>(pending: Seq<Event>, events: Seq<Event>) -> Seq<Event>
    decreases events.len(),
{
    if events.len() == 0 {
        pending
    } else {
        receive_one(receive_all(pending, events.drop_last()), events.last())
    }
}

/// Where the next event takes effect within a block of `frame_count` frames
/// that starts at `frame_start_time` (in ticks), when rendering has reached
/// `current_time`: the frame, the event, and the events left pending
///
/// If the earliest pending event takes effect before the end of the block,
/// it is taken from the queue, at the frame where it takes effect; an event
/// that is already late takes effect at `current_time`. Otherwise the whole
/// block can be rendered: the frame is `frame_count` and there is no event.
pub open spec fn next_event_in_block<Event: EventProcessorEvent>(
    pending: Seq<Event>,
    frame_start_time: i64,
    current_time: i64,
    frame_count: int,
    sample_rate: int,
) -> (int, Option<Event>, Seq<Event>) {
    let frame_end = clamp_ticks(frame_start_time + clamp_ticks(samples_to_ticks(frame_count, sample_rate)));
    if pending.len() > 0 && pending[0].spec_time() < frame_end {
        let event_time = if pending[0].spec_time() < current_time {
            current_time
        } else {
            pending[0].spec_time()
        };
        (
            ticks_to_whole_samples(clamp_ticks(event_time - frame_start_time), sample_rate),
            Some(pending[0]),
            pending.drop_first(),
        )
    } else {
        (frame_count, None, pending)
    }
}

/// The first frame of a span from `position` that ends at `end`, kept within
/// `position..=frame_count`
pub open spec fn span_end(end: int, position: int, frame_count: int) -> int {
    if end < position {
        position
    } else if end > frame_count {
        frame_count
    } else {
        end
    }
}

/// Inserting before the first strictly later event is splicing at that index
proof fn lemma_insert_at_first_later<Event: EventProcessorEvent>(pending: Seq<Event>, event: Event, index: int)
    requires
        0 <= index <= pending.len(),
        forall|j: int| 0 <= j < index ==> pending[j].spec_time() <= event.spec_time(),
        index < pending.len() ==> event.spec_time() < pending[index].spec_time(),
    ensures
        insert_by_time(pending, event) == pending.take(index).push(event) + pending.skip(index),
    decreases pending.len(),
{
    if pending.len() == 0 {
        assert(pending.take(index).push(event) + pending.skip(index) =~= seq![event]);
    } else if index == 0 {
        assert(pending.take(index).push(event) + pending.skip(index) =~= seq![event] + pending);
    } else {
        let rest = pending.drop_first();
        assert forall|j: int| 0 <= j < index - 1 implies rest[j].spec_time() <= event.spec_time() by {
            assert(rest[j] == pending[j + 1]);
        }
        lemma_insert_at_first_later(rest, event, index - 1);
        assert(pending.take(index).push(event) + pending.skip(index) =~= seq![pending[0]]
            + (rest.take(index - 1).push(event) + rest.skip(index - 1)));
    }
}

/// Inserting by time keeps a sorted sequence sorted
pub proof fn lemma_insert_keeps_sorted<Event: EventProcessorEvent>(pending: Seq<Event>, event: Event)
    requires
        sorted_by_time(pending),
    ensures
        sorted_by_time(insert_by_time(pending, event)),
        insert_by_time(pending, event).len() == pending.len() + 1,
        insert_by_time(pending, event).to_multiset() == pending.to_multiset().insert(event),
    decreases pending.len(),
{
    broadcast use vstd::seq_lib::group_to_multiset_ensures;
    if pending.len() == 0 {
        assert(seq![event].to_multiset() =~= Multiset::empty().insert(event)) by {
            assert(seq![event] =~= Seq::<Event>::empty().push(event));
        }
        assert(pending =~= Seq::<Event>::empty());
        assert(pending.to_multiset() =~= Multiset::empty());
    } else if event.spec_time() < pending[0].spec_time() {
        broadcast use vstd::seq_lib::group_to_multiset_ensures;
        let result = seq![event] + pending;
        assert forall|i: int, j: int| 0 <= i <= j < result.len() implies result[i].spec_time() <= result[j].spec_time() by {
            if i > 0 {
                assert(result[i] == pending[i - 1]);
                assert(result[j] == pending[j - 1]);
            } else if j > 0 {
                assert(result[j] == pending[j - 1]);
            }
        }
        vstd::seq_lib::lemma_multiset_commutative(seq![event], pending);
        assert(seq![event].to_multiset() =~= Multiset::empty().insert(event)) by {
            assert(seq![event] =~= Seq::<Event>::empty().push(event));
        }
    } else {
        broadcast use vstd::seq_lib::group_to_multiset_ensures;
        let rest = pending.drop_first();
        assert(sorted_by_time(rest)) by {
            assert forall|i: int, j: int| 0 <= i <= j < rest.len() implies rest[i].spec_time() <= rest[j].spec_time() by {
                assert(rest[i] == pending[i + 1]);
                assert(rest[j] == pending[j + 1]);
            }
        }
        lemma_insert_keeps_sorted(rest, event);
        let inserted = insert_by_time(rest, event);
        let result = seq![pending[0]] + inserted;
        assert forall|k: int| 0 <= k < inserted.len() implies pending[0].spec_time() <= #[trigger] inserted[k].spec_time() by {
            assert(inserted.to_multiset().count(inserted[k]) > 0);
            assert(pending.to_multiset().insert(event).count(inserted[k]) > 0);
            if inserted[k] != event {
                assert(rest.to_multiset().count(inserted[k]) > 0);
                assert(rest.contains(inserted[k]));
                let m = choose|m: int| 0 <= m < rest.len() && rest[m] == inserted[k];
                assert(rest[m] == pending[m + 1]);
            }
        }
        assert forall|i: int, j: int| 0 <= i <= j < result.len() implies result[i].spec_time() <= result[j].spec_time() by {
            if i > 0 {
                assert(result[i] == inserted[i - 1]);
                assert(result[j] == inserted[j - 1]);
            } else if j > 0 {
                assert(result[j] == inserted[j - 1]);
            }
        }
        vstd::seq_lib::lemma_multiset_commutative(seq![pending[0]], inserted);
        assert(seq![pending[0]].to_multiset() =~= Multiset::empty().insert(pending[0])) by {
            assert(seq![pending[0]] =~= Seq::<Event>::empty().push(pending[0]));
        }
        assert(pending =~= seq![pending[0]] + rest);
        vstd::seq_lib::lemma_multiset_commutative(seq![pending[0]], rest);
    }
}

/// Receiving events keeps the pending events sorted by time
pub proof fn lemma_receive_keeps_sorted<Event: EventProcessorEvent>(pending: Seq<Event>, events: Seq<Event>)
    requires
        sorted_by_time(pending),
    ensures
        sorted_by_time(receive_all(pending, events)),
    decreases events.len(),
{
    if events.len() > 0 {
        lemma_receive_keeps_sorted(pending, events.drop_last());
        let before = receive_all(pending, events.drop_last());
        if events.last().spec_clears_queue() {
        } else {
            lemma_insert_keeps_sorted(before, events.last());
        }
    }
}

/// The index before which an event is inserted: the first pending event
/// that is strictly later than it
proof fn lemma_insert_position<Event: EventProcessorEvent>(pending: Seq<Event>, event: Event) -> (index: int)
    requires
        sorted_by_time(pending),
    ensures
        0 <= index <= pending.len(),
        forall|j: int| 0 <= j < index ==> pending[j].spec_time() <= event.spec_time(),
        forall|j: int| index <= j < pending.len() ==> event.spec_time() < pending[j].spec_time(),
    decreases pending.len(),
{
    if pending.len() == 0 || event.spec_time() < pending[0].spec_time() {
        0
    } else {
        let rest = pending.drop_first();
        assert(sorted_by_time(rest)) by {
            assert forall|i: int, j: int| 0 <= i <= j < rest.len() implies rest[i].spec_time() <= rest[j].spec_time() by {
                assert(rest[i] == pending[i + 1]);
                assert(rest[j] == pending[j + 1]);
            }
        }
        let rest_index = lemma_insert_position(rest, event);
        assert forall|j: int| 0 <= j < rest_index + 1 implies pending[j].spec_time() <= event.spec_time() by {
            if j > 0 {
                assert(pending[j] == rest[j - 1]);
            }
        }
        assert forall|j: int| rest_index + 1 <= j < pending.len() implies event.spec_time() < pending[j].spec_time() by {
            assert(pending[j] == rest[j - 1]);
        }
        rest_index + 1
    }
}

/// An event that arrives is scheduled after every pending event at the same
/// time or earlier and before every later one, and the pending events keep
/// their order: events at the same time take effect in the order in which
/// they arrived
pub proof fn law_arrival_order<Event: EventProcessorEvent>(pending: Seq<Event>, event: Event)
    requires
        sorted_by_time(pending),
        !event.spec_clears_queue(),
    ensures
        exists|index: int|
            0 <= index <= pending.len() && receive_one(pending, event) == pending.take(index).push(event) + pending.skip(index)
                && (forall|j: int| 0 <= j < index ==> pending[j].spec_time() <= event.spec_time())
                && (forall|j: int| index <= j < pending.len() ==> event.spec_time() < pending[j].spec_time()),
{
    let index = lemma_insert_position(pending, event);
    lemma_insert_at_first_later(pending, event, index);
}

/// An event that clears the queue discards every event that was pending when
/// it arrived
pub proof fn law_clearing_event_discards_pending<Event: EventProcessorEvent>(pending: Seq<Event>, event: Event)
    requires
        event.spec_clears_queue(),
    ensures
        receive_one(pending, event) == seq![event],
{
}

/// When no arriving event clears the queue, every pending and every arriving
/// event is kept, none twice
pub proof fn law_receive_keeps_events<Event: EventProcessorEvent>(pending: Seq<Event>, events: Seq<Event>)
    requires
        sorted_by_time(pending),
        forall|i: int| 0 <= i < events.len() ==> !(#[trigger] events[i]).spec_clears_queue(),
    ensures
        receive_all(pending, events).to_multiset() == pending.to_multiset().add(events.to_multiset()),
    decreases events.len(),
{
    broadcast use vstd::seq_lib::group_to_multiset_ensures;
    if events.len() == 0 {
        assert(events.to_multiset() =~= Multiset::empty());
        assert(pending.to_multiset().add(Multiset::empty()) =~= pending.to_multiset());
    } else {
        let rest = events.drop_last();
        assert forall|i: int| 0 <= i < rest.len() implies !(#[trigger] rest[i]).spec_clears_queue() by {
            assert(rest[i] == events[i]);
        }
        law_receive_keeps_events(pending, rest);
        lemma_receive_keeps_sorted(pending, rest);
        let before = receive_all(pending, rest);
        assert(!events[events.len() - 1].spec_clears_queue());
        lemma_insert_keeps_sorted(before, events.last());
        assert(events =~= rest.push(events.last()));
        assert(events.to_multiset() == rest.to_multiset().insert(events.last()));
        assert(pending.to_multiset().add(rest.to_multiset()).insert(events.last()) =~= pending.to_multiset().add(
            rest.to_multiset().insert(events.last()),
        ));
    }
}

/// The event that takes effect next is the earliest pending one: every event
/// left pending takes effect no earlier, and they stay in order
pub proof fn law_next_event_is_earliest<Event: EventProcessorEvent>(
    pending: Seq<Event>,
    frame_start_time: i64,
    current_time: i64,
    frame_count: int,
    sample_rate: int,
)
    requires
        sorted_by_time(pending),
    ensures
        ({
            let next = next_event_in_block(pending, frame_start_time, current_time, frame_count, sample_rate);
            &&& sorted_by_time(next.2)
            &&& (next.1 matches Some(event) ==> forall|i: int|
                0 <= i < next.2.len() ==> event.spec_time() <= #[trigger] next.2[i].spec_time())
        }),
{
    let next = next_event_in_block(pending, frame_start_time, current_time, frame_count, sample_rate);
    if next.1 is Some {
        let rest = pending.drop_first();
        assert forall|i: int| 0 <= i < rest.len() implies pending[0].spec_time() <= #[trigger] rest[i].spec_time() by {
            assert(rest[i] == pending[i + 1]);
        }
        assert forall|i: int, j: int| 0 <= i <= j < rest.len() implies rest[i].spec_time() <= rest[j].spec_time() by {
            assert(rest[i] == pending[i + 1]);
            assert(rest[j] == pending[j + 1]);
        }
    }
}

/// Turns the timed events that arrive on a channel into positions within the
/// audio blocks that are being rendered
#[verifier::reject_recursive_types(Event)]
pub struct EventProcessor<Event> {
    pending_events: Vec<Event>,
    receive_channel: EventReceiver<Event>,
    sample_rate: usize,
}

impl<Event: EventProcessorEvent> EventProcessor<Event> {
    /// The events that are waiting to take effect, earliest first
    pub closed spec fn pending(&self) -> Seq<Event> {
        self.pending_events@
    }

    /// The sample rate of the timeline
    pub closed spec fn spec_sample_rate(&self) -> usize {
        self.sample_rate
    }

    /// The processor's invariant: a positive sample rate, and the pending
    /// events in order of time
    pub open spec fn wf(&self) -> bool {
        &&& self.spec_sample_rate() > 0
        &&& sorted_by_time(self.pending())
    }

    /// An event processor that reads its events from `receive_channel`
    pub fn with_capacity(capacity: usize, receive_channel: EventReceiver<Event>, sample_rate: usize) -> (processor: Self)
        requires
            sample_rate > 0,
        ensures
            processor.wf(),
            processor.pending() == Seq::<Event>::empty(),
            processor.spec_sample_rate() == sample_rate,
    {
        Self { pending_events: Vec::with_capacity(capacity), receive_channel, sample_rate }
    }

    /// The sample rate of the timeline
    pub fn sample_rate(&self) -> (sample_rate: usize)
        ensures
            sample_rate == self.spec_sample_rate(),
    {
        self.sample_rate
    }

    /// Take every event that is waiting on the channel and schedule it
    pub fn receive_events(&mut self)
        requires
            old(self).wf(),
        ensures
            final(self).wf(),
            final(self).spec_sample_rate() == old(self).spec_sample_rate(),
            exists|events: Seq<Event>| final(self).pending() == receive_all(old(self).pending(), events),
    {
        let events = drain_messages(&self.receive_channel);
        self.add_events(events);
    }

    /// Schedule `events`, in the order in which they arrived
    ///
    /// An event that clears the queue discards everything that was scheduled
    /// before it. Events at the same time keep the order in which they
    /// arrived.
    pub fn add_events(&mut self, events: Vec<Event>)
        requires
            old(self).wf(),
        ensures
            final(self).wf(),
            final(self).spec_sample_rate() == old(self).spec_sample_rate(),
            final(self).pending() == receive_all(old(self).pending(), events@),
    {
        let ghost start = self.pending_events@;
        let ghost all = events@;
        for event in iter: events
            invariant
                self.wf(),
                self.spec_sample_rate() == old(self).spec_sample_rate(),
                start == old(self).pending(),
                iter.seq() == all,
                self.pending() == receive_all(start, all.take(iter.index())),
        {
            let ghost index = iter.index();
            assert(event == all[index]);
            proof {
                assert(all.take(index + 1).drop_last() =~= all.take(index));
                assert(all.take(index + 1).last() == event);
            }
            self.add_event(event);
        }
        assert(all.take(all.len() as int) =~= all);
    }

    fn add_event(&mut self, event: Event)
        requires
            old(self).wf(),
        ensures
            final(self).wf(),
            final(self).spec_sample_rate() == old(self).spec_sample_rate(),
            final(self).pending() == receive_one(old(self).pending(), event),
    {
        if event.should_clear_queue() {
            self.pending_events.clear();
            self.pending_events.push(event);
            assert(self.pending_events@ =~= seq![event]);
            return;
        }
        let time = event.get_time();
        let mut index: usize = 0;
        while index < self.pending_events.len()
            invariant
                0 <= index <= self.pending_events@.len(),
                self.pending_events@ == old(self).pending_events@,
                forall|j: int| 0 <= j < index ==> self.pending_events@[j].spec_time() <= time@,
            ensures
                0 <= index <= self.pending_events@.len(),
                forall|j: int| 0 <= j < index ==> self.pending_events@[j].spec_time() <= time@,
                index < self.pending_events@.len() ==> time@ < self.pending_events@[index as int].spec_time(),
            decreases self.pending_events@.len() - index,
        {
            let later = time.is_before(&self.pending_events[index].get_time());
            if later {
                break;
            }
            index = index + 1;
        }
        proof {
            lemma_insert_at_first_later(old(self).pending_events@, event, index as int);
            lemma_insert_keeps_sorted(old(self).pending_events@, event);
        }
        self.pending_events.insert(index, event);
        assert(self.pending_events@ =~= old(self).pending_events@.take(index as int).push(event)
            + old(self).pending_events@.skip(index as int));
    }

    /// Take the earliest pending event, if it takes effect before `end_time`
    fn next_event_before(&mut self, end_time: &Timestamp) -> (event: Option<Event>)
        requires
            old(self).wf(),
        ensures
            final(self).wf(),
            final(self).spec_sample_rate() == old(self).spec_sample_rate(),
            old(self).pending().len() > 0 && old(self).pending()[0].spec_time() < end_time@ ==> {
                &&& event == Some(old(self).pending()[0])
                &&& final(self).pending() == old(self).pending().drop_first()
            },
            !(old(self).pending().len() > 0 && old(self).pending()[0].spec_time() < end_time@) ==> {
                &&& event.is_none()
                &&& final(self).pending() == old(self).pending()
            },
    {
        if self.pending_events.len() > 0 {
            let first_time = self.pending_events[0].get_time();
            if first_time.is_before(end_time) {
                let event = self.pending_events.remove(0);
                assert(self.pending_events@ =~= old(self).pending_events@.drop_first());
                return Some(event);
            }
        }
        None
    }

    /// Find where the next event takes effect within a block of `frame_count`
    /// frames that starts at `frame_start_time`, when rendering has reached
    /// `current_frame_position`
    ///
    /// If the earliest pending event takes effect before the end of the block,
    /// it is taken from the queue and returned with the frame at which it
    /// takes effect: an event that is already late takes effect at the
    /// current position. Otherwise the whole block can be rendered: the
    /// result is `frame_count` and no event.
    pub fn next_event(
        &mut self,
        frame_start_time: &Timestamp,
        current_frame_position: &Timestamp,
        frame_count: usize,
    ) -> (next: (usize, Option<Event>))
        requires
            old(self).wf(),
        ensures
            final(self).wf(),
            final(self).spec_sample_rate() == old(self).spec_sample_rate(),
            ({
                let next_spec = next_event_in_block(
                    old(self).pending(),
                    frame_start_time@,
                    current_frame_position@,
                    frame_count as int,
                    old(self).spec_sample_rate() as int,
                );
                &&& next.0 == next_spec.0
                &&& next.1 == next_spec.1
                &&& final(self).pending() == next_spec.2
            }),
    {
        let frame_end_time = frame_start_time.incremented_by_samples(frame_count, self.sample_rate);
        match self.next_event_before(&frame_end_time) {
            Some(next_event) => {
                let event_time = Timestamp::latest(next_event.get_time(), *current_frame_position);
                let position_in_frame = event_time.minus(*frame_start_time);
                (position_in_frame.as_whole_samples(self.sample_rate), Some(next_event))
            },
            None => (frame_count, None),
        }
    }
}

} // verus!

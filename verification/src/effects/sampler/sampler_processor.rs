use vstd::prelude::*;

use crate::channel::EventReceiver;
use crate::effects::utility::{next_event_in_block, receive_all, span_end, EventProcessor, EventProcessorEvent};
use crate::timestamp::{
    clamp_ticks, clamp_usize, samples_to_ticks, ticks_to_rounded_samples, Timestamp, TICKS_PER_SECOND,
};

use super::sampler_event::{SampleEventType, SamplerEvent};
use super::sampler_voice::{
    lemma_render_voice_within, min_int, phase_within_fade, render_voice, Phase, RenderSegment, Voice,
};

verus! {

/// The number of voices that can sound at once: one playing, one fading out
pub const NUM_VOICES: usize = 2;

/// The number of events that can be pending before the queue grows
pub const MAX_PENDING_EVENTS: usize = 16;

/// The length of the fades at the start and stop of playback, in
/// milliseconds
pub const FADE_LENGTH_MILLISECONDS: usize = 50;

/// The state of a sampler that its events and rendering act on
pub struct SamplerState {
    /// The position and phase of each voice
    pub voices: Seq<(usize, Phase)>,
    /// The voice that plays the current playback, if any
    pub active_voice: Option<usize>,
    /// The loop start and end, in ticks of the sample, if looping
    pub loop_points: Option<(i64, i64)>,
    /// The time since playback started, in ticks
    pub position: i64,
    /// The position in the sample from which playback started, in ticks
    pub start_position_in_sample: i64,
    /// The number of times playback has gone back to the loop start
    pub completed_loops: usize,
}

/// The phase a voice is in once it has been told to stop
pub open spec fn stopped_phase(phase: Phase) -> Phase {
    match phase {
        Phase::FadingIn(_) => Phase::FadingOut(0),
        Phase::Playing => Phase::FadingOut(0),
        phase => phase,
    }
}

/// Every voice told to stop
pub open spec fn stop_all(voices: Seq<(usize, Phase)>) -> Seq<(usize, Phase)> {
    voices.map_values(|voice: (usize, Phase)| (voice.0, stopped_phase(voice.1)))
}

/// Whether `index` is the first voice that is stopped
pub open spec fn is_first_stopped(voices: Seq<(usize, Phase)>, index: int) -> bool {
    &&& 0 <= index < voices.len()
    &&& voices[index].1 == Phase::Stopped
    &&& forall|k: int| 0 <= k < index ==> voices[k].1 != Phase::Stopped
}

/// The phase of a voice that starts at `position` in the sample
pub open spec fn started_phase(position: int) -> Phase {
    if position == 0 {
        Phase::Playing
    } else {
        Phase::FadingIn(0)
    }
}

/// The voices and the active voice after playback is sent to
/// `sample_position`
///
/// If the active voice is already there, nothing changes. Otherwise every
/// voice is told to stop, and the first voice that is silent starts from
/// `sample_position`; if none is silent, no voice plays.
pub open spec fn assign_voice(
    voices: Seq<(usize, Phase)>,
    active_voice: Option<usize>,
    sample_position: int,
) -> (Seq<(usize, Phase)>, Option<usize>) {
    if active_voice.is_some() && 0 <= active_voice.unwrap() < voices.len()
        && voices[active_voice.unwrap() as int].0 == sample_position {
        (voices, active_voice)
    } else {
        let stopped = stop_all(voices);
        if exists|index: int| is_first_stopped(stopped, index) {
            let index = choose|index: int| is_first_stopped(stopped, index);
            (
                stopped.update(index, (sample_position as usize, started_phase(sample_position))),
                Some(index as usize),
            )
        } else {
            (stopped, None)
        }
    }
}

/// The state after playback starts from `from_position` in the sample, as if
/// it had started `delay` ago
pub open spec fn start_playback(state: SamplerState, from_position: i64, delay: i64, sample_rate: int) -> SamplerState {
    let assigned = assign_voice(
        state.voices,
        state.active_voice,
        ticks_to_rounded_samples(clamp_ticks(from_position + delay), sample_rate),
    );
    SamplerState {
        voices: assigned.0,
        active_voice: assigned.1,
        completed_loops: 0,
        position: delay,
        start_position_in_sample: from_position,
        ..state
    }
}

/// The state after playback stops
pub open spec fn stop_playback(state: SamplerState) -> SamplerState {
    SamplerState { voices: stop_all(state.voices), active_voice: None, ..state }
}

/// The state after `event` takes effect at `current_time`
pub open spec fn apply_event(state: SamplerState, event: SamplerEvent, current_time: i64, sample_rate: int) -> SamplerState {
    match event.spec_event_type() {
        SampleEventType::Start(position_in_sample) => start_playback(
            state,
            position_in_sample@,
            clamp_ticks(current_time - event.spec_event_time()@) as i64,
            sample_rate,
        ),
        SampleEventType::StartImmediate => start_playback(state, 0, 0, sample_rate),
        SampleEventType::Stop => stop_playback(state),
        SampleEventType::EnableLoop(loop_start, loop_end) => SamplerState {
            loop_points: Some((loop_start@, loop_end@)),
            ..state
        },
        SampleEventType::CancelLoop => SamplerState { loop_points: None, ..state },
        SampleEventType::CancelAll => SamplerState { loop_points: None, ..stop_playback(state) },
    }
}

/// The time, since playback started, at which playback reaches the end of
/// the sample or (when looping) the loop end for the next time, in ticks
pub open spec fn next_loop_position(state: SamplerState, sample_frame_count: int, sample_rate: int) -> int {
    match state.loop_points {
        None => clamp_ticks(samples_to_ticks(sample_frame_count, sample_rate)),
        Some((loop_start, loop_end)) => {
            let first_loop_length = clamp_ticks(loop_end - state.start_position_in_sample);
            let subsequent_loop_length = clamp_ticks(loop_end - loop_start);
            clamp_ticks(first_loop_length + clamp_ticks(subsequent_loop_length * state.completed_loops))
        },
    }
}

/// The span, in ticks, that can be rendered before the end of a block of
/// `samples_remaining` samples or the next loop end, whichever comes first
pub open spec fn render_interval(
    state: SamplerState,
    samples_remaining: int,
    sample_frame_count: int,
    sample_rate: int,
) -> int {
    let end_of_frame = clamp_ticks(state.position + clamp_ticks(samples_to_ticks(samples_remaining, sample_rate)));
    let end_of_sample = next_loop_position(state, sample_frame_count, sample_rate);
    let end_point = if end_of_frame < end_of_sample {
        end_of_frame
    } else {
        end_of_sample
    };
    clamp_ticks(end_point - state.position)
}

/// The state after playback goes back to `from_position` in the sample at
/// the end of a loop
pub open spec fn loop_back_state(state: SamplerState, from_position: i64, sample_rate: int) -> SamplerState {
    let assigned = assign_voice(state.voices, state.active_voice, ticks_to_rounded_samples(from_position as int, sample_rate));
    SamplerState {
        voices: assigned.0,
        active_voice: assigned.1,
        completed_loops: clamp_usize(state.completed_loops + 1) as usize,
        ..state
    }
}

/// The state after playback reaches the end of the sample or of the loop:
/// back to the loop start when looping, unchanged otherwise
pub open spec fn finish_sample_state(state: SamplerState, sample_rate: int) -> SamplerState {
    match state.loop_points {
        Some((loop_start, _)) => loop_back_state(state, loop_start, sample_rate),
        None => state,
    }
}

/// Whether going back to the loop start moves the next loop end later
///
/// It does for every loop of positive length, until the loop count or the
/// timeline saturates; a loop that ends where it starts, or before, never
/// moves its end.
pub open spec fn restart_moves_loop_end(state: SamplerState, sample_frame_count: int, sample_rate: int) -> bool {
    next_loop_position(state, sample_frame_count, sample_rate) < next_loop_position(
        finish_sample_state(state, sample_rate),
        sample_frame_count,
        sample_rate,
    )
}

/// How far, in ticks, the next loop end may still move later before it
/// lies a second past the playback time; zero once it does
///
/// When nothing can be rendered the loop end lies less than half a sample
/// past the playback time, so this is positive, and each restart that moves
/// the loop end makes it smaller.
pub open spec fn restart_measure(state: SamplerState, sample_frame_count: int, sample_rate: int) -> int {
    let lag = state.position - next_loop_position(state, sample_frame_count, sample_rate) + TICKS_PER_SECOND as int;
    if lag > 0 {
        lag
    } else {
        0
    }
}

/// When nothing of a block can be rendered, the next loop end lies less than
/// a second past the playback time, so going back to the loop start goes on
/// for as long as it moves the loop end later
///
/// This holds at every sample rate up to half the tick rate, away from the
/// end of the timeline.
pub proof fn law_nothing_to_render_means_loop_end_is_near(
    state: SamplerState,
    samples_remaining: int,
    sample_frame_count: int,
    sample_rate: int,
)
    requires
        0 < sample_rate <= TICKS_PER_SECOND / 2,
        1 <= samples_remaining,
        state.position + TICKS_PER_SECOND <= i64::MAX,
        ticks_to_rounded_samples(render_interval(state, samples_remaining, sample_frame_count, sample_rate), sample_rate) <= 0,
    ensures
        restart_measure(state, sample_frame_count, sample_rate) > 0,
{
    let t = TICKS_PER_SECOND as int;
    let x = samples_to_ticks(samples_remaining, sample_rate);
    assert(x >= t / sample_rate) by (nonlinear_arith)
        requires
            x == samples_remaining * t / sample_rate,
            samples_remaining >= 1,
            sample_rate > 0,
            t > 0,
    {
        assert(samples_remaining * t >= t);
    }
    assert(2 * (t / sample_rate) * sample_rate >= t) by (nonlinear_arith)
        requires
            0 < sample_rate <= t / 2,
            t > 0,
    {
        assert(t / sample_rate * sample_rate > t - sample_rate);
    }
    let nlp = next_loop_position(state, sample_frame_count, sample_rate);
    if nlp >= state.position + t {
        let interval = render_interval(state, samples_remaining, sample_frame_count, sample_rate);
        let low = if x < t { t / sample_rate } else { t };
        assert(t / sample_rate <= t) by (nonlinear_arith)
            requires
                sample_rate >= 1,
                t > 0,
        ;
        assert(interval >= low);
        assert(2 * interval * sample_rate >= t) by (nonlinear_arith)
            requires
                interval >= low,
                low >= t / sample_rate,
                2 * (t / sample_rate) * sample_rate >= t,
                sample_rate > 0,
        ;
        assert((2 * interval * sample_rate + t) / (2 * t) >= 1) by (nonlinear_arith)
            requires
                2 * interval * sample_rate >= t,
                t > 0,
        ;
        let v = (2 * interval * sample_rate + t) / (2 * t);
        assert(interval > 0) by (nonlinear_arith)
            requires
                2 * interval * sample_rate >= t,
                t > 0,
                sample_rate > 0,
        ;
        assert(v >= 1);
        assert(clamp_usize(v) >= 1);
        assert(ticks_to_rounded_samples(interval, sample_rate) == clamp_usize(v));
    }
    assert(state.position - nlp + t > 0);
}

/// The state, and the segments mixed in, after the voices render the span
/// from `frame_position` to `frame_count` of the output that starts at
/// `block_offset`, going back to the loop start each time playback reaches
/// the loop end
///
/// Playback goes back to the loop start for as long as nothing can be
/// rendered, each time moving the next loop end later by one loop length.
/// Rendering stops early when the sample has ended and no loop is set, or
/// when going back to the loop start would not move the loop end (a loop
/// that ends where it starts, or before, or a saturated timeline).
pub open spec fn render_span(
    state: SamplerState,
    block_offset: int,
    frame_position: int,
    frame_count: int,
    source_frame_count: int,
    fade_length: int,
    sample_rate: int,
) -> (SamplerState, Seq<RenderSegment>)
    decreases frame_count - frame_position, restart_measure(state, source_frame_count, sample_rate),
{
    if frame_position >= frame_count {
        (state, Seq::empty())
    } else {
        let remaining = frame_count - frame_position;
        let interval = ticks_to_rounded_samples(
            render_interval(state, remaining, source_frame_count, sample_rate),
            sample_rate,
        );
        let render_frame_count = min_int(interval, remaining);
        if render_frame_count <= 0 {
            if state.loop_points.is_some() && restart_measure(state, source_frame_count, sample_rate) > 0
                && restart_moves_loop_end(state, source_frame_count, sample_rate) {
                render_span(
                    finish_sample_state(state, sample_rate),
                    block_offset,
                    frame_position,
                    frame_count,
                    source_frame_count,
                    fade_length,
                    sample_rate,
                )
            } else {
                (state, Seq::empty())
            }
        } else {
            let rendered = SamplerState {
                voices: render_voices(state.voices, render_frame_count, source_frame_count, fade_length),
                position: clamp_ticks(state.position + clamp_ticks(samples_to_ticks(render_frame_count, sample_rate))) as i64,
                ..state
            };
            let segments = voices_segments(
                state.voices,
                render_frame_count,
                source_frame_count,
                fade_length,
                block_offset + frame_position,
            );
            let rest = render_span(
                rendered,
                block_offset,
                frame_position + render_frame_count,
                frame_count,
                source_frame_count,
                fade_length,
                sample_rate,
            );
            (rest.0, segments + rest.1)
        }
    }
}

/// Once playback stops, no voice plays or fades in: each one is silent or
/// fading out from where it was, and no voice is active
pub proof fn law_stop_silences_playback(state: SamplerState)
    ensures
        stop_playback(state).active_voice.is_none(),
        stop_playback(state).voices.len() == state.voices.len(),
        forall|i: int|
            0 <= i < state.voices.len() ==> {
                let voice = #[trigger] stop_playback(state).voices[i];
                &&& voice.0 == state.voices[i].0
                &&& (voice.1 == Phase::Stopped || voice.1 is FadingOut)
            },
{
}

/// Whether the active voice already sits at `sample_position`
pub open spec fn voice_already_there(state: SamplerState, sample_position: int) -> bool {
    state.active_voice matches Some(index) && state.voices[index as int].0 == sample_position
}

/// Playback that starts plays from the requested position: the active voice
/// sits there, it fades in unless it starts at the beginning of the sample
/// (or was already there), every other voice stops, and the loop count and
/// the playback time start over
pub proof fn law_start_plays_from_position(state: SamplerState, from_position: i64, delay: i64, sample_rate: int)
    requires
        0 < sample_rate,
        state.voices.len() <= usize::MAX,
        state.active_voice matches Some(index) ==> index < state.voices.len(),
    ensures
        start_playback(state, from_position, delay, sample_rate).position == delay,
        start_playback(state, from_position, delay, sample_rate).completed_loops == 0,
        start_playback(state, from_position, delay, sample_rate).start_position_in_sample == from_position,
        start_playback(state, from_position, delay, sample_rate).loop_points == state.loop_points,
        start_playback(state, from_position, delay, sample_rate).active_voice matches Some(index) ==> {
            let started = start_playback(state, from_position, delay, sample_rate);
            &&& index < started.voices.len()
            &&& started.voices[index as int].0 == ticks_to_rounded_samples(clamp_ticks(from_position + delay), sample_rate)
        },
        !voice_already_there(state, ticks_to_rounded_samples(clamp_ticks(from_position + delay), sample_rate)) ==> {
            let started = start_playback(state, from_position, delay, sample_rate);
            let sample_position = ticks_to_rounded_samples(clamp_ticks(from_position + delay), sample_rate);
            &&& (started.active_voice matches Some(index) ==> started.voices[index as int].1 == started_phase(sample_position))
            &&& forall|i: int|
                0 <= i < started.voices.len() && started.active_voice != Some(i as usize) ==> {
                    let voice = #[trigger] started.voices[i];
                    voice.1 == Phase::Stopped || voice.1 is FadingOut
                }
        },
{
    let ticks = clamp_ticks(from_position + delay);
    let sample_position = ticks_to_rounded_samples(ticks, sample_rate);
    if ticks > 0 {
        assert((2 * ticks * sample_rate + TICKS_PER_SECOND) / (2 * TICKS_PER_SECOND as int) >= 0) by (nonlinear_arith)
            requires
                ticks > 0,
                sample_rate > 0,
        ;
    }
    assert(0 <= sample_position <= usize::MAX);
    let stopped = stop_all(state.voices);
    let started = start_playback(state, from_position, delay, sample_rate);
    let kept = voice_already_there(state, sample_position);
    if kept {
        assert(started.voices == state.voices);
        assert(started.active_voice == state.active_voice);
    } else {
        if exists|index: int| is_first_stopped(stopped, index) {
            let index = choose|index: int| is_first_stopped(stopped, index);
            assert(0 <= index < stopped.len());
            assert(started.voices == stopped.update(index, (sample_position as usize, started_phase(sample_position))));
            assert(started.active_voice == Some(index as usize));
            assert(started.voices[index].0 == sample_position);
            assert forall|i: int|
                0 <= i < started.voices.len() && started.active_voice != Some(i as usize) implies {
                    let voice = #[trigger] started.voices[i];
                    voice.1 == Phase::Stopped || voice.1 is FadingOut
                } by {
                assert(i != index);
                assert(started.voices[i] == stopped[i]);
            }
        } else {
            assert(started.voices == stopped);
            assert forall|i: int|
                0 <= i < started.voices.len() && started.active_voice != Some(i as usize) implies {
                    let voice = #[trigger] started.voices[i];
                    voice.1 == Phase::Stopped || voice.1 is FadingOut
                } by {
                assert(started.voices[i] == stopped[i]);
            }
        }
    }
}

/// Each time playback goes back to the loop start it counts one more loop
/// (saturating), and the loop points and the playback time stay as they are
pub proof fn law_loop_back_counts_loops(state: SamplerState, from_position: i64, sample_rate: int)
    ensures
        loop_back_state(state, from_position, sample_rate).completed_loops == clamp_usize(state.completed_loops + 1),
        loop_back_state(state, from_position, sample_rate).loop_points == state.loop_points,
        loop_back_state(state, from_position, sample_rate).position == state.position,
        loop_back_state(state, from_position, sample_rate).start_position_in_sample == state.start_position_in_sample,
{
}

/// The sampler's processing on the audio thread: it turns scheduled events
/// into a plan of which parts of the sample to mix into each block
pub struct SamplerDspProcess {
    fade_length: usize,
    voices: Vec<Voice>,
    active_voice: Option<usize>,
    sample_frame_count: usize,
    event_processor: EventProcessor<SamplerEvent>,
    sample_rate: usize,
    loop_points: Option<(Timestamp, Timestamp)>,
    position: Timestamp,
    start_position_in_sample: Timestamp,
    completed_loops: usize,
}

impl View for SamplerDspProcess {
    type V = SamplerState;

    closed spec fn view(&self) -> SamplerState {
        SamplerState {
            voices: self.voices@.map_values(|voice: Voice| (voice.spec_position(), voice.spec_phase())),
            active_voice: self.active_voice,
            loop_points: match self.loop_points {
                Some((loop_start, loop_end)) => Some((loop_start@, loop_end@)),
                None => None,
            },
            position: self.position@,
            start_position_in_sample: self.start_position_in_sample@,
            completed_loops: self.completed_loops,
        }
    }
}

impl SamplerDspProcess {
    /// The length of the fades, in frames
    pub closed spec fn spec_fade_length(&self) -> usize {
        self.fade_length
    }

    /// The length of the sample, in frames
    pub closed spec fn spec_sample_frame_count(&self) -> usize {
        self.sample_frame_count
    }

    /// The sample rate of the sample and the output
    pub closed spec fn spec_sample_rate(&self) -> usize {
        self.sample_rate
    }

    /// The events that are waiting to take effect
    pub closed spec fn pending_events(&self) -> Seq<SamplerEvent> {
        self.event_processor.pending()
    }

    /// The processor's invariant
    pub closed spec fn wf(&self) -> bool {
        &&& self.sample_rate > 0
        &&& self.event_processor.wf()
        &&& self.event_processor.spec_sample_rate() == self.sample_rate
        &&& self.voices@.len() == NUM_VOICES
        &&& forall|i: int| 0 <= i < self.voices@.len() ==> phase_within_fade(#[trigger] self.voices@[i].spec_phase(), self.fade_length as int)
        &&& self.active_voice matches Some(index) ==> index < self.voices@.len()
    }

    /// A sampler for a sample of `sample_frame_count` frames, with fades of
    /// 50 ms
    pub fn new(sample_rate: usize, sample_frame_count: usize, event_receiver: EventReceiver<SamplerEvent>) -> (process: Self)
        requires
            sample_rate > 0,
        ensures
            process.wf(),
            process.spec_fade_length() == (sample_rate * FADE_LENGTH_MILLISECONDS + 999) / 1000,
            process.spec_sample_frame_count() == sample_frame_count,
            process.spec_sample_rate() == sample_rate,
            process@.voices == seq![(0usize, Phase::Stopped), (0usize, Phase::Stopped)],
            process@.active_voice.is_none(),
            process@.loop_points.is_none(),
            process@.position == 0,
            process@.start_position_in_sample == 0,
            process@.completed_loops == 0,
            process.pending_events() == Seq::<SamplerEvent>::empty(),
    {
        let scaled: u128 = (sample_rate as u128) * (FADE_LENGTH_MILLISECONDS as u128) + 999;
        let fade_length_wide: u128 = scaled / 1000;
        assert(fade_length_wide <= sample_rate);
        let fade_length = fade_length_wide as usize;
        Self::new_wth_fade(sample_rate, sample_frame_count, event_receiver, fade_length)
    }

    /// A sampler for a sample of `sample_frame_count` frames, with fades of
    /// `fade_length` frames
    pub fn new_wth_fade(
        sample_rate: usize,
        sample_frame_count: usize,
        event_receiver: EventReceiver<SamplerEvent>,
        fade_length: usize,
    ) -> (process: Self)
        requires
            sample_rate > 0,
        ensures
            process.wf(),
            process.spec_fade_length() == fade_length,
            process.spec_sample_frame_count() == sample_frame_count,
            process.spec_sample_rate() == sample_rate,
            process@.voices == seq![(0usize, Phase::Stopped), (0usize, Phase::Stopped)],
            process@.active_voice.is_none(),
            process@.loop_points.is_none(),
            process@.position == 0,
            process@.start_position_in_sample == 0,
            process@.completed_loops == 0,
            process.pending_events() == Seq::<SamplerEvent>::empty(),
    {
        let mut voices: Vec<Voice> = Vec::new();
        voices.push(Voice::new());
        voices.push(Voice::new());
        let process = Self {
            fade_length,
            voices,
            active_voice: None,
            sample_frame_count,
            event_processor: EventProcessor::with_capacity(MAX_PENDING_EVENTS, event_receiver, sample_rate),
            sample_rate,
            loop_points: None,
            position: Timestamp::zero(),
            start_position_in_sample: Timestamp::zero(),
            completed_loops: 0,
        };
        assert(process@.voices =~= seq![(0usize, Phase::Stopped), (0usize, Phase::Stopped)]);
        process
    }

    /// A sampler for a sample of `sample_frame_count` frames, without fades
    pub fn new_without_fade(
        sample_rate: usize,
        sample_frame_count: usize,
        event_receiver: EventReceiver<SamplerEvent>,
    ) -> (process: Self)
        requires
            sample_rate > 0,
        ensures
            process.wf(),
            process.spec_fade_length() == 0,
            process.spec_sample_frame_count() == sample_frame_count,
            process.spec_sample_rate() == sample_rate,
            process@.voices == seq![(0usize, Phase::Stopped), (0usize, Phase::Stopped)],
            process@.active_voice.is_none(),
            process@.loop_points.is_none(),
            process@.position == 0,
            process@.start_position_in_sample == 0,
            process@.completed_loops == 0,
            process.pending_events() == Seq::<SamplerEvent>::empty(),
    {
        Self::new_wth_fade(sample_rate, sample_frame_count, event_receiver, 0)
    }

    /// The length of the fades, in frames
    pub fn fade_length(&self) -> (fade_length: usize)
        ensures
            fade_length == self.spec_fade_length(),
    {
        self.fade_length
    }

    /// The number of times playback has gone back to the loop start
    pub fn completed_loops(&self) -> (completed_loops: usize)
        ensures
            completed_loops == self@.completed_loops,
    {
        self.completed_loops
    }

    /// Schedule events directly, as if they had arrived on the channel
    pub fn add_events(&mut self, events: Vec<SamplerEvent>)
        requires
            old(self).wf(),
        ensures
            final(self).wf(),
            final(self)@ == old(self)@,
            final(self).spec_fade_length() == old(self).spec_fade_length(),
            final(self).spec_sample_frame_count() == old(self).spec_sample_frame_count(),
            final(self).spec_sample_rate() == old(self).spec_sample_rate(),
            final(self).pending_events() == crate::effects::utility::receive_all(old(self).pending_events(), events@),
    {
        self.event_processor.add_events(events);
    }

    /// The time, since playback started, at which playback reaches the end
    /// of the sample or the next loop end
    fn next_loop_position(&self) -> (position: Timestamp)
        requires
            self.wf(),
        ensures
            position@ == next_loop_position(self@, self.sample_frame_count as int, self.sample_rate as int),
    {
        match self.loop_points {
            Some((loop_start, loop_end)) => {
                let first_loop_length = loop_end.minus(self.start_position_in_sample);
                let subsequent_loop_length = loop_end.minus(loop_start);
                first_loop_length.plus(subsequent_loop_length.multiplied_by(self.completed_loops))
            },
            None => Timestamp::from_samples(self.sample_frame_count, self.sample_rate),
        }
    }

    /// The span that can be rendered before the end of the block or the next
    /// loop end
    fn get_render_interval(&self, samples_remaining: usize) -> (interval: Timestamp)
        requires
            self.wf(),
        ensures
            interval@ == render_interval(self@, samples_remaining as int, self.sample_frame_count as int, self.sample_rate as int),
    {
        let end_of_frame = self.position.incremented_by_samples(samples_remaining, self.sample_rate);
        let end_of_sample = self.next_loop_position();
        let end_point = Timestamp::earliest(end_of_frame, end_of_sample);
        end_point.minus(self.position)
    }

    /// Whether a loop is set
    fn is_looping(&self) -> (looping: bool)
        ensures
            looping == self@.loop_points.is_some(),
    {
        self.loop_points.is_some()
    }

    /// Whether going back to the loop start now is needed and moves the next
    /// loop end later: the loop end lies less than a second past the
    /// playback time, and the restart moves it
    fn restart_moves_loop_end(&self) -> (moves: bool)
        requires
            self.wf(),
        ensures
            moves == (restart_measure(self@, self.sample_frame_count as int, self.sample_rate as int) > 0
                && restart_moves_loop_end(self@, self.sample_frame_count as int, self.sample_rate as int)),
    {
        match self.loop_points {
            Some((loop_start, loop_end)) => {
                let loop_end_now = self.next_loop_position();
                let ahead = (loop_end_now.as_raw_i64() as i128) < (self.position.as_raw_i64() as i128)
                    + (TICKS_PER_SECOND as i128);
                let next_loops = if self.completed_loops < usize::MAX {
                    self.completed_loops + 1
                } else {
                    self.completed_loops
                };
                let first_loop_length = loop_end.minus(self.start_position_in_sample);
                let subsequent_loop_length = loop_end.minus(loop_start);
                let loop_end_after = first_loop_length.plus(subsequent_loop_length.multiplied_by(next_loops));
                ahead && loop_end_now.is_before(&loop_end_after)
            },
            None => false,
        }
    }

    /// Whether two processors share their setup and their pending events
    pub closed spec fn same_setup(&self, other: &Self) -> bool {
        &&& self.fade_length == other.fade_length
        &&& self.sample_frame_count == other.sample_frame_count
        &&& self.sample_rate == other.sample_rate
        &&& self.event_processor.pending() == other.event_processor.pending()
    }

    /// Tell every voice to stop
    fn stop(&mut self)
        requires
            old(self).wf(),
        ensures
            final(self).wf(),
            final(self).same_setup(old(self)),
            final(self)@ == stop_playback(old(self)@),
    {
        let ghost start = self@;
        let mut index: usize = 0;
        while index < self.voices.len()
            invariant
                self.wf(),
                self.same_setup(old(self)),
                self.active_voice == old(self).active_voice,
                self.loop_points == old(self).loop_points,
                self.position == old(self).position,
                self.start_position_in_sample == old(self).start_position_in_sample,
                self.completed_loops == old(self).completed_loops,
                start == old(self)@,
                0 <= index <= self.voices@.len(),
                forall|k: int| 0 <= k < index ==> (#[trigger] self.voices@[k]).spec_position() == start.voices[k].0
                    && self.voices@[k].spec_phase() == stopped_phase(start.voices[k].1),
                forall|k: int| index <= k < self.voices@.len() ==> (#[trigger] self.voices@[k]).spec_position() == start.voices[k].0
                    && self.voices@[k].spec_phase() == start.voices[k].1,
            decreases self.voices@.len() - index,
        {
            self.voices[index].stop();
            index = index + 1;
        }
        self.active_voice = None;
        assert(self@.voices =~= stop_all(start.voices));
    }

    /// The position of the active voice, if there is one
    fn get_active_voice_position(&self) -> (position: Option<usize>)
        requires
            self.wf(),
        ensures
            position == match self@.active_voice {
                Some(index) => Some(self@.voices[index as int].0),
                None => None,
            },
    {
        match self.active_voice {
            Some(index) => Some(self.voices[index].get_position()),
            None => None,
        }
    }

    /// Send playback to `start_position` in the sample
    fn assign_voice(&mut self, start_position: Timestamp)
        requires
            old(self).wf(),
        ensures
            final(self).wf(),
            final(self).same_setup(old(self)),
            ({
                let assigned = assign_voice(
                    old(self)@.voices,
                    old(self)@.active_voice,
                    ticks_to_rounded_samples(start_position@ as int, old(self).spec_sample_rate() as int),
                );
                final(self)@ == (SamplerState { voices: assigned.0, active_voice: assigned.1, ..old(self)@ })
            }),
    {
        let sample_position = start_position.as_rounded_samples(self.sample_rate);
        match self.get_active_voice_position() {
            Some(current_position) => {
                if current_position == sample_position {
                    return;
                }
            },
            None => {},
        }
        self.stop();
        let ghost stopped = self@.voices;
        let mut index: usize = 0;
        let mut found: Option<usize> = None;
        while index < self.voices.len()
            invariant
                self.wf(),
                self.voices@.len() == NUM_VOICES,
                self@.voices == stopped,
                0 <= index <= NUM_VOICES,
                found.is_none() ==> forall|k: int| 0 <= k < index ==> stopped[k].1 != Phase::Stopped,
                found.is_some() ==> is_first_stopped(stopped, found.unwrap() as int),
            decreases NUM_VOICES - index,
        {
            if found.is_none() && self.voices[index].is_stopped() {
                found = Some(index);
            }
            index = index + 1;
        }
        proof {
            assert forall|a: int, b: int| is_first_stopped(stopped, a) && is_first_stopped(stopped, b) implies a == b by {
                if a < b {
                    assert(stopped[a].1 != Phase::Stopped);
                } else if b < a {
                    assert(stopped[b].1 != Phase::Stopped);
                }
            }
        }
        match found {
            Some(index) => {
                self.voices[index].start_from_position(sample_position);
                self.active_voice = Some(index);
                assert(self@.voices =~= stopped.update(index as int, (sample_position, started_phase(sample_position as int))));
            },
            None => {
                assert(!exists|index: int| is_first_stopped(stopped, index));
            },
        }
    }

    /// Start playback from `from_position` in the sample, as if it had
    /// started `delay` ago
    fn start(&mut self, from_position: Timestamp, delay: Timestamp)
        requires
            old(self).wf(),
        ensures
            final(self).wf(),
            final(self).same_setup(old(self)),
            final(self)@ == start_playback(old(self)@, from_position@, delay@, old(self).spec_sample_rate() as int),
    {
        self.assign_voice(from_position.plus(delay));
        self.completed_loops = 0;
        self.position = delay;
        self.start_position_in_sample = from_position;
    }

    /// Go back to the loop start
    fn loop_back(&mut self, from_position: Timestamp)
        requires
            old(self).wf(),
        ensures
            final(self).wf(),
            final(self).same_setup(old(self)),
            final(self)@ == loop_back_state(old(self)@, from_position@, old(self).spec_sample_rate() as int),
    {
        self.completed_loops = self.completed_loops.saturating_add(1);
        self.assign_voice(from_position);
    }

    /// At the end of the sample: go back to the loop start, if looping
    fn finish_sample(&mut self)
        requires
            old(self).wf(),
        ensures
            final(self).wf(),
            final(self).same_setup(old(self)),
            final(self)@ == finish_sample_state(old(self)@, old(self).spec_sample_rate() as int),
    {
        match self.loop_points {
            Some((loop_start, _)) => self.loop_back(loop_start),
            None => {},
        }
    }

    fn set_loop_points(&mut self, loop_start: Timestamp, loop_end: Timestamp)
        requires
            old(self).wf(),
        ensures
            final(self).wf(),
            final(self).same_setup(old(self)),
            final(self)@ == (SamplerState { loop_points: Some((loop_start@, loop_end@)), ..old(self)@ }),
    {
        self.loop_points = Some((loop_start, loop_end));
    }

    fn clear_loop_points(&mut self)
        requires
            old(self).wf(),
        ensures
            final(self).wf(),
            final(self).same_setup(old(self)),
            final(self)@ == (SamplerState { loop_points: None, ..old(self)@ }),
    {
        self.loop_points = None;
    }

    fn cancel_all(&mut self)
        requires
            old(self).wf(),
        ensures
            final(self).wf(),
            final(self).same_setup(old(self)),
            final(self)@ == (SamplerState { loop_points: None, ..stop_playback(old(self)@) }),
    {
        self.stop();
        self.clear_loop_points();
    }

    /// Make `event` take effect, when rendering has reached `current_time`
    pub fn process_event(&mut self, event: &SamplerEvent, current_time: &Timestamp)
        requires
            old(self).wf(),
        ensures
            final(self).wf(),
            final(self).same_setup(old(self)),
            final(self)@ == apply_event(old(self)@, *event, current_time@, old(self).spec_sample_rate() as int),
    {
        match event.get_event_type() {
            SampleEventType::Start(position_in_sample) => {
                let delay = current_time.minus(event.get_time());
                self.start(*position_in_sample, delay);
            },
            SampleEventType::StartImmediate => {
                self.start(Timestamp::zero(), Timestamp::zero());
            },
            SampleEventType::Stop => self.stop(),
            SampleEventType::EnableLoop(loop_start, loop_end) => self.set_loop_points(*loop_start, *loop_end),
            SampleEventType::CancelLoop => self.clear_loop_points(),
            SampleEventType::CancelAll => self.cancel_all(),
        }
    }

    /// Render every voice into `frame_count` output frames from
    /// `block_offset` on, and add the segments they mix in to `segments`
    fn process_voices(
        &mut self,
        block_offset: usize,
        frame_count: usize,
        block_length: usize,
        segments: &mut Vec<RenderSegment>,
    )
        requires
            old(self).wf(),
            block_offset + frame_count <= block_length,
            segments_within(old(segments)@, block_length as int, old(self).spec_sample_frame_count() as int),
        ensures
            final(self).wf(),
            final(self).same_setup(old(self)),
            final(self)@ == (SamplerState {
                voices: render_voices(
                    old(self)@.voices,
                    frame_count as int,
                    old(self).spec_sample_frame_count() as int,
                    old(self).spec_fade_length() as int,
                ),
                ..old(self)@
            }),
            final(segments)@ == old(segments)@ + voices_segments(
                old(self)@.voices,
                frame_count as int,
                old(self).spec_sample_frame_count() as int,
                old(self).spec_fade_length() as int,
                block_offset as int,
            ),
            segments_within(final(segments)@, block_length as int, old(self).spec_sample_frame_count() as int),
    {
        let ghost start = self@.voices;
        let ghost start_segments = segments@;
        let ghost source = self.sample_frame_count as int;
        let ghost fade = self.fade_length as int;
        let mut index: usize = 0;
        while index < self.voices.len()
            invariant
                self.wf(),
                self.same_setup(old(self)),
                self.active_voice == old(self).active_voice,
                self.loop_points == old(self).loop_points,
                self.position == old(self).position,
                self.start_position_in_sample == old(self).start_position_in_sample,
                self.completed_loops == old(self).completed_loops,
                start == old(self)@.voices,
                start.len() == NUM_VOICES,
                source == self.sample_frame_count,
                fade == self.fade_length,
                block_offset + frame_count <= block_length,
                0 <= index <= self.voices@.len(),
                forall|k: int| 0 <= k < index ==> ({
                    let rendered = render_voice(start[k].0 as int, start[k].1, frame_count as int, source, fade);
                    &&& (#[trigger] self.voices@[k]).spec_position() == rendered.0
                    &&& self.voices@[k].spec_phase() == rendered.1
                }),
                forall|k: int| index <= k < self.voices@.len() ==> (#[trigger] self.voices@[k]).spec_position() == start[k].0
                    && self.voices@[k].spec_phase() == start[k].1,
                segments@ == start_segments + voices_segments(start.take(index as int), frame_count as int, source, fade, block_offset as int),
                segments_within(segments@, block_length as int, source),
            decreases self.voices@.len() - index,
        {
            let rendered = self.voices[index].render(frame_count, self.sample_frame_count, self.fade_length);
            let ghost before = segments@;
            append_shifted(segments, &rendered, block_offset, frame_count, block_length, self.sample_frame_count);
            proof {
                let taken = start.take(index + 1);
                assert(taken.drop_last() =~= start.take(index as int));
                assert(taken.last() == start[index as int]);
                assert(segments@ =~= start_segments + voices_segments(taken, frame_count as int, source, fade, block_offset as int));
            }
            index = index + 1;
        }
        proof {
            assert(start.take(start.len() as int) =~= start);
            assert(self@.voices =~= render_voices(start, frame_count as int, source, fade));
        }
    }

    /// Render `frame_count` output frames from `block_offset` on, going back
    /// to the loop start each time playback reaches the loop end
    ///
    /// Rendering stops early when the sample has ended and no loop is set, or
    /// when going back to the loop start would not move the loop end.
    #[verifier::spinoff_prover]
    #[verifier::rlimit(40)]
    fn process_sample(
        &mut self,
        block_offset: usize,
        frame_count: usize,
        block_length: usize,
        segments: &mut Vec<RenderSegment>,
    )
        requires
            old(self).wf(),
            block_offset + frame_count <= block_length,
            segments_within(old(segments)@, block_length as int, old(self).spec_sample_frame_count() as int),
        ensures
            final(self).wf(),
            final(self).same_setup(old(self)),
            final(self)@.loop_points == old(self)@.loop_points,
            final(self)@.start_position_in_sample == old(self)@.start_position_in_sample,
            old(segments)@.is_prefix_of(final(segments)@),
            forall|i: int|
                old(segments)@.len() <= i < final(segments)@.len() ==> block_offset <= (#[trigger] final(segments)@[i]).destination_offset,
            forall|i: int|
                old(segments)@.len() <= i < final(segments)@.len() ==> (#[trigger] final(segments)@[i]).destination_offset
                    + final(segments)@[i].frame_count <= block_offset + frame_count,
            segments_within(final(segments)@, block_length as int, old(self).spec_sample_frame_count() as int),
            ({
                let rendered = render_span(
                    old(self)@,
                    block_offset as int,
                    0,
                    frame_count as int,
                    old(self).spec_sample_frame_count() as int,
                    old(self).spec_fade_length() as int,
                    old(self).spec_sample_rate() as int,
                );
                &&& final(self)@ == rendered.0
                &&& final(segments)@ == old(segments)@ + rendered.1
            }),
    {
        let ghost source = self.sample_frame_count as int;
        let ghost fade = self.fade_length as int;
        let ghost sample_rate = self.sample_rate as int;
        let ghost total = render_span(old(self)@, block_offset as int, 0, frame_count as int, source, fade, sample_rate);
        let mut frame_position: usize = 0;
        while frame_position < frame_count
            invariant
                self.wf(),
                self.same_setup(old(self)),
                self@.loop_points == old(self)@.loop_points,
                self@.start_position_in_sample == old(self)@.start_position_in_sample,
                block_offset + frame_count <= block_length,
                0 <= frame_position <= frame_count,
                old(segments)@.is_prefix_of(segments@),
                forall|i: int|
                    old(segments)@.len() <= i < segments@.len() ==> block_offset <= (#[trigger] segments@[i]).destination_offset
                        && segments@[i].destination_offset + segments@[i].frame_count <= block_offset + frame_position,
                segments_within(segments@, block_length as int, self.spec_sample_frame_count() as int),
                source == self.sample_frame_count,
                fade == self.fade_length,
                sample_rate == self.sample_rate,
                total == render_span(old(self)@, block_offset as int, 0, frame_count as int, source, fade, sample_rate),
                ({
                    let rest = render_span(
                        self@,
                        block_offset as int,
                        frame_position as int,
                        frame_count as int,
                        source,
                        fade,
                        sample_rate,
                    );
                    &&& total.0 == rest.0
                    &&& old(segments)@ + total.1 =~= segments@ + rest.1
                }),
            ensures
                self.wf(),
                self.same_setup(old(self)),
                self@.loop_points == old(self)@.loop_points,
                self@.start_position_in_sample == old(self)@.start_position_in_sample,
                old(segments)@.is_prefix_of(segments@),
                forall|i: int|
                    old(segments)@.len() <= i < segments@.len() ==> block_offset <= (#[trigger] segments@[i]).destination_offset
                        && segments@[i].destination_offset + segments@[i].frame_count <= block_offset + frame_count,
                segments_within(segments@, block_length as int, self.spec_sample_frame_count() as int),
                total.0 == self@,
                old(segments)@ + total.1 =~= segments@,
            decreases frame_count - frame_position, restart_measure(self@, source, sample_rate),
        {
            let samples_remaining = frame_count - frame_position;
            let interval = self.get_render_interval(samples_remaining).as_rounded_samples(self.sample_rate);
            let render_frame_count = if interval < samples_remaining {
                interval
            } else {
                samples_remaining
            };
            let ghost current = self@;
            if render_frame_count == 0 {
                if self.is_looping() && self.restart_moves_loop_end() {
                    self.finish_sample();
                    continue;
                }
                assert(segments@ + Seq::<RenderSegment>::empty() =~= segments@);
                break;
            }
            let ghost before = segments@;
            let ghost voices_before = self@.voices;
            proof {
                assert forall|k: int| 0 <= k < voices_before.len() implies phase_within_fade(
                    #[trigger] voices_before[k].1,
                    self.spec_fade_length() as int,
                ) by {
                    assert(phase_within_fade(self.voices@[k].spec_phase(), self.fade_length as int));
                }
                lemma_voices_segments_within(
                    voices_before,
                    render_frame_count as int,
                    self.spec_sample_frame_count() as int,
                    self.spec_fade_length() as int,
                    (block_offset + frame_position) as int,
                );
            }
            self.process_voices(block_offset + frame_position, render_frame_count, block_length, segments);
            proof {
                let added = voices_segments(
                    voices_before,
                    render_frame_count as int,
                    self.spec_sample_frame_count() as int,
                    self.spec_fade_length() as int,
                    (block_offset + frame_position) as int,
                );
                assert forall|i: int| old(segments)@.len() <= i < segments@.len() implies block_offset <= (#[trigger] segments@[i]).destination_offset
                    && segments@[i].destination_offset + segments@[i].frame_count <= block_offset + frame_position + render_frame_count by {
                    if i >= before.len() {
                        assert(segments@[i] == added[i - before.len()]);
                    } else {
                        assert(segments@[i] == before[i]);
                    }
                }
            }
            frame_position = frame_position + render_frame_count;
            self.position = self.position.incremented_by_samples(render_frame_count, self.sample_rate);
            proof {
                let added = voices_segments(
                    voices_before,
                    render_frame_count as int,
                    source,
                    fade,
                    (block_offset + frame_position - render_frame_count) as int,
                );
                let rest = render_span(
                    self@,
                    block_offset as int,
                    frame_position as int,
                    frame_count as int,
                    source,
                    fade,
                    sample_rate,
                );
                assert(segments@ == before + added);
                assert(before + (added + rest.1) =~= segments@ + rest.1);
            }
        }
        proof {
            if frame_position >= frame_count {
                assert(segments@ + Seq::<RenderSegment>::empty() =~= segments@);
            }
        }
    }

    /// Plan a block of `frame_count` frames that starts at `start_time`, with
    /// the events that are already pending: make each event take effect at
    /// its frame, and render the voices between them
    ///
    /// The result lists the segments of the sample to mix into the block.
    #[verifier::spinoff_prover]
    #[verifier::rlimit(40)]
    pub fn process_block(&mut self, start_time: &Timestamp, frame_count: usize) -> (segments: Vec<RenderSegment>)
        requires
            old(self).wf(),
        ensures
            final(self).wf(),
            final(self).spec_fade_length() == old(self).spec_fade_length(),
            final(self).spec_sample_frame_count() == old(self).spec_sample_frame_count(),
            final(self).spec_sample_rate() == old(self).spec_sample_rate(),
            segments_within(segments@, frame_count as int, old(self).spec_sample_frame_count() as int),
            ({
                let plan = plan_block(
                    old(self)@,
                    old(self).pending_events(),
                    start_time@,
                    start_time@,
                    0,
                    frame_count as int,
                    old(self).spec_sample_frame_count() as int,
                    old(self).spec_fade_length() as int,
                    old(self).spec_sample_rate() as int,
                );
                &&& final(self)@ == plan.0
                &&& final(self).pending_events() == plan.1
                &&& segments@ == plan.2
            }),
    {
        let ghost source = self.sample_frame_count as int;
        let ghost fade = self.fade_length as int;
        let ghost sample_rate = self.sample_rate as int;
        let ghost total = plan_block(
            old(self)@,
            old(self).pending_events(),
            start_time@,
            start_time@,
            0,
            frame_count as int,
            source,
            fade,
            sample_rate,
        );
        let mut segments: Vec<RenderSegment> = Vec::new();
        let mut current_time = *start_time;
        let mut position: usize = 0;
        while position < frame_count
            invariant
                self.wf(),
                self.fade_length == old(self).fade_length,
                self.sample_frame_count == old(self).sample_frame_count,
                self.sample_rate == old(self).sample_rate,
                source == self.sample_frame_count,
                fade == self.fade_length,
                sample_rate == self.sample_rate,
                0 <= position <= frame_count,
                segments_within(segments@, frame_count as int, self.spec_sample_frame_count() as int),
                total == plan_block(
                    old(self)@,
                    old(self).pending_events(),
                    start_time@,
                    start_time@,
                    0,
                    frame_count as int,
                    source,
                    fade,
                    sample_rate,
                ),
                ({
                    let rest = plan_block(
                        self@,
                        self.pending_events(),
                        start_time@,
                        current_time@,
                        position as int,
                        frame_count as int,
                        source,
                        fade,
                        sample_rate,
                    );
                    &&& total.0 == rest.0
                    &&& total.1 == rest.1
                    &&& total.2 =~= segments@ + rest.2
                }),
            decreases frame_count - position, self.event_processor.pending().len(),
        {
            let ghost state = self@;
            let ghost pending = self.pending_events();
            let ghost time = current_time@;
            let ghost before = segments@;
            let (end_frame, event) = self.event_processor.next_event(start_time, &current_time, frame_count);
            let end_frame = if end_frame < position {
                position
            } else if end_frame > frame_count {
                frame_count
            } else {
                end_frame
            };
            let chunk = end_frame - position;
            self.process_sample(position, chunk, frame_count, &mut segments);
            let ghost rendered = render_span(state, position as int, 0, chunk as int, source, fade, sample_rate);
            position = position + chunk;
            current_time = current_time.incremented_by_samples(chunk, self.sample_rate);
            match event {
                Some(event) => self.process_event(&event, &current_time),
                None => {},
            }
            proof {
                let rest = plan_block(
                    self@,
                    self.pending_events(),
                    start_time@,
                    current_time@,
                    position as int,
                    frame_count as int,
                    source,
                    fade,
                    sample_rate,
                );
                assert(segments@ == before + rendered.1);
                assert(before + (rendered.1 + rest.2) =~= segments@ + rest.2);
            }
        }
        proof {
            assert(segments@ + Seq::<RenderSegment>::empty() =~= segments@);
        }
        segments
    }

    /// Plan a block of `frame_count` frames that starts at `start_time`:
    /// take the events that have arrived, make each take effect at its frame,
    /// and render the voices between them
    ///
    /// The result lists the segments of the sample to mix into the block.
    pub fn process_audio(&mut self, start_time: &Timestamp, frame_count: usize) -> (segments: Vec<RenderSegment>)
        requires
            old(self).wf(),
        ensures
            final(self).wf(),
            final(self).spec_fade_length() == old(self).spec_fade_length(),
            final(self).spec_sample_frame_count() == old(self).spec_sample_frame_count(),
            final(self).spec_sample_rate() == old(self).spec_sample_rate(),
            segments_within(segments@, frame_count as int, old(self).spec_sample_frame_count() as int),
            exists|arrived: Seq<SamplerEvent>| {
                let plan = plan_block(
                    old(self)@,
                    #[trigger] receive_all(old(self).pending_events(), arrived),
                    start_time@,
                    start_time@,
                    0,
                    frame_count as int,
                    old(self).spec_sample_frame_count() as int,
                    old(self).spec_fade_length() as int,
                    old(self).spec_sample_rate() as int,
                );
                &&& final(self)@ == plan.0
                &&& final(self).pending_events() == plan.1
                &&& segments@ == plan.2
            },
    {
        self.event_processor.receive_events();
        let ghost arrived = choose|arrived: Seq<SamplerEvent>|
            self.event_processor.pending() == receive_all(old(self).pending_events(), arrived);
        assert(self.pending_events() == receive_all(old(self).pending_events(), arrived));
        self.process_block(start_time, frame_count)
    }
}

/// The state, the events left pending, and the segments mixed in, after the
/// rest of a block of `frame_count` frames, from `position` on, is planned:
/// the voices render up to each event, and each event takes effect at its
/// frame
pub open spec fn plan_block(
    state: SamplerState,
    pending: Seq<SamplerEvent>,
    frame_start_time: i64,
    current_time: i64,
    position: int,
    frame_count: int,
    source_frame_count: int,
    fade_length: int,
    sample_rate: int,
) -> (SamplerState, Seq<SamplerEvent>, Seq<RenderSegment>)
    decreases frame_count - position, pending.len(),
{
    if position >= frame_count {
        (state, pending, Seq::empty())
    } else {
        let next = next_event_in_block(pending, frame_start_time, current_time, frame_count, sample_rate);
        let end = span_end(next.0, position, frame_count);
        let rendered = render_span(state, position, 0, end - position, source_frame_count, fade_length, sample_rate);
        let next_time = clamp_ticks(current_time + clamp_ticks(samples_to_ticks(end - position, sample_rate))) as i64;
        let applied = match next.1 {
            Some(event) => apply_event(rendered.0, event, next_time, sample_rate),
            None => rendered.0,
        };
        let rest = plan_block(
            applied,
            next.2,
            frame_start_time,
            next_time,
            end,
            frame_count,
            source_frame_count,
            fade_length,
            sample_rate,
        );
        (rest.0, rest.1, rendered.1 + rest.2)
    }
}

/// Append `rendered`, moved `offset` frames later, to `segments`
fn append_shifted(
    segments: &mut Vec<RenderSegment>,
    rendered: &Vec<RenderSegment>,
    offset: usize,
    frame_count: usize,
    block_length: usize,
    source_frame_count: usize,
)
    requires
        offset + frame_count <= block_length,
        segments_within(old(segments)@, block_length as int, source_frame_count as int),
        segments_within(rendered@, frame_count as int, source_frame_count as int),
    ensures
        final(segments)@ == old(segments)@ + shift_segments(rendered@, offset as int),
        segments_within(final(segments)@, block_length as int, source_frame_count as int),
{
    let mut position: usize = 0;
    while position < rendered.len()
        invariant
            0 <= position <= rendered@.len(),
            offset + frame_count <= block_length,
            segments_within(rendered@, frame_count as int, source_frame_count as int),
            segments@ == old(segments)@ + shift_segments(rendered@.take(position as int), offset as int),
            segments_within(segments@, block_length as int, source_frame_count as int),
        decreases rendered@.len() - position,
    {
        let segment = rendered[position];
        assert(segments_within(rendered@, frame_count as int, source_frame_count as int));
        assert(rendered@[position as int] == segment);
        let shifted = RenderSegment { destination_offset: segment.destination_offset + offset, ..segment };
        segments.push(shifted);
        proof {
            assert(rendered@.take(position + 1) =~= rendered@.take(position as int).push(segment));
            assert(shift_segments(rendered@.take(position + 1), offset as int) =~= shift_segments(
                rendered@.take(position as int),
                offset as int,
            ).push(shifted));
        }
        position = position + 1;
    }
    assert(rendered@.take(rendered@.len() as int) =~= rendered@);
}

/// A block with no event pending is one span of playback: the voices render
/// the whole block, going back to the loop start as it comes
pub proof fn law_block_without_events_is_one_span(
    state: SamplerState,
    frame_start_time: i64,
    frame_count: int,
    source_frame_count: int,
    fade_length: int,
    sample_rate: int,
)
    requires
        0 < frame_count,
    ensures
        ({
            let plan = plan_block(
                state,
                Seq::<SamplerEvent>::empty(),
                frame_start_time,
                frame_start_time,
                0,
                frame_count,
                source_frame_count,
                fade_length,
                sample_rate,
            );
            let span = render_span(state, 0, 0, frame_count, source_frame_count, fade_length, sample_rate);
            &&& plan.0 == span.0
            &&& plan.1 == Seq::<SamplerEvent>::empty()
            &&& plan.2 == span.1
        }),
{
    let span = render_span(state, 0, 0, frame_count, source_frame_count, fade_length, sample_rate);
    let next_time = clamp_ticks(frame_start_time + clamp_ticks(samples_to_ticks(frame_count, sample_rate)));
    assert(plan_block(
        span.0,
        Seq::<SamplerEvent>::empty(),
        frame_start_time,
        next_time as i64,
        frame_count,
        frame_count,
        source_frame_count,
        fade_length,
        sample_rate,
    ).2 == Seq::<RenderSegment>::empty());
    assert(span.1 + Seq::<RenderSegment>::empty() =~= span.1);
}

/// Whether every segment holds frames, ends within an output of
/// `block_length` frames, and reads within a sample of `source_frame_count`
/// frames
pub open spec fn segments_within(segments: Seq<RenderSegment>, block_length: int, source_frame_count: int) -> bool {
    forall|i: int|
        0 <= i < segments.len() ==> {
            &&& (#[trigger] segments[i]).frame_count > 0
            &&& segments[i].destination_offset + segments[i].frame_count <= block_length
            &&& segments[i].source_position + segments[i].frame_count <= source_frame_count
        }
}

/// The segments moved `offset` frames later in the output
pub open spec fn shift_segments(segments: Seq<RenderSegment>, offset: int) -> Seq<RenderSegment> {
    segments.map_values(
        |segment: RenderSegment| RenderSegment { destination_offset: (segment.destination_offset + offset) as usize, ..segment },
    )
}

/// Each voice after rendering `frame_count` frames
pub open spec fn render_voices(
    voices: Seq<(usize, Phase)>,
    frame_count: int,
    source_frame_count: int,
    fade_length: int,
) -> Seq<(usize, Phase)> {
    voices.map_values(
        |voice: (usize, Phase)| {
            let rendered = render_voice(voice.0 as int, voice.1, frame_count, source_frame_count, fade_length);
            (rendered.0 as usize, rendered.1)
        },
    )
}

/// The segments that the voices mix in when they render `frame_count` frames
/// from `offset` on, voice by voice
pub open spec fn voices_segments(
    voices: Seq<(usize, Phase)>,
    frame_count: int,
    source_frame_count: int,
    fade_length: int,
    offset: int,
) -> Seq<RenderSegment>
    decreases voices.len(),
{
    if voices.len() == 0 {
        Seq::empty()
    } else {
        voices_segments(voices.drop_last(), frame_count, source_frame_count, fade_length, offset) + shift_segments(
            render_voice(voices.last().0 as int, voices.last().1, frame_count, source_frame_count, fade_length).2,
            offset,
        )
    }
}

/// The segments that the voices mix in lie between `offset` and
/// `offset + frame_count`
proof fn lemma_voices_segments_within(
    voices: Seq<(usize, Phase)>,
    frame_count: int,
    source_frame_count: int,
    fade_length: int,
    offset: int,
)
    requires
        0 <= offset,
        0 <= frame_count,
        offset + frame_count <= usize::MAX,
        forall|k: int| 0 <= k < voices.len() ==> phase_within_fade(#[trigger] voices[k].1, fade_length),
    ensures
        forall|i: int|
            0 <= i < voices_segments(voices, frame_count, source_frame_count, fade_length, offset).len() ==> {
                let segment = #[trigger] voices_segments(voices, frame_count, source_frame_count, fade_length, offset)[i];
                &&& offset <= segment.destination_offset
                &&& segment.destination_offset + segment.frame_count <= offset + frame_count
            },
    decreases voices.len(),
{
    if voices.len() > 0 {
        let rest = voices.drop_last();
        lemma_voices_segments_within(rest, frame_count, source_frame_count, fade_length, offset);
        let last = voices.last();
        assert(phase_within_fade(voices[voices.len() - 1].1, fade_length));
        lemma_render_voice_within(last.0 as int, last.1, frame_count, source_frame_count, fade_length);
        let head = voices_segments(rest, frame_count, source_frame_count, fade_length, offset);
        let own = render_voice(last.0 as int, last.1, frame_count, source_frame_count, fade_length).2;
        let all = voices_segments(voices, frame_count, source_frame_count, fade_length, offset);
        assert(all == head + shift_segments(own, offset));
        assert forall|i: int| 0 <= i < all.len() implies {
            let segment = #[trigger] all[i];
            &&& offset <= segment.destination_offset
            &&& segment.destination_offset + segment.frame_count <= offset + frame_count
        } by {
            if i >= head.len() {
                let j = i - head.len();
                assert(own[j].destination_offset + own[j].frame_count <= frame_count);
                assert(all[i] == shift_segments(own, offset)[j]);
            } else {
                assert(all[i] == head[i]);
            }
        }
    }
}


/// Only loop events change the loop: starting and stopping playback leave
/// the loop points as they were, so a loop set before a stop is still set
/// when playback starts again
pub proof fn law_only_loop_events_change_the_loop(state: SamplerState, event: SamplerEvent, current_time: i64, sample_rate: int)
    requires
        !(event.spec_event_type() is EnableLoop),
        !(event.spec_event_type() is CancelLoop),
        !(event.spec_event_type() is CancelAll),
    ensures
        apply_event(state, event, current_time, sample_rate).loop_points == state.loop_points,
{
}

} // verus!

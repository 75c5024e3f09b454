use vstd::prelude::*;

use crate::timestamp::clamp_usize;

verus! {

/// Where a voice is in its life cycle
#[derive(Clone, Copy, PartialEq, Eq, Structural, Debug)]
pub enum Phase {
    /// Silent
    Stopped,
    /// Fading in; the payload is the position within the fade
    FadingIn(usize),
    /// Playing at full level
    Playing,
    /// Fading out; the payload is the position within the fade
    FadingOut(usize),
}

/// The level at which a segment of the sample is mixed into the output
#[derive(Clone, Copy, PartialEq, Eq, Structural, Debug)]
pub enum SegmentGain {
    /// Full level
    Unity,
    /// The fade-in curve, starting at the given position within the fade
    FadeIn(usize),
    /// The fade-out curve, starting at the given position within the fade
    FadeOut(usize),
}

/// An instruction to add `frame_count` frames of the sample, starting at
/// `source_position`, into the output starting at `destination_offset`, with
/// the given gain
#[derive(Clone, Copy, PartialEq, Eq, Structural, Debug)]
pub struct RenderSegment {
    /// The first output frame
    pub destination_offset: usize,
    /// The first frame of the sample
    pub source_position: usize,
    /// The number of frames
    pub frame_count: usize,
    /// The gain applied to each frame
    pub gain: SegmentGain,
}

/// The minimum of two integers
pub open spec fn min_int(a: int, b: int) -> int {
    if a < b {
        a
    } else {
        b
    }
}

/// The number of frames of a `frame_count`-frame read, starting at `position`,
/// that fall within a sample of `source_frame_count` frames
pub open spec fn frames_within_source(position: int, frame_count: int, source_frame_count: int) -> int {
    if position >= source_frame_count {
        0
    } else {
        min_int(frame_count, source_frame_count - position)
    }
}

/// A segment, if it holds any frames
pub open spec fn segment_if_any(
    destination_offset: int,
    source_position: int,
    frame_count: int,
    gain: SegmentGain,
) -> Option<RenderSegment> {
    if frame_count > 0 {
        Some(
            RenderSegment {
                destination_offset: destination_offset as usize,
                source_position: source_position as usize,
                frame_count: frame_count as usize,
                gain,
            },
        )
    } else {
        None
    }
}

/// The state of a voice after one step of rendering into an output of
/// `output_frame_count` frames from `destination_offset` on: its new position,
/// phase and destination offset, and the segment it mixes in
pub open spec fn render_step(
    position: int,
    phase: Phase,
    destination_offset: int,
    output_frame_count: int,
    source_frame_count: int,
    fade_length: int,
) -> (int, Phase, int, Option<RenderSegment>) {
    match phase {
        Phase::FadingIn(fade_position) => {
            let frame_count = min_int(fade_length - fade_position, output_frame_count - destination_offset);
            let next_fade_position = fade_position + frame_count;
            (
                clamp_usize(position + frame_count),
                if next_fade_position < fade_length {
                    Phase::FadingIn(next_fade_position as usize)
                } else {
                    Phase::Playing
                },
                destination_offset + frame_count,
                segment_if_any(
                    destination_offset,
                    position,
                    frames_within_source(position, frame_count, source_frame_count),
                    SegmentGain::FadeIn(fade_position),
                ),
            )
        },
        Phase::FadingOut(fade_position) => {
            let frame_count = min_int(fade_length - fade_position, output_frame_count - destination_offset);
            let next_fade_position = fade_position + frame_count;
            (
                clamp_usize(position + frame_count),
                if next_fade_position < fade_length {
                    Phase::FadingOut(next_fade_position as usize)
                } else {
                    Phase::Stopped
                },
                destination_offset + frame_count,
                segment_if_any(
                    destination_offset,
                    position,
                    frames_within_source(position, frame_count, source_frame_count),
                    SegmentGain::FadeOut(fade_position),
                ),
            )
        },
        Phase::Playing => {
            let frame_count = output_frame_count - destination_offset;
            (
                clamp_usize(position + frame_count),
                Phase::Playing,
                output_frame_count,
                segment_if_any(
                    destination_offset,
                    position,
                    frames_within_source(position, frame_count, source_frame_count),
                    SegmentGain::Unity,
                ),
            )
        },
        Phase::Stopped => (position, Phase::Stopped, destination_offset, None),
    }
}

/// The segments as a sequence
pub open spec fn segments_of(segment: Option<RenderSegment>) -> Seq<RenderSegment> {
    match segment {
        Some(segment) => seq![segment],
        None => Seq::empty(),
    }
}

/// The position and phase of a voice after it renders an output of
/// `output_frame_count` frames, and the segments it mixes in, in order
///
/// A voice renders until the output is full or it has stopped. This takes at
/// most two steps: a fade that ends within the output is followed by playing
/// (or silence) for the rest of it.
pub open spec fn render_voice(
    position: int,
    phase: Phase,
    output_frame_count: int,
    source_frame_count: int,
    fade_length: int,
) -> (int, Phase, Seq<RenderSegment>) {
    if phase == Phase::Stopped || output_frame_count == 0 {
        (position, phase, Seq::empty())
    } else {
        let first = render_step(position, phase, 0, output_frame_count, source_frame_count, fade_length);
        if first.2 < output_frame_count && first.1 != Phase::Stopped {
            let second = render_step(first.0, first.1, first.2, output_frame_count, source_frame_count, fade_length);
            (second.0, second.1, segments_of(first.3) + segments_of(second.3))
        } else {
            (first.0, first.1, segments_of(first.3))
        }
    }
}

/// Whether the fade position held in a phase lies within a fade of
/// `fade_length` frames
pub open spec fn phase_within_fade(phase: Phase, fade_length: int) -> bool {
    match phase {
        Phase::FadingIn(position) => position <= fade_length,
        Phase::FadingOut(position) => position <= fade_length,
        _ => true,
    }
}

/// One playback of the sample, with fades at its start and stop
#[derive(Debug)]
pub struct Voice {
    position: usize,
    phase: Phase,
}

impl Voice {
    /// The position of the voice within the sample
    pub closed spec fn spec_position(&self) -> usize {
        self.position
    }

    /// The phase of the voice
    pub closed spec fn spec_phase(&self) -> Phase {
        self.phase
    }

    /// A stopped voice at the start of the sample
    pub fn new() -> (voice: Self)
        ensures
            voice.spec_position() == 0,
            voice.spec_phase() == Phase::Stopped,
    {
        Self { position: 0, phase: Phase::Stopped }
    }

    /// Whether the voice is silent
    pub fn is_stopped(&self) -> (stopped: bool)
        ensures
            stopped == (self.spec_phase() == Phase::Stopped),
    {
        match self.phase {
            Phase::Stopped => true,
            _ => false,
        }
    }

    /// The phase of the voice
    pub fn phase(&self) -> (phase: Phase)
        ensures
            phase == self.spec_phase(),
    {
        self.phase
    }

    /// Start playing from `position` in the sample
    ///
    /// Playing from the start of the sample needs no fade; anywhere else the
    /// voice fades in.
    pub fn start_from_position(&mut self, position: usize)
        ensures
            final(self).spec_position() == position,
            final(self).spec_phase() == if position == 0 { Phase::Playing } else { Phase::FadingIn(0) },
    {
        self.position = position;
        self.phase = if position == 0 {
            Phase::Playing
        } else {
            Phase::FadingIn(0)
        };
    }

    /// The position of the voice within the sample
    pub fn get_position(&self) -> (position: usize)
        ensures
            position == self.spec_position(),
    {
        self.position
    }

    /// Start fading out, unless the voice is already stopped or fading out
    pub fn stop(&mut self)
        ensures
            final(self).spec_position() == old(self).spec_position(),
            final(self).spec_phase() == match old(self).spec_phase() {
                Phase::FadingIn(_) => Phase::FadingOut(0),
                Phase::Playing => Phase::FadingOut(0),
                phase => phase,
            },
    {
        match self.phase {
            Phase::Stopped => {},
            Phase::FadingIn(_) => self.phase = Phase::FadingOut(0),
            Phase::Playing => self.phase = Phase::FadingOut(0),
            Phase::FadingOut(_) => {},
        }
    }

    /// Render the voice into an output of `output_frame_count` frames, from a
    /// sample of `source_frame_count` frames, with a fade of `fade_length`
    /// frames
    ///
    /// The result lists the segments of the sample to mix into the output.
    pub fn render(&mut self, output_frame_count: usize, source_frame_count: usize, fade_length: usize) -> (segments: Vec<RenderSegment>)
        requires
            phase_within_fade(old(self).spec_phase(), fade_length as int),
        ensures
            ({
                let rendered = render_voice(
                    old(self).spec_position() as int,
                    old(self).spec_phase(),
                    output_frame_count as int,
                    source_frame_count as int,
                    fade_length as int,
                );
                &&& final(self).spec_position() == rendered.0
                &&& final(self).spec_phase() == rendered.1
                &&& segments@ == rendered.2
            }),
            phase_within_fade(final(self).spec_phase(), fade_length as int),
            forall|i: int|
                0 <= i < segments@.len() ==> {
                    &&& segments@[i].frame_count > 0
                    &&& segments@[i].destination_offset + segments@[i].frame_count <= output_frame_count
                    &&& segments@[i].source_position + segments@[i].frame_count <= source_frame_count
                },
    {
        let mut segments: Vec<RenderSegment> = Vec::new();
        if self.is_stopped() || output_frame_count == 0 {
            return segments;
        }
        let destination_offset = self.render_step(0, output_frame_count, source_frame_count, fade_length, &mut segments);
        if destination_offset < output_frame_count && !self.is_stopped() {
            let end = self.render_step(destination_offset, output_frame_count, source_frame_count, fade_length, &mut segments);
            assert(end == output_frame_count || self.spec_phase() == Phase::Stopped);
        }
        segments
    }

    /// The segment that plays the sample at full level from the voice's
    /// position into the output, from `destination_offset` to the end of the
    /// output, if any of it falls within the sample
    pub fn render_playing(
        &self,
        destination_offset: usize,
        output_frame_count: usize,
        source_frame_count: usize,
    ) -> (segment: Option<RenderSegment>)
        requires
            destination_offset <= output_frame_count,
        ensures
            segment == segment_if_any(
                destination_offset as int,
                self.spec_position() as int,
                frames_within_source(
                    self.spec_position() as int,
                    output_frame_count - destination_offset,
                    source_frame_count as int,
                ),
                SegmentGain::Unity,
            ),
    {
        if self.position >= source_frame_count {
            return None;
        }
        let remaining = output_frame_count - destination_offset;
        let frame_count = if remaining < source_frame_count - self.position {
            remaining
        } else {
            source_frame_count - self.position
        };
        if frame_count > 0 {
            Some(
                RenderSegment {
                    destination_offset,
                    source_position: self.position,
                    frame_count,
                    gain: SegmentGain::Unity,
                },
            )
        } else {
            None
        }
    }

    /// The number of frames that a fade covers from `destination_offset`
    /// (until the fade or the output ends), and the segment that mixes the
    /// sample in along the fade curve from `fade_position`, if any of it
    /// falls within the sample
    pub fn render_fade(
        &self,
        destination_offset: usize,
        output_frame_count: usize,
        source_frame_count: usize,
        fade_length: usize,
        fade_position: usize,
        fade_in: bool,
    ) -> (rendered: (usize, Option<RenderSegment>))
        requires
            destination_offset <= output_frame_count,
            fade_position <= fade_length,
        ensures
            rendered.0 == min_int(fade_length - fade_position, output_frame_count - destination_offset),
            rendered.1 == segment_if_any(
                destination_offset as int,
                self.spec_position() as int,
                frames_within_source(self.spec_position() as int, rendered.0 as int, source_frame_count as int),
                if fade_in { SegmentGain::FadeIn(fade_position) } else { SegmentGain::FadeOut(fade_position) },
            ),
    {
        let remaining = output_frame_count - destination_offset;
        let frame_count = if fade_length - fade_position < remaining {
            fade_length - fade_position
        } else {
            remaining
        };
        let written = if self.position >= source_frame_count {
            0
        } else if frame_count < source_frame_count - self.position {
            frame_count
        } else {
            source_frame_count - self.position
        };
        let gain = if fade_in {
            SegmentGain::FadeIn(fade_position)
        } else {
            SegmentGain::FadeOut(fade_position)
        };
        if written > 0 {
            (
                frame_count,
                Some(RenderSegment { destination_offset, source_position: self.position, frame_count: written, gain }),
            )
        } else {
            (frame_count, None)
        }
    }

    /// One step of `render`: render from `destination_offset` until the
    /// output is full or the phase changes, and give the new destination
    /// offset
    fn render_step(
        &mut self,
        destination_offset: usize,
        output_frame_count: usize,
        source_frame_count: usize,
        fade_length: usize,
        segments: &mut Vec<RenderSegment>,
    ) -> (next_offset: usize)
        requires
            destination_offset < output_frame_count,
            phase_within_fade(old(self).spec_phase(), fade_length as int),
            old(self).spec_phase() != Phase::Stopped,
            forall|i: int|
                0 <= i < old(segments)@.len() ==> {
                    &&& old(segments)@[i].frame_count > 0
                    &&& old(segments)@[i].destination_offset + old(segments)@[i].frame_count <= output_frame_count
                    &&& old(segments)@[i].source_position + old(segments)@[i].frame_count <= source_frame_count
                },
        ensures
            ({
                let step = render_step(
                    old(self).spec_position() as int,
                    old(self).spec_phase(),
                    destination_offset as int,
                    output_frame_count as int,
                    source_frame_count as int,
                    fade_length as int,
                );
                &&& final(self).spec_position() == step.0
                &&& final(self).spec_phase() == step.1
                &&& next_offset == step.2
                &&& final(segments)@ == old(segments)@ + segments_of(step.3)
            }),
            phase_within_fade(final(self).spec_phase(), fade_length as int),
            next_offset <= output_frame_count,
            next_offset < output_frame_count ==> match old(self).spec_phase() {
                Phase::FadingIn(_) => final(self).spec_phase() == Phase::Playing,
                _ => final(self).spec_phase() == Phase::Stopped,
            },
            forall|i: int|
                0 <= i < final(segments)@.len() ==> {
                    &&& final(segments)@[i].frame_count > 0
                    &&& final(segments)@[i].destination_offset + final(segments)@[i].frame_count <= output_frame_count
                    &&& final(segments)@[i].source_position + final(segments)@[i].frame_count <= source_frame_count
                },
    {
        let (frame_count, segment) = match self.phase {
            Phase::FadingIn(fade_position) => self.render_fade(
                destination_offset,
                output_frame_count,
                source_frame_count,
                fade_length,
                fade_position,
                true,
            ),
            Phase::FadingOut(fade_position) => self.render_fade(
                destination_offset,
                output_frame_count,
                source_frame_count,
                fade_length,
                fade_position,
                false,
            ),
            _ => (
                output_frame_count - destination_offset,
                self.render_playing(destination_offset, output_frame_count, source_frame_count),
            ),
        };
        match segment {
            Some(segment) => segments.push(segment),
            None => {},
        }
        self.position = self.position.saturating_add(frame_count);
        self.phase = match self.phase {
            Phase::FadingIn(fade_position) => {
                if fade_position + frame_count < fade_length {
                    Phase::FadingIn(fade_position + frame_count)
                } else {
                    Phase::Playing
                }
            },
            Phase::FadingOut(fade_position) => {
                if fade_position + frame_count < fade_length {
                    Phase::FadingOut(fade_position + frame_count)
                } else {
                    Phase::Stopped
                }
            },
            phase => phase,
        };
        destination_offset + frame_count
    }
}

/// One step of rendering stays within the output and the sample
proof fn lemma_render_step_within(
    position: int,
    phase: Phase,
    destination_offset: int,
    output_frame_count: int,
    source_frame_count: int,
    fade_length: int,
)
    requires
        0 <= position <= usize::MAX,
        0 <= destination_offset <= output_frame_count <= usize::MAX,
        phase_within_fade(phase, fade_length),
    ensures
        ({
            let step = render_step(position, phase, destination_offset, output_frame_count, source_frame_count, fade_length);
            &&& 0 <= step.0 <= usize::MAX
            &&& destination_offset <= step.2 <= output_frame_count
            &&& phase_within_fade(step.1, fade_length)
            &&& (step.3 matches Some(segment) ==> {
                &&& segment.destination_offset == destination_offset
                &&& segment.frame_count > 0
                &&& segment.destination_offset + segment.frame_count <= output_frame_count
            })
        }),
{
}

/// The segments that a voice mixes in lie within the output
pub proof fn lemma_render_voice_within(
    position: int,
    phase: Phase,
    output_frame_count: int,
    source_frame_count: int,
    fade_length: int,
)
    requires
        0 <= position <= usize::MAX,
        0 <= output_frame_count <= usize::MAX,
        phase_within_fade(phase, fade_length),
    ensures
        forall|i: int|
            0 <= i < render_voice(position, phase, output_frame_count, source_frame_count, fade_length).2.len() ==> {
                let segment = #[trigger] render_voice(position, phase, output_frame_count, source_frame_count, fade_length).2[i];
                &&& segment.frame_count > 0
                &&& segment.destination_offset + segment.frame_count <= output_frame_count
            },
{
    if phase != Phase::Stopped && output_frame_count != 0 {
        lemma_render_step_within(position, phase, 0, output_frame_count, source_frame_count, fade_length);
        let first = render_step(position, phase, 0, output_frame_count, source_frame_count, fade_length);
        if first.2 < output_frame_count && first.1 != Phase::Stopped {
            lemma_render_step_within(first.0, first.1, first.2, output_frame_count, source_frame_count, fade_length);
        }
    }
}

/// A playing voice fills the whole output at full level while the sample
/// lasts, and moves on by the length of the output
pub proof fn law_playing_voice_fills_output(
    position: int,
    output_frame_count: int,
    source_frame_count: int,
    fade_length: int,
)
    requires
        0 <= position,
        0 < output_frame_count,
        position + output_frame_count <= source_frame_count,
        position + output_frame_count <= usize::MAX,
    ensures
        render_voice(position, Phase::Playing, output_frame_count, source_frame_count, fade_length) == (
            position + output_frame_count,
            Phase::Playing,
            seq![
                RenderSegment {
                    destination_offset: 0,
                    source_position: position as usize,
                    frame_count: output_frame_count as usize,
                    gain: SegmentGain::Unity,
                },
            ],
        ),
{
}

/// A fade runs to its end when the output is long enough: a fade-in goes on
/// to full level and a fade-out to silence
pub proof fn law_fade_completes(
    position: int,
    fade_position: usize,
    fade_in: bool,
    output_frame_count: int,
    source_frame_count: int,
    fade_length: int,
)
    requires
        0 <= position <= usize::MAX,
        fade_position <= fade_length,
        fade_length - fade_position < output_frame_count <= usize::MAX,
    ensures
        ({
            let phase = if fade_in { Phase::FadingIn(fade_position) } else { Phase::FadingOut(fade_position) };
            let rendered = render_voice(position, phase, output_frame_count, source_frame_count, fade_length);
            &&& fade_in ==> rendered.1 == Phase::Playing
            &&& !fade_in ==> rendered.1 == Phase::Stopped
        }),
{
}


/// A fade goes on from the fade position that the voice's phase holds: the
/// first segment of a fading voice carries the fade curve from that
/// position, at the voice's position in the sample; and when the output ends
/// before the fade does, the next output carries on from where this one
/// left off, so a fade that spans blocks is one continuous curve
pub proof fn law_fade_continues_across_blocks(
    position: int,
    fade_position: usize,
    fade_in: bool,
    first_frame_count: int,
    second_frame_count: int,
    source_frame_count: int,
    fade_length: int,
)
    requires
        0 <= position,
        position + first_frame_count < source_frame_count,
        source_frame_count <= usize::MAX,
        fade_position < fade_length,
        0 < first_frame_count < fade_length - fade_position,
        0 < second_frame_count <= usize::MAX,
    ensures
        ({
            let phase = if fade_in { Phase::FadingIn(fade_position) } else { Phase::FadingOut(fade_position) };
            let first = render_voice(position, phase, first_frame_count, source_frame_count, fade_length);
            let second = render_voice(first.0, first.1, second_frame_count, source_frame_count, fade_length);
            let moved = (fade_position + first_frame_count) as usize;
            &&& first.2.len() == 1
            &&& first.2[0].destination_offset == 0
            &&& first.2[0].source_position == position
            &&& first.2[0].frame_count == first_frame_count
            &&& first.2[0].gain == if fade_in { SegmentGain::FadeIn(fade_position) } else { SegmentGain::FadeOut(fade_position) }
            &&& first.0 == position + first_frame_count
            &&& second.2.len() > 0
            &&& second.2[0].destination_offset == 0
            &&& second.2[0].source_position == position + first_frame_count
            &&& second.2[0].gain == if fade_in { SegmentGain::FadeIn(moved) } else { SegmentGain::FadeOut(moved) }
        }),
{
    let phase = if fade_in { Phase::FadingIn(fade_position) } else { Phase::FadingOut(fade_position) };
    let first = render_voice(position, phase, first_frame_count, source_frame_count, fade_length);
    let moved = (fade_position + first_frame_count) as usize;
    assert(first.1 == if fade_in { Phase::FadingIn(moved) } else { Phase::FadingOut(moved) });
}

} // verus!

use vstd::prelude::*;

use crate::effects::recorder::FrameCopy;

verus! {

/// Audio as a mathematical value: the frame count, the sample rate, and the
/// samples of each channel
pub struct Frames<S> {
    /// The number of frames
    pub frame_count: nat,
    /// The sample rate
    pub sample_rate: usize,
    /// The samples of each channel, frame by frame
    pub channels: Seq<Seq<S>>,
}

/// Whether every channel holds exactly `frame_count` samples
pub open spec fn frames_wf<S>(frames: Frames<S>) -> bool {
    forall|channel: int| 0 <= channel < frames.channels.len() ==> (#[trigger] frames.channels[channel]).len() == frames.frame_count
}

/// The smaller of two integers
pub open spec fn min_nat(a: int, b: int) -> int {
    if a < b {
        a
    } else {
        b
    }
}

/// `destination` with `copy.frame_count` frames of `input`, from
/// `copy.source_frame` on, written from `copy.destination_frame` on, on the
/// channels that both have
pub open spec fn copy_frames<S>(destination: Frames<S>, input: Frames<S>, copy: FrameCopy) -> Frames<S> {
    Frames {
        channels: Seq::new(
            destination.channels.len(),
            |channel: int|
                if channel < input.channels.len() {
                    destination.channels[channel].take(copy.destination_frame as int) + input.channels[channel].subrange(
                        copy.source_frame as int,
                        copy.source_frame + copy.frame_count,
                    ) + destination.channels[channel].skip(copy.destination_frame + copy.frame_count)
                } else {
                    destination.channels[channel]
                },
        ),
        ..destination
    }
}

/// The first `frame_count` frames of `frames` (all of them, if it has fewer)
pub open spec fn prefix_frames<S>(frames: Frames<S>, frame_count: int) -> Frames<S> {
    let kept = min_nat(frame_count, frames.frame_count as int);
    Frames {
        frame_count: kept as nat,
        channels: frames.channels.map_values(|channel: Seq<S>| channel.take(kept)),
        ..frames
    }
}

/// `first` followed by the first `frame_count` frames of `second` (all of
/// them, if it has fewer), on the channels that both have
pub open spec fn extend_frames<S>(first: Frames<S>, second: Frames<S>, frame_count: int) -> Frames<S> {
    let added = min_nat(frame_count, second.frame_count as int);
    Frames {
        frame_count: (first.frame_count + added) as nat,
        channels: Seq::new(
            min_nat(first.channels.len() as int, second.channels.len() as int) as nat,
            |channel: int| first.channels[channel] + second.channels[channel].take(added),
        ),
        ..first
    }
}

/// Non-interleaved audio: one vector of samples per channel
pub struct FrameBuffer<S> {
    channels: Vec<Vec<S>>,
    frame_count: usize,
    sample_rate: usize,
}

impl<S> View for FrameBuffer<S> {
    type V = Frames<S>;

    closed spec fn view(&self) -> Frames<S> {
        Frames {
            frame_count: self.frame_count as nat,
            sample_rate: self.sample_rate,
            channels: self.channels@.map_values(|channel: Vec<S>| channel@),
        }
    }
}

impl<S> FrameBuffer<S> {
    /// Every channel holds exactly `frame_count` samples
    #[verifier::type_invariant]
    closed spec fn inv(&self) -> bool {
        forall|channel: int| 0 <= channel < self.channels@.len() ==> (#[trigger] self.channels@[channel])@.len() == self.frame_count
    }
}

impl<S: Copy> FrameBuffer<S> {
    /// A buffer whose every sample has one value: `S::default()`
    pub fn silent(frame_count: usize, channel_count: usize, sample_rate: usize) -> (buffer: Self)
        where S: Default,
        ensures
            buffer@.frame_count == frame_count,
            buffer@.sample_rate == sample_rate,
            buffer@.channels.len() == channel_count,
            frames_wf(buffer@),
            forall|channel: int, frame: int|
                0 <= channel < channel_count && 0 <= frame < frame_count ==> #[trigger] buffer@.channels[channel][frame]
                    == buffer@.channels[0][0],
    {
        let silence = S::default();
        let mut channels: Vec<Vec<S>> = Vec::new();
        let mut channel: usize = 0;
        while channel < channel_count
            invariant
                channel <= channel_count,
                channels@.len() == channel,
                forall|c: int| 0 <= c < channel ==> (#[trigger] channels@[c])@ == Seq::new(frame_count as nat, |f: int| silence),
            decreases channel_count - channel,
        {
            let mut samples: Vec<S> = Vec::new();
            let mut frame: usize = 0;
            while frame < frame_count
                invariant
                    frame <= frame_count,
                    samples@ == Seq::new(frame as nat, |f: int| silence),
                decreases frame_count - frame,
            {
                samples.push(silence);
                frame = frame + 1;
                assert(samples@ =~= Seq::new(frame as nat, |f: int| silence));
            }
            channels.push(samples);
            channel = channel + 1;
        }
        let buffer = Self { channels, frame_count, sample_rate };
        assert(buffer@.channels.len() == channel_count);
        buffer
    }

    /// A buffer that holds `channels`, if each has `frame_count` samples
    pub fn from_channels(channels: Vec<Vec<S>>, frame_count: usize, sample_rate: usize) -> (buffer: Option<Self>)
        ensures
            match buffer {
                Some(buffer) => {
                    &&& buffer@.frame_count == frame_count
                    &&& buffer@.sample_rate == sample_rate
                    &&& buffer@.channels == channels@.map_values(|channel: Vec<S>| channel@)
                },
                None => exists|channel: int| 0 <= channel < channels@.len() && (#[trigger] channels@[channel])@.len() != frame_count,
            },
    {
        let mut channel: usize = 0;
        while channel < channels.len()
            invariant
                channel <= channels@.len(),
                forall|c: int| 0 <= c < channel ==> (#[trigger] channels@[c])@.len() == frame_count,
            decreases channels@.len() - channel,
        {
            if channels[channel].len() != frame_count {
                assert(channels@[channel as int]@.len() != frame_count);
                return None;
            }
            channel = channel + 1;
        }
        Some(Self { channels, frame_count, sample_rate })
    }

    /// The invariant, as the view shows it
    pub(crate) fn reveal_wf(&self)
        ensures
            frames_wf(self@),
    {
        proof {
            use_type_invariant(self);
            assert forall|channel: int| 0 <= channel < self@.channels.len() implies (#[trigger] self@.channels[channel]).len()
                == self@.frame_count by {
                assert(self@.channels[channel] == self.channels@[channel]@);
            }
        }
    }

    /// The number of frames
    pub fn frame_count(&self) -> (frame_count: usize)
        ensures
            frame_count == self@.frame_count,
    {
        self.frame_count
    }

    /// The number of channels
    pub fn channel_count(&self) -> (channel_count: usize)
        ensures
            channel_count == self@.channels.len(),
    {
        self.channels.len()
    }

    /// The sample rate
    pub fn sample_rate(&self) -> (sample_rate: usize)
        ensures
            sample_rate == self@.sample_rate,
    {
        self.sample_rate
    }

    /// The samples of `channel`
    pub fn channel(&self, channel: usize) -> (samples: &Vec<S>)
        requires
            channel < self@.channels.len(),
        ensures
            samples@ == self@.channels[channel as int],
    {
        &self.channels[channel]
    }

    /// Copy `copy.frame_count` frames of `input`, from `copy.source_frame`
    /// on, into this buffer from `copy.destination_frame` on, on the channels
    /// that both have
    pub fn copy_from(&mut self, input: &FrameBuffer<S>, copy: FrameCopy)
        requires
            copy.source_frame + copy.frame_count <= input@.frame_count,
            copy.destination_frame + copy.frame_count <= old(self)@.frame_count,
        ensures
            final(self)@ == copy_frames(old(self)@, input@, copy),
    {
        proof {
            use_type_invariant(&*self);
            use_type_invariant(input);
        }
        let ghost start = self@;
        let ghost wanted_all = copy_frames(start, input@, copy);
        let shared = if self.channels.len() < input.channels.len() {
            self.channels.len()
        } else {
            input.channels.len()
        };
        let mut channels: Vec<Vec<S>> = Vec::new();
        let mut channel: usize = 0;
        while channel < self.channels.len()
            invariant
                channel <= self.channels@.len(),
                self@ == start,
                wanted_all == copy_frames(start, input@, copy),
                shared == min_nat(start.channels.len() as int, input@.channels.len() as int),
                copy.source_frame + copy.frame_count <= input@.frame_count,
                copy.destination_frame + copy.frame_count <= start.frame_count,
                forall|c: int| 0 <= c < input.channels@.len() ==> (#[trigger] input.channels@[c])@.len() == input.frame_count,
                input@.frame_count == input.frame_count,
                forall|c: int| 0 <= c < self.channels@.len() ==> (#[trigger] self.channels@[c])@.len() == self.frame_count,
                channels@.len() == channel,
                forall|c: int| 0 <= c < channel ==> (#[trigger] channels@[c])@ == wanted_all.channels[c],
            decreases self.channels@.len() - channel,
        {
            let ghost wanted = wanted_all.channels[channel as int];
            proof {
                if channel < shared {
                    assert(wanted == start.channels[channel as int].take(copy.destination_frame as int)
                        + input.channels@[channel as int]@.subrange(copy.source_frame as int, copy.source_frame + copy.frame_count)
                        + start.channels[channel as int].skip(copy.destination_frame + copy.frame_count));
                } else {
                    assert(wanted == start.channels[channel as int]);
                }
            }
            let mut samples: Vec<S> = Vec::new();
            let mut frame: usize = 0;
            while frame < self.frame_count
                invariant
                    frame <= self.frame_count,
                    channel < self.channels@.len(),
                    self@ == start,
                    shared <= input.channels@.len(),
                    self.channels@[channel as int]@ == start.channels[channel as int],
                    self.channels@[channel as int]@.len() == self.frame_count,
                    channel < shared ==> input.channels@[channel as int]@.len() == input.frame_count,
                    copy.source_frame + copy.frame_count <= input.frame_count,
                    copy.destination_frame + copy.frame_count <= self.frame_count,
                    channel < shared ==> wanted == start.channels[channel as int].take(copy.destination_frame as int)
                        + input.channels@[channel as int]@.subrange(copy.source_frame as int, copy.source_frame + copy.frame_count)
                        + start.channels[channel as int].skip(copy.destination_frame + copy.frame_count),
                    channel >= shared ==> wanted == start.channels[channel as int],
                    samples@ == wanted.take(frame as int),
                decreases self.frame_count - frame,
            {
                let value = if channel < shared && copy.destination_frame <= frame && frame < copy.destination_frame
                    + copy.frame_count {
                    input.channels[channel][copy.source_frame + (frame - copy.destination_frame)]
                } else {
                    self.channels[channel][frame]
                };
                assert(value == wanted[frame as int]);
                samples.push(value);
                frame = frame + 1;
                assert(samples@ =~= wanted.take(frame as int));
            }
            assert(samples@ =~= wanted);
            channels.push(samples);
            channel = channel + 1;
        }
        self.channels = channels;
        proof {
            assert(self@.channels =~= wanted_all.channels);
        }
    }

    /// A new buffer that holds the first `frame_count` frames of this one
    /// (all of them, if it has fewer)
    pub fn prefix(&self, frame_count: usize) -> (buffer: Self)
        ensures
            buffer@ == prefix_frames(self@, frame_count as int),
    {
        proof {
            use_type_invariant(self);
        }
        let kept = if frame_count < self.frame_count {
            frame_count
        } else {
            self.frame_count
        };
        let mut channels: Vec<Vec<S>> = Vec::new();
        let mut channel: usize = 0;
        while channel < self.channels.len()
            invariant
                channel <= self.channels@.len(),
                kept <= self.frame_count,
                kept == min_nat(frame_count as int, self.frame_count as int),
                forall|c: int| 0 <= c < self.channels@.len() ==> (#[trigger] self.channels@[c])@.len() == self.frame_count,
                channels@.len() == channel,
                forall|c: int| 0 <= c < channel ==> (#[trigger] channels@[c])@ == self.channels@[c]@.take(kept as int),
            decreases self.channels@.len() - channel,
        {
            let mut samples: Vec<S> = Vec::new();
            let mut frame: usize = 0;
            while frame < kept
                invariant
                    frame <= kept,
                    kept <= self.frame_count,
                    channel < self.channels@.len(),
                    self.channels@[channel as int]@.len() == self.frame_count,
                    samples@ == self.channels@[channel as int]@.take(frame as int),
                decreases kept - frame,
            {
                samples.push(self.channels[channel][frame]);
                frame = frame + 1;
                assert(samples@ =~= self.channels@[channel as int]@.take(frame as int));
            }
            channels.push(samples);
            channel = channel + 1;
        }
        let buffer = Self { channels, frame_count: kept, sample_rate: self.sample_rate };
        assert(buffer@.channels =~= self@.channels.map_values(|channel: Seq<S>| channel.take(kept as int)));
        buffer
    }

    /// A new buffer that holds this one followed by the first `frame_count`
    /// frames of `other` (all of them, if it has fewer), on the channels that
    /// both have
    pub fn extended_with(&self, other: &FrameBuffer<S>, frame_count: usize) -> (buffer: Option<Self>)
        ensures
            match buffer {
                Some(buffer) => {
                    &&& self@.frame_count + min_nat(frame_count as int, other@.frame_count as int) <= usize::MAX
                    &&& buffer@ == extend_frames(self@, other@, frame_count as int)
                },
                None => self@.frame_count + min_nat(frame_count as int, other@.frame_count as int) > usize::MAX,
            },
    {
        proof {
            use_type_invariant(self);
            use_type_invariant(other);
        }
        let added = if frame_count < other.frame_count {
            frame_count
        } else {
            other.frame_count
        };
        if added > usize::MAX - self.frame_count {
            return None;
        }
        let shared = if self.channels.len() < other.channels.len() {
            self.channels.len()
        } else {
            other.channels.len()
        };
        let ghost wanted = extend_frames(self@, other@, frame_count as int);
        let mut channels: Vec<Vec<S>> = Vec::new();
        let mut channel: usize = 0;
        while channel < shared
            invariant
                channel <= shared,
                shared <= self.channels@.len(),
                shared <= other.channels@.len(),
                shared == wanted.channels.len(),
                added <= other.frame_count,
                added == min_nat(frame_count as int, other.frame_count as int),
                wanted == extend_frames(self@, other@, frame_count as int),
                forall|c: int| 0 <= c < self.channels@.len() ==> (#[trigger] self.channels@[c])@.len() == self.frame_count,
                forall|c: int| 0 <= c < other.channels@.len() ==> (#[trigger] other.channels@[c])@.len() == other.frame_count,
                channels@.len() == channel,
                forall|c: int| 0 <= c < channel ==> (#[trigger] channels@[c])@ == wanted.channels[c],
            decreases shared - channel,
        {
            let mut samples: Vec<S> = Vec::new();
            let mut frame: usize = 0;
            while frame < self.frame_count
                invariant
                    frame <= self.frame_count,
                    channel < shared,
                    shared <= self.channels@.len(),
                    self.channels@[channel as int]@.len() == self.frame_count,
                    samples@ == self.channels@[channel as int]@.take(frame as int),
                decreases self.frame_count - frame,
            {
                samples.push(self.channels[channel][frame]);
                frame = frame + 1;
                assert(samples@ =~= self.channels@[channel as int]@.take(frame as int));
            }
            let mut frame: usize = 0;
            while frame < added
                invariant
                    frame <= added,
                    added <= other.frame_count,
                    channel < shared,
                    shared <= other.channels@.len(),
                    shared <= self.channels@.len(),
                    self.channels@[channel as int]@.len() == self.frame_count,
                    other.channels@[channel as int]@.len() == other.frame_count,
                    samples@ == self.channels@[channel as int]@ + other.channels@[channel as int]@.take(frame as int),
                decreases added - frame,
            {
                samples.push(other.channels[channel][frame]);
                frame = frame + 1;
                assert(samples@ =~= self.channels@[channel as int]@ + other.channels@[channel as int]@.take(frame as int));
            }
            assert(samples@ == wanted.channels[channel as int]);
            channels.push(samples);
            channel = channel + 1;
        }
        let buffer = Self { channels, frame_count: self.frame_count + added, sample_rate: self.sample_rate };
        assert(buffer@.channels =~= wanted.channels);
        Some(buffer)
    }
}


/// Copying writes each channel of the input into the same channel of the
/// destination: frame `i` of the copy lands `i` frames after
/// `copy.destination_frame`, taken `i` frames after `copy.source_frame`;
/// every other frame, and every channel the input lacks, keeps its samples
pub proof fn law_copy_keeps_channels_apart<S>(destination: Frames<S>, input: Frames<S>, copy: FrameCopy)
    requires
        frames_wf(destination),
        frames_wf(input),
        copy.destination_frame + copy.frame_count <= destination.frame_count,
        copy.source_frame + copy.frame_count <= input.frame_count,
    ensures
        ({
            let copied = copy_frames(destination, input, copy);
            &&& frames_wf(copied)
            &&& copied.frame_count == destination.frame_count
            &&& copied.channels.len() == destination.channels.len()
            &&& forall|channel: int, i: int|
                0 <= channel < destination.channels.len() && channel < input.channels.len() && 0 <= i
                    < copy.frame_count ==> #[trigger] copied.channels[channel][copy.destination_frame + i]
                    == input.channels[channel][copy.source_frame + i]
            &&& forall|channel: int, frame: int|
                0 <= channel < destination.channels.len() && 0 <= frame < destination.frame_count && (frame
                    < copy.destination_frame || copy.destination_frame + copy.frame_count <= frame
                    || channel >= input.channels.len()) ==> #[trigger] copied.channels[channel][frame]
                    == destination.channels[channel][frame]
        }),
{
    let copied = copy_frames(destination, input, copy);
    let d = copy.destination_frame as int;
    let n = copy.frame_count as int;
    let src = copy.source_frame as int;
    assert forall|channel: int| 0 <= channel < copied.channels.len() implies (#[trigger] copied.channels[channel]).len()
        == copied.frame_count by {
        assert(destination.channels[channel].len() == destination.frame_count);
        if channel < input.channels.len() {
            assert(input.channels[channel].len() == input.frame_count);
        }
    }
    assert forall|channel: int, i: int|
        0 <= channel < destination.channels.len() && channel < input.channels.len() && 0 <= i
            < copy.frame_count implies #[trigger] copied.channels[channel][copy.destination_frame + i]
            == input.channels[channel][copy.source_frame + i] by {
        assert(destination.channels[channel].len() == destination.frame_count);
        assert(input.channels[channel].len() == input.frame_count);
        let head = destination.channels[channel].take(d);
        let middle = input.channels[channel].subrange(src, src + n);
        assert(head.len() == d);
        assert((head + middle)[d + i] == middle[i]);
    }
    assert forall|channel: int, frame: int|
        0 <= channel < destination.channels.len() && 0 <= frame < destination.frame_count && (frame
            < copy.destination_frame || copy.destination_frame + copy.frame_count <= frame || channel
            >= input.channels.len()) implies #[trigger] copied.channels[channel][frame]
            == destination.channels[channel][frame] by {
        assert(destination.channels[channel].len() == destination.frame_count);
        if channel < input.channels.len() {
            assert(input.channels[channel].len() == input.frame_count);
            let head = destination.channels[channel].take(d);
            let middle = input.channels[channel].subrange(src, src + n);
            let tail = destination.channels[channel].skip(d + n);
            if frame < d {
                assert((head + middle + tail)[frame] == head[frame]);
            } else {
                assert((head + middle + tail)[frame] == tail[frame - d - n]);
            }
        }
    }
}

/// Extending keeps each channel apart: channel `c` of the result is channel
/// `c` of `first`, frame for frame, followed by the first frames of channel
/// `c` of `second`
pub proof fn law_extend_keeps_channels_apart<S>(first: Frames<S>, second: Frames<S>, frame_count: int)
    requires
        frames_wf(first),
        frames_wf(second),
        frame_count >= 0,
    ensures
        ({
            let extended = extend_frames(first, second, frame_count);
            let added = min_nat(frame_count, second.frame_count as int);
            &&& frames_wf(extended)
            &&& extended.frame_count == first.frame_count + added
            &&& extended.sample_rate == first.sample_rate
            &&& extended.channels.len() == min_nat(first.channels.len() as int, second.channels.len() as int)
            &&& forall|channel: int, i: int|
                0 <= channel < extended.channels.len() && 0 <= i < first.frame_count
                    ==> #[trigger] extended.channels[channel][i] == first.channels[channel][i]
            &&& forall|channel: int, i: int|
                0 <= channel < extended.channels.len() && 0 <= i < added
                    ==> #[trigger] extended.channels[channel][first.frame_count + i] == second.channels[channel][i]
        }),
{
    let extended = extend_frames(first, second, frame_count);
    let added = min_nat(frame_count, second.frame_count as int);
    assert forall|channel: int| 0 <= channel < extended.channels.len() implies (#[trigger] extended.channels[channel]).len()
        == extended.frame_count by {
        assert(first.channels[channel].len() == first.frame_count);
        assert(second.channels[channel].len() == second.frame_count);
    }
    assert forall|channel: int, i: int| 0 <= channel < extended.channels.len() && 0 <= i < first.frame_count
        implies #[trigger] extended.channels[channel][i] == first.channels[channel][i] by {
        assert(first.channels[channel].len() == first.frame_count);
        assert(second.channels[channel].len() == second.frame_count);
    }
    assert forall|channel: int, i: int| 0 <= channel < extended.channels.len() && 0 <= i < added
        implies #[trigger] extended.channels[channel][first.frame_count + i] == second.channels[channel][i] by {
        assert(first.channels[channel].len() == first.frame_count);
        assert(second.channels[channel].len() == second.frame_count);
    }
}

} // verus!

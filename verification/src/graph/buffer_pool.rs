use vstd::prelude::*;

use crate::buffer::FrameBuffer;

verus! {

/// A stack of free buffers that can be handed out and given back without
/// allocating
pub struct BufferPool<Buffer> {
    free_buffers: Vec<Buffer>,
}

impl<Buffer> View for BufferPool<Buffer> {
    type V = Seq<Buffer>;

    /// The free buffers, the next one to be handed out last
    closed spec fn view(&self) -> Seq<Buffer> {
        self.free_buffers@
    }
}

impl<Buffer> BufferPool<Buffer> {
    /// A pool that holds the given buffers
    pub fn from_buffers(buffers: Vec<Buffer>) -> (pool: Self)
        ensures
            pool@ == buffers@,
    {
        Self { free_buffers: buffers }
    }

    /// Take a buffer from the pool, if there is one left
    pub fn remove(&mut self) -> (buffer: Option<Buffer>)
        ensures
            old(self)@.len() == 0 ==> buffer.is_none() && final(self)@ == old(self)@,
            old(self)@.len() > 0 ==> buffer == Some(old(self)@.last()) && final(self)@ == old(self)@.drop_last(),
    {
        self.free_buffers.pop()
    }

    /// Give a buffer back to the pool
    pub fn add(&mut self, buffer: Buffer)
        ensures
            final(self)@ == old(self)@.push(buffer),
    {
        self.free_buffers.push(buffer);
    }

    /// The number of free buffers
    pub fn len(&self) -> (count: usize)
        ensures
            count == self@.len(),
    {
        self.free_buffers.len()
    }
}

impl<S: Copy + Default> BufferPool<FrameBuffer<S>> {
    /// A pool of `num_buffers` silent buffers, each of `num_frames` frames,
    /// `num_channels` channels and `sample_rate`
    pub fn new(num_buffers: usize, num_frames: usize, num_channels: usize, sample_rate: usize) -> (pool: Self)
        ensures
            pool@.len() == num_buffers,
            forall|i: int|
                0 <= i < num_buffers ==> {
                    let buffer = (#[trigger] pool@[i])@;
                    &&& buffer.frame_count == num_frames
                    &&& buffer.channels.len() == num_channels
                    &&& buffer.sample_rate == sample_rate
                },
    {
        let mut buffers: Vec<FrameBuffer<S>> = Vec::new();
        let mut index: usize = 0;
        while index < num_buffers
            invariant
                0 <= index <= num_buffers,
                buffers@.len() == index,
                forall|i: int|
                    0 <= i < index ==> {
                        let buffer = (#[trigger] buffers@[i])@;
                        &&& buffer.frame_count == num_frames
                        &&& buffer.channels.len() == num_channels
                        &&& buffer.sample_rate == sample_rate
                    },
            decreases num_buffers - index,
        {
            buffers.push(FrameBuffer::silent(num_frames, num_channels, sample_rate));
            index = index + 1;
        }
        Self { free_buffers: buffers }
    }
}

/// A buffer that is given back is the next one handed out, and taking it
/// leaves the pool as it was before
pub proof fn law_add_then_remove<Buffer>(free_buffers: Seq<Buffer>, buffer: Buffer)
    ensures
        free_buffers.push(buffer).len() > 0,
        free_buffers.push(buffer).last() == buffer,
        free_buffers.push(buffer).drop_last() == free_buffers,
{
    assert(free_buffers.push(buffer).drop_last() =~= free_buffers);
}

} // verus!

use vstd::prelude::*;

verus! {

/// The sample rate of an engine created with the default options
pub const DEFAULT_SAMPLE_RATE: usize = 44_100;

/// The maximum channel count of an engine created with the default options
pub const DEFAULT_MAXIMUM_CHANNEL_COUNT: usize = 2;

/// Options to use when creating the audio engine
#[derive(Clone, Copy, Debug)]
pub struct EngineOptions {
    sample_rate: usize,
    maximum_channel_count: usize,
}

impl EngineOptions {
    /// The sample rate of the engine
    pub closed spec fn spec_sample_rate(&self) -> usize {
        self.sample_rate
    }

    /// The maximum channel count between any two nodes in the engine
    pub closed spec fn spec_maximum_channel_count(&self) -> usize {
        self.maximum_channel_count
    }

    /// Specify the sample rate of the engine
    pub fn with_sample_rate(self, sample_rate: usize) -> (options: Self)
        ensures
            options.spec_sample_rate() == sample_rate,
            options.spec_maximum_channel_count() == self.spec_maximum_channel_count(),
    {
        Self { sample_rate, ..self }
    }

    /// Specify the maximum channel count between any two nodes in the engine
    ///
    /// A bigger channel count will use more memory
    pub fn with_maximum_channel_count(self, maximum_channel_count: usize) -> (options: Self)
        ensures
            options.spec_sample_rate() == self.spec_sample_rate(),
            options.spec_maximum_channel_count() == maximum_channel_count,
    {
        Self { maximum_channel_count, ..self }
    }

    /// The sample rate of the engine
    pub fn sample_rate(&self) -> (sample_rate: usize)
        ensures
            sample_rate == self.spec_sample_rate(),
    {
        self.sample_rate
    }

    /// The maximum channel count between any two nodes in the engine
    pub fn maximum_channel_count(&self) -> (maximum_channel_count: usize)
        ensures
            maximum_channel_count == self.spec_maximum_channel_count(),
    {
        self.maximum_channel_count
    }
}

impl Default for EngineOptions {
    /// A sample rate of 44.1 kHz and at most two channels
    fn default() -> (options: Self)
        ensures
            options.spec_sample_rate() == DEFAULT_SAMPLE_RATE,
            options.spec_maximum_channel_count() == DEFAULT_MAXIMUM_CHANNEL_COUNT,
    {
        Self { sample_rate: DEFAULT_SAMPLE_RATE, maximum_channel_count: DEFAULT_MAXIMUM_CHANNEL_COUNT }
    }
}

} // verus!

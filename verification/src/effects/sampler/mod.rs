pub mod sampler_event;
pub mod sampler_node;
pub mod sampler_processor;
pub mod sampler_voice;

pub use sampler_event::SampleEventType;
pub use sampler_event::SamplerEvent;
pub use sampler_node::Sampler;
pub use sampler_processor::SamplerDspProcess;
pub use sampler_processor::SamplerState;
pub use sampler_voice::Phase;
pub use sampler_voice::RenderSegment;
pub use sampler_voice::SegmentGain;
pub use sampler_voice::Voice;

//! rawdio is an audio engine inspired by the Web Audio API.
//!
//! This crate holds the engine's verified core: the timeline arithmetic, the
//! scheduling of timed events, the sampler's playback state machine, the
//! ADSR envelope's plan of each block, the recorder's copying and buffer
//! bookkeeping, the messages that nodes send to the audio thread, and the
//! plain data that describes the graph. Floating point sample arithmetic
//! happens outside of it, on the plans it produces.
pub mod buffer;
pub mod channel;
pub mod effects;
pub mod engine;
pub mod graph;
pub mod id;
pub mod timestamp;

pub use buffer::FrameBuffer;
pub use buffer::Frames;
pub use channel::EventReceiver;
pub use channel::EventTransmitter;
pub use effects::adsr::Adsr;
pub use effects::adsr::AdsrEvent;
pub use effects::adsr::AdsrEventType;
pub use effects::adsr::AdsrProcessor;
pub use effects::adsr::AdsrSettings;
pub use effects::adsr::EnvelopeSpan;
pub use effects::biquad::BiquadFilterType;
pub use effects::gain::GainProcessor;
pub use effects::mixer::Mixer;
pub use effects::mixer::MixerMatrix;
pub use effects::pan::PanProcessor;
pub use effects::recorder::FrameCopy;
pub use effects::recorder::Recorder;
pub use effects::recorder::RecorderEvent;
pub use effects::recorder::RecorderEventType;
pub use effects::recorder::RecorderNotice;
pub use effects::recorder::RecorderNotification;
pub use effects::recorder::RecorderProcessor;
pub use effects::recorder::RecorderState;
pub use effects::sampler::Phase;
pub use effects::sampler::RenderSegment;
pub use effects::sampler::SampleEventType;
pub use effects::sampler::Sampler;
pub use effects::sampler::SamplerDspProcess;
pub use effects::sampler::SamplerEvent;
pub use effects::sampler::SamplerState;
pub use effects::sampler::SegmentGain;
pub use effects::sampler::Voice;
pub use effects::utility::EventProcessor;
pub use effects::utility::EventProcessorEvent;
pub use engine::Command;
pub use engine::EngineOptions;
pub use engine::NotifierStatus;
pub use graph::AssignedBufferPool;
pub use graph::BufferPool;
pub use graph::Connection;
pub use graph::Dsp;
pub use graph::Endpoint;
pub use graph::EndpointType;
pub use graph::GraphNode;
pub use id::Id;
pub use timestamp::Timestamp;
pub use timestamp::TICKS_PER_SECOND;

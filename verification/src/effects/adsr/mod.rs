pub mod adsr_event;
pub mod adsr_node;
pub mod adsr_processor;

pub use adsr_event::AdsrEvent;
pub use adsr_event::AdsrEventType;
pub use adsr_node::Adsr;
pub use adsr_processor::AdsrProcessor;
pub use adsr_processor::AdsrSettings;
pub use adsr_processor::EnvelopeSpan;

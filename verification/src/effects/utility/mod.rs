pub mod event_processor;

pub use event_processor::next_event_in_block;
pub use event_processor::receive_all;
pub use event_processor::span_end;
pub use event_processor::EventProcessor;
pub use event_processor::EventProcessorEvent;

pub mod recorder_event;
pub mod recorder_node;
pub mod recorder_processor;

pub use recorder_event::RecorderEvent;
pub use recorder_event::RecorderEventType;
pub use recorder_node::Recorder;
pub use recorder_processor::FrameCopy;
pub use recorder_processor::RecorderNotice;
pub use recorder_processor::RecorderNotification;
pub use recorder_processor::RecorderProcessor;
pub use recorder_processor::RecorderState;

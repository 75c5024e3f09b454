pub mod pan_processor;

pub use pan_processor::PanProcessor;

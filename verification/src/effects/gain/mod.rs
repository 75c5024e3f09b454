pub mod gain_processor;

pub use gain_processor::GainProcessor;

pub mod command;
pub mod context;
pub mod options;

pub use command::Command;
pub use context::NotifierStatus;
pub use options::EngineOptions;

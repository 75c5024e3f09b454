pub mod assigned_buffer_pool;
pub mod buffer_pool;
pub mod connection;
pub mod dsp;
pub mod endpoint;
pub mod graph_node;

pub use assigned_buffer_pool::AssignedBufferPool;
pub use buffer_pool::BufferPool;
pub use connection::Connection;
pub use dsp::Dsp;
pub use endpoint::Endpoint;
pub use endpoint::EndpointType;
pub use graph_node::GraphNode;

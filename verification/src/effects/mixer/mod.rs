pub mod mixer_matrix;
pub mod mixer_node;

pub use mixer_matrix::MixerMatrix;
pub use mixer_node::Mixer;

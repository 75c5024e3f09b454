pub mod filter_type;

pub use filter_type::BiquadFilterType;

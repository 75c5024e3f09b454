pub mod adsr;
pub mod biquad;
pub mod gain;
pub mod mixer;
pub mod pan;
pub mod recorder;
pub mod sampler;
pub mod utility;

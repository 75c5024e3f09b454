use vstd::prelude::*;

verus! {

/// The type of the biquad filter
///
/// This determines how the parameters set the coefficients of the filter
#[derive(Clone, Copy, PartialEq, Eq, Structural, Debug)]
pub enum BiquadFilterType {
    /// High pass filter: removes low frequencies below the cutoff frequency
    HighPass,
    /// Low pass filter: removes high frequencies above the cutoff frequency
    LowPass,
    /// Band pass filter: removes all but a band around the centre frequency
    BandPass,
    /// Notch filter: removes a band around the centre frequency
    Notch,
    /// High shelf: applies a fixed gain to frequencies above the cutoff
    HighShelf,
    /// Low shelf: applies a fixed gain to frequencies below the cutoff
    LowShelf,
}

} // verus!

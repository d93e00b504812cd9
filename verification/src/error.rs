use vstd::prelude::*;

verus! {

/// The failure conditions of the player core.
///
/// Channel disconnection is deliberately not represented here: for the
/// analysis task it is the normal cooperative shutdown signal, not a failure.
#[derive(Debug, Clone, Copy, PartialEq, Eq, Structural)]
pub enum FerriaError {
    /// The requested FFT size is zero or not a power of two. Fatal at
    /// analyzer construction; never retried.
    InvalidConfiguration { fft_size: usize },
    /// A frame handed to the analyzer does not have the configured length.
    /// Reported per frame; the pipeline continues.
    InputSizeMismatch { given: usize, expected: usize },
    /// No audio output device or stream could be acquired. Fatal at
    /// playback-controller construction.
    DeviceError,
    /// The underlying transform failed on one frame. The frame is discarded
    /// and the pipeline continues.
    TransformFailure,
}

impl FerriaError {
    /// The wording of each condition, for callers that print errors.
    pub open spec fn spec_message(&self) -> Seq<char> {
        match self {
            FerriaError::InvalidConfiguration { .. } => "FFT size must be a power of two and non-zero"@,
            FerriaError::InputSizeMismatch { .. } => "input sample slice length does not match FFT size"@,
            FerriaError::DeviceError => "no audio output device or stream available"@,
            FerriaError::TransformFailure => "FFT processing failed"@,
        }
    }

    /// A short description of the condition. The error type carries no
    /// formatting machinery, so printing goes through this method.
    pub fn message(&self) -> (r: String)
        ensures
            r@ == self.spec_message(),
    {
        match self {
            FerriaError::InvalidConfiguration { .. } => String::from_str(
                "FFT size must be a power of two and non-zero",
            ),
            FerriaError::InputSizeMismatch { .. } => String::from_str(
                "input sample slice length does not match FFT size",
            ),
            FerriaError::DeviceError => String::from_str(
                "no audio output device or stream available",
            ),
            FerriaError::TransformFailure => String::from_str("FFT processing failed"),
        }
    }
}

} // verus!

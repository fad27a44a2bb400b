use vstd::prelude::*;

verus! {

/// What can go wrong between image bytes and audio bytes.
#[derive(Clone, Copy, Debug, PartialEq, Eq, Structural)]
pub enum SonifyError {
    /// The image format tag is none of the known ones.
    UnsupportedFormat,
    /// The image bytes could not be decoded.
    DecodeFailure,
    /// A parameter is out of range: zero modulus, no duration candidates,
    /// zero sample rate or duration, a fade fraction outside `[0, 1]`.
    InvalidArgument,
    /// The waveform could not be serialized.
    EncodeFailure,
}

} // verus!

use vstd::prelude::*;
use crate::error::SonifyError;

verus! {

/// The tone frequency of a colour: `base + (r + g + b) % modulus`.
pub open spec fn frequency_of(r: u8, g: u8, b: u8, base: u32, modulus: u32) -> int
    recommends
        modulus > 0,
{
    base + (r as int + g as int + b as int) % (modulus as int)
}

/// Maps a pixel colour to a tone frequency in Hz.
///
/// Fails with `InvalidArgument` when the modulus is zero, or when the
/// frequency would not fit in a `u32`.
pub fn color_to_frequency(r: u8, g: u8, b: u8, freq1: u32, freq2: u32) -> (res: Result<u32, SonifyError>)
    ensures
        res is Ok <==> freq2 > 0 && frequency_of(r, g, b, freq1, freq2) <= u32::MAX,
        res matches Ok(f) ==> f == frequency_of(r, g, b, freq1, freq2),
        res matches Err(e) ==> e == SonifyError::InvalidArgument,
{
    if freq2 == 0 {
        return Err(SonifyError::InvalidArgument);
    }
    let total: u32 = r as u32 + g as u32 + b as u32;
    let offset: u32 = total % freq2;
    match freq1.checked_add(offset) {
        Some(f) => Ok(f),
        None => Err(SonifyError::InvalidArgument),
    }
}

/// Every frequency lies in the band `[base, base + modulus - 1]`.
pub proof fn lemma_frequency_in_band(r: u8, g: u8, b: u8, base: u32, modulus: u32)
    requires
        modulus > 0,
    ensures
        base <= frequency_of(r, g, b, base, modulus) <= base + modulus - 1,
{
}

} // verus!

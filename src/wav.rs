use vstd::prelude::*;
use crate::error::SonifyError;

verus! {

#[verifier::external_type_specification]
#[verifier::external_body]
pub struct ExHoundError(hound::Error);

/// The sample rate of the audio container, in Hz.
pub const OUTPUT_SAMPLE_RATE: u32 = 44100;

/// The most samples a container can hold: hound sums the data bytes, two per
/// sample, and 36 bytes of header in a `u32`.
pub const MAX_WAV_SAMPLES: usize = 2_147_483_629;

/// `x` as two little-endian bytes.
pub open spec fn le16(x: nat) -> Seq<u8> {
    seq![(x % 256) as u8, ((x / 256) % 256) as u8]
}

/// `x` as four little-endian bytes.
pub open spec fn le32(x: nat) -> Seq<u8> {
    seq![
        (x % 256) as u8,
        ((x / 256) % 256) as u8,
        ((x / 65536) % 256) as u8,
        ((x / 16777216) % 256) as u8,
    ]
}

/// The two's-complement bit pattern of a sample.
pub open spec fn i16_bits(s: i16) -> nat {
    if s < 0 {
        (s + 65536) as nat
    } else {
        s as nat
    }
}

/// The data chunk's payload: each sample as two little-endian bytes, in order.
pub open spec fn pcm16_data(samples: Seq<i16>) -> Seq<u8> {
    Seq::new(2 * samples.len(), |k: int| le16(i16_bits(samples[k / 2]))[k % 2])
}

/// The 44-byte header of a mono 16-bit integer PCM container of `n`
/// samples: the RIFF/WAVE preamble, a 16-byte `fmt ` chunk and the `data`
/// chunk header.
pub open spec fn wav_header(n: nat, sample_rate: u32) -> Seq<u8> {
    seq![82u8, 73u8, 70u8, 70u8] + le32(36 + 2 * n) + seq![87u8, 65u8, 86u8, 69u8]
        + seq![102u8, 109u8, 116u8, 32u8] + le32(16) + le16(1) + le16(1) + le32(
        sample_rate as nat,
    ) + le32(2 * (sample_rate as nat)) + le16(2) + le16(16) + seq![100u8, 97u8, 116u8, 97u8] + le32(
        2 * n,
    )
}

/// The bytes of a mono 16-bit integer PCM container holding `samples`.
pub open spec fn wav_pcm16(samples: Seq<i16>, sample_rate: u32) -> Seq<u8> {
    wav_header(samples.len(), sample_rate) + pcm16_data(samples)
}

/// Relies on hound's `WavWriter::new`, `WavWriter::write_sample` and
/// `WavWriter::finalize`, writing a mono 16-bit integer container into an
/// in-memory cursor. For these settings hound writes the 16-byte PCM `fmt `
/// chunk, each sample as two little-endian bytes, and fills in both lengths
/// on finalizing; writing into a `Vec` does not fail. The writer is driven
/// here as a whole because its type, bound by `std::io::Write + Seek`, cannot
/// be declared to the verifier.
#[verifier::external_body]
fn encode_pcm16(samples: &[i16], sample_rate: u32) -> (r: Result<Vec<u8>, hound::Error>)
    requires
        samples@.len() <= MAX_WAV_SAMPLES,
        0 < sample_rate <= 0x7fff_ffff,
    ensures
        r is Ok,
        r matches Ok(b) ==> b@ == wav_pcm16(samples@, sample_rate),
{
    let spec = hound::WavSpec { channels: 1, sample_rate, bits_per_sample: 16, sample_format: hound::SampleFormat::Int };
    let mut buffer: Vec<u8> = Vec::new();
    let mut writer = hound::WavWriter::new(std::io::Cursor::new(&mut buffer), spec)?;
    for s in samples {
        writer.write_sample(*s)?;
    }
    writer.finalize()?;
    Ok(buffer)
}

/// Serializes 16-bit samples as a mono PCM waveform container at
/// 44100 Hz.
///
/// Succeeds exactly when the container can hold the samples; fails with
/// `EncodeFailure` otherwise.
pub fn save_wav(samples: &Vec<i16>) -> (r: Result<Vec<u8>, SonifyError>)
    ensures
        r is Ok <==> samples@.len() <= MAX_WAV_SAMPLES,
        r matches Ok(b) ==> b@ == wav_pcm16(samples@, OUTPUT_SAMPLE_RATE),
        r matches Err(e) ==> e == SonifyError::EncodeFailure,
{
    if samples.len() > MAX_WAV_SAMPLES {
        return Err(SonifyError::EncodeFailure);
    }
    match encode_pcm16(samples.as_slice(), OUTPUT_SAMPLE_RATE) {
        Ok(bytes) => Ok(bytes),
        Err(_) => Err(SonifyError::EncodeFailure),
    }
}

/// A container is its 44-byte header followed by two bytes per sample.
pub proof fn lemma_wav_length(samples: Seq<i16>, sample_rate: u32)
    ensures
        wav_pcm16(samples, sample_rate).len() == 44 + 2 * samples.len(),
{
}

/// The header names a mono (bytes 22..24), 16-bit (bytes 34..36) container
/// at `sample_rate` (bytes 24..28) whose data chunk holds two bytes per
/// sample (bytes 40..44), and the samples follow from byte 44 on, in order.
pub proof fn lemma_wav_fields(samples: Seq<i16>, sample_rate: u32)
    ensures
        wav_pcm16(samples, sample_rate).subrange(22, 24) == le16(1),
        wav_pcm16(samples, sample_rate).subrange(24, 28) == le32(sample_rate as nat),
        wav_pcm16(samples, sample_rate).subrange(34, 36) == le16(16),
        wav_pcm16(samples, sample_rate).subrange(40, 44) == le32(2 * samples.len()),
        forall|i: int|
            0 <= i < samples.len() ==> wav_pcm16(samples, sample_rate).subrange(
                44 + 2 * i,
                46 + 2 * i,
            ) == le16(i16_bits(#[trigger] samples[i])),
{
    let w = wav_pcm16(samples, sample_rate);
    let h = wav_header(samples.len(), sample_rate);
    assert(w.subrange(22, 24) =~= le16(1));
    assert(w.subrange(24, 28) =~= le32(sample_rate as nat));
    assert(w.subrange(34, 36) =~= le16(16));
    assert(w.subrange(40, 44) =~= le32(2 * samples.len()));
    assert forall|i: int| 0 <= i < samples.len() implies w.subrange(44 + 2 * i, 46 + 2 * i)
        == le16(i16_bits(#[trigger] samples[i])) by {
        assert((2 * i) / 2 == i && (2 * i) % 2 == 0);
        assert((2 * i + 1) / 2 == i && (2 * i + 1) % 2 == 1);
        assert(w.subrange(44 + 2 * i, 46 + 2 * i) =~= le16(i16_bits(samples[i])));
    }
}

} // verus!

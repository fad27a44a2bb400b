//! Turns the pixels of an image into a mono melody.
//!
//! Each pixel's colour picks a tone frequency, each tone gets a duration drawn
//! from a set of candidates, and the tones are laid end to end. A tone is
//! described sample by sample as an exact gain (a ratio of integers) and an
//! exact phase (an integer over the sample rate); turning that into a
//! floating-point amplitude is left to the caller.

mod duration;
mod error;
mod format;
mod frequency;
mod sampler;
mod song;
mod tone;
mod wav;

pub use duration::select_durations;
pub use error::SonifyError;
pub use format::{format_from_lowercase, format_of, lower_of, parse_image_format, ImageKind};
pub use frequency::{color_to_frequency, frequency_of, lemma_frequency_in_band};
pub use sampler::{analyze_image, decodes_as, sampled_pixels_of};
pub use song::{
    compose_song, generate_music, lemma_empty_song, lemma_song_length, music_args_ok,
    pixel_frequency, song_args_ok, song_of, total_samples, Pixel,
};
pub use tone::{
    fade_length, gain_at, generate_sine_wave, lemma_tone_length, lemma_zero_frequency_silent,
    point_at, sample_count, tone_args_ok, tone_of, Fraction, SamplePoint,
};
pub use wav::{
    i16_bits, le16, le32, lemma_wav_fields, lemma_wav_length, pcm16_data, save_wav, wav_header,
    wav_pcm16, MAX_WAV_SAMPLES, OUTPUT_SAMPLE_RATE,
};

use vstd::prelude::*;
use crate::error::SonifyError;
use crate::duration::select_durations;
use crate::frequency::{color_to_frequency, frequency_of};
use crate::tone::{generate_sine_wave, sample_count, tone_args_ok, tone_of, Fraction, SamplePoint};

verus! {

/// A pixel colour as `(red, green, blue)`.
pub type Pixel = (u8, u8, u8);

/// The frequency of a pixel.
pub open spec fn pixel_frequency(p: Pixel, freq1: u32, freq2: u32) -> int {
    frequency_of(p.0, p.1, p.2, freq1, freq2)
}

/// The inputs on which a song can be composed from `pixels`, the `i`-th
/// pixel lasting `durations[i]` milliseconds. An empty pixel sequence is
/// always accepted.
pub open spec fn song_args_ok(
    pixels: Seq<Pixel>,
    durations: Seq<u32>,
    sample_rate: u32,
    freq1: u32,
    freq2: u32,
    fade_in: Fraction,
    fade_out: Fraction,
) -> bool {
    &&& pixels.len() == durations.len()
    &&& pixels.len() > 0 ==> {
        &&& freq2 > 0
        &&& forall|i: int|
            0 <= i < pixels.len() ==> #[trigger] pixel_frequency(pixels[i], freq1, freq2)
                <= u32::MAX
        &&& forall|i: int|
            0 <= i < durations.len() ==> tone_args_ok(
                #[trigger] durations[i],
                sample_rate,
                fade_in,
                fade_out,
            )
    }
}

/// The tones of the pixels, in pixel order, laid end to end.
pub open spec fn song_of(
    pixels: Seq<Pixel>,
    durations: Seq<u32>,
    sample_rate: u32,
    freq1: u32,
    freq2: u32,
    fade_in: Fraction,
    fade_out: Fraction,
) -> Seq<SamplePoint>
    decreases pixels.len(),
{
    if pixels.len() == 0 {
        seq![]
    } else {
        let k = pixels.len() - 1;
        song_of(pixels.take(k), durations.take(k), sample_rate, freq1, freq2, fade_in, fade_out)
            + tone_of(
            pixel_frequency(pixels[k], freq1, freq2) as u32,
            durations[k],
            sample_rate,
            fade_in,
            fade_out,
        )
    }
}

/// Composes the song of `pixels`, the `i`-th pixel sounding for
/// `durations[i]` milliseconds.
///
/// Fails with `InvalidArgument` when the two sequences differ in length, or,
/// for a non-empty sequence, when a pixel's frequency or a tone cannot be
/// made.
pub fn compose_song(
    pixels: &Vec<Pixel>,
    durations: &Vec<u32>,
    sample_rate: u32,
    freq1: u32,
    freq2: u32,
    fade_in: Fraction,
    fade_out: Fraction,
) -> (r: Result<Vec<SamplePoint>, SonifyError>)
    ensures
        r is Ok <==> song_args_ok(
            pixels@,
            durations@,
            sample_rate,
            freq1,
            freq2,
            fade_in,
            fade_out,
        ),
        r matches Ok(song) ==> song@ == song_of(
            pixels@,
            durations@,
            sample_rate,
            freq1,
            freq2,
            fade_in,
            fade_out,
        ),
        r matches Err(e) ==> e == SonifyError::InvalidArgument,
{
    if pixels.len() != durations.len() {
        return Err(SonifyError::InvalidArgument);
    }
    let mut song: Vec<SamplePoint> = Vec::new();
    let mut i: usize = 0;
    while i < pixels.len()
        invariant
            i <= pixels.len(),
            pixels.len() == durations.len(),
            i > 0 ==> song_args_ok(
                pixels@.take(i as int),
                durations@.take(i as int),
                sample_rate,
                freq1,
                freq2,
                fade_in,
                fade_out,
            ),
            song@ == song_of(
                pixels@.take(i as int),
                durations@.take(i as int),
                sample_rate,
                freq1,
                freq2,
                fade_in,
                fade_out,
            ),
        decreases pixels.len() - i,
    {
        let (red, green, blue) = pixels[i];
        let freq = match color_to_frequency(red, green, blue, freq1, freq2) {
            Ok(f) => f,
            Err(e) => {
                proof {
                    assert(pixels@[i as int] == (red, green, blue));
                    assert(!song_args_ok(pixels@, durations@, sample_rate, freq1, freq2, fade_in, fade_out)) by {
                        if freq2 > 0 {
                            assert(pixel_frequency(pixels@[i as int], freq1, freq2) > u32::MAX);
                        }
                    }
                }
                return Err(e);
            },
        };
        let tone = match generate_sine_wave(freq, durations[i], sample_rate, fade_in, fade_out) {
            Ok(t) => t,
            Err(e) => {
                proof {
                    assert(!tone_args_ok(durations@[i as int], sample_rate, fade_in, fade_out));
                }
                return Err(e);
            },
        };
        let ghost before = song@;
        let mut tone_mut = tone;
        song.append(&mut tone_mut);
        proof {
            let ps = pixels@.take(i + 1);
            let ds = durations@.take(i + 1);
            assert(ps.take(i as int) =~= pixels@.take(i as int));
            assert(ds.take(i as int) =~= durations@.take(i as int));
            assert(ps[i as int] == pixels@[i as int]);
            assert(ds[i as int] == durations@[i as int]);
            assert(song@ =~= song_of(ps, ds, sample_rate, freq1, freq2, fade_in, fade_out));
            assert(pixel_frequency(pixels@[i as int], freq1, freq2) == freq);
            assert forall|j: int| 0 <= j < ps.len() implies #[trigger] pixel_frequency(ps[j], freq1, freq2) <= u32::MAX by {
                if j < i {
                    assert(ps[j] == pixels@.take(i as int)[j]);
                }
            }
            assert forall|j: int| 0 <= j < ds.len() implies tone_args_ok(#[trigger] ds[j], sample_rate, fade_in, fade_out) by {
                if j < i {
                    assert(ds[j] == durations@.take(i as int)[j]);
                }
            }
        }
        i = i + 1;
    }
    assert(pixels@.take(i as int) =~= pixels@);
    assert(durations@.take(i as int) =~= durations@);
    Ok(song)
}

/// The total number of samples of tones lasting `durations`.
pub open spec fn total_samples(durations: Seq<u32>, sample_rate: u32) -> nat
    decreases durations.len(),
{
    if durations.len() == 0 {
        0
    } else {
        let k = durations.len() - 1;
        total_samples(durations.take(k), sample_rate) + sample_count(durations[k], sample_rate)
    }
}

/// The song of no pixels is empty.
pub proof fn lemma_empty_song(
    durations: Seq<u32>,
    sample_rate: u32,
    freq1: u32,
    freq2: u32,
    fade_in: Fraction,
    fade_out: Fraction,
)
    ensures
        song_of(Seq::empty(), durations, sample_rate, freq1, freq2, fade_in, fade_out)
            == Seq::<SamplePoint>::empty(),
{
}

/// A song is as long as its tones together: the sum over the pixels of
/// the sample counts of their durations.
pub proof fn lemma_song_length(
    pixels: Seq<Pixel>,
    durations: Seq<u32>,
    sample_rate: u32,
    freq1: u32,
    freq2: u32,
    fade_in: Fraction,
    fade_out: Fraction,
)
    requires
        pixels.len() == durations.len(),
    ensures
        song_of(pixels, durations, sample_rate, freq1, freq2, fade_in, fade_out).len()
            == total_samples(durations, sample_rate),
    decreases pixels.len(),
{
    if pixels.len() > 0 {
        let k = pixels.len() - 1;
        lemma_song_length(
            pixels.take(k),
            durations.take(k),
            sample_rate,
            freq1,
            freq2,
            fade_in,
            fade_out,
        );
    }
}

/// The inputs on which every draw of durations from `candidates` gives a
/// song: no pixels at all, or candidates that all make valid tones and
/// pixels whose frequencies all fit.
pub open spec fn music_args_ok(
    pixels: Seq<Pixel>,
    candidates: Seq<u32>,
    sample_rate: u32,
    freq1: u32,
    freq2: u32,
    fade_in: Fraction,
    fade_out: Fraction,
) -> bool {
    pixels.len() > 0 ==> {
        &&& candidates.len() > 0
        &&& freq2 > 0
        &&& forall|i: int|
            0 <= i < pixels.len() ==> #[trigger] pixel_frequency(pixels[i], freq1, freq2)
                <= u32::MAX
        &&& forall|k: int|
            0 <= k < candidates.len() ==> tone_args_ok(
                #[trigger] candidates[k],
                sample_rate,
                fade_in,
                fade_out,
            )
    }
}

/// Composes the song of `pixels`, drawing each pixel's duration at random
/// from `candidates`.
///
/// The song is that of some draw of one candidate per pixel. It fails with
/// `InvalidArgument` when no draw gives a song; it succeeds whenever every
/// draw does.
pub fn generate_music(
    pixels: &Vec<Pixel>,
    sample_rate: u32,
    freq1: u32,
    freq2: u32,
    candidates: &Vec<u32>,
    fade_in: Fraction,
    fade_out: Fraction,
) -> (r: Result<Vec<SamplePoint>, SonifyError>)
    ensures
        music_args_ok(pixels@, candidates@, sample_rate, freq1, freq2, fade_in, fade_out)
            ==> r is Ok,
        r matches Ok(song) ==> exists|ds: Seq<u32>|
            {
                &&& ds.len() == pixels@.len()
                &&& forall|i: int| 0 <= i < ds.len() ==> candidates@.contains(#[trigger] ds[i])
                &&& song_args_ok(pixels@, ds, sample_rate, freq1, freq2, fade_in, fade_out)
                &&& #[trigger] song_of(pixels@, ds, sample_rate, freq1, freq2, fade_in, fade_out)
                    == song@
            },
        r matches Err(e) ==> e == SonifyError::InvalidArgument,
{
    let durations = match select_durations(pixels.len(), candidates) {
        Ok(ds) => ds,
        Err(e) => return Err(e),
    };
    proof {
        if music_args_ok(pixels@, candidates@, sample_rate, freq1, freq2, fade_in, fade_out) && pixels@.len() > 0 {
            assert forall|i: int| 0 <= i < durations@.len() implies tone_args_ok(
                #[trigger] durations@[i],
                sample_rate,
                fade_in,
                fade_out,
            ) by {
                assert(candidates@.contains(durations@[i]));
                let k = choose|k: int| 0 <= k < candidates@.len() && candidates@[k] == durations@[i];
                assert(tone_args_ok(candidates@[k], sample_rate, fade_in, fade_out));
            }
        }
    }
    let r = compose_song(pixels, &durations, sample_rate, freq1, freq2, fade_in, fade_out);
    proof {
        if r is Ok {
            assert(song_of(pixels@, durations@, sample_rate, freq1, freq2, fade_in, fade_out)
                == r->Ok_0@);
        }
    }
    r
}

} // verus!

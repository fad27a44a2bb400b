use vstd::prelude::*;
use crate::error::SonifyError;

verus! {

/// A fraction `num / den` of a tone's length, used for the fades.
#[derive(Clone, Copy, Debug, PartialEq, Eq, Structural)]
pub struct Fraction {
    pub num: u32,
    pub den: u32,
}

impl Fraction {
    /// A fraction in `[0, 1]` with a non-zero denominator.
    pub open spec fn wf(&self) -> bool {
        &&& self.den > 0
        &&& self.num <= self.den
    }

    pub fn new(num: u32, den: u32) -> (r: Fraction)
        ensures
            r.num == num,
            r.den == den,
    {
        Fraction { num, den }
    }

    pub fn is_valid(&self) -> (r: bool)
        ensures
            r == self.wf(),
    {
        self.den > 0 && self.num <= self.den
    }
}

/// One sample of a tone, exactly: its value is
/// `gain_num / gain_den * sin(2 * pi * phase / sample_rate)`.
///
/// The phase is `frequency * t` reduced modulo the sample rate, which leaves
/// the sine unchanged.
#[derive(Clone, Copy, Debug, PartialEq, Eq, Structural)]
pub struct SamplePoint {
    pub gain_num: u64,
    pub gain_den: u64,
    pub phase: u32,
}

/// How many samples a tone of `duration_ms` takes: `floor(duration_ms / 1000 * sample_rate)`.
pub open spec fn sample_count(duration_ms: u32, sample_rate: u32) -> nat {
    (duration_ms as nat * sample_rate as nat) / 1000
}

/// `n * f` rounded to the nearest integer, halves rounded up.
pub open spec fn fade_length(n: nat, f: Fraction) -> nat {
    ((2 * n * f.num + f.den) / (2 * f.den)) as nat
}

/// The envelope at sample `t` of `n`, as `(numerator, denominator)`: a ramp
/// up over the first `fade_in` samples, a ramp down over the last `fade_out`,
/// and 1 in between. The ramp up wins where the two overlap.
pub open spec fn gain_at(t: nat, n: nat, fade_in: nat, fade_out: nat) -> (nat, nat) {
    if t < fade_in {
        (t, fade_in)
    } else if t + fade_out >= n {
        ((n - t) as nat, fade_out)
    } else {
        (1, 1)
    }
}

/// The sample at index `t` of a tone of `n` samples.
pub open spec fn point_at(
    freq: u32,
    sample_rate: u32,
    t: nat,
    n: nat,
    fade_in: nat,
    fade_out: nat,
) -> SamplePoint {
    SamplePoint {
        gain_num: gain_at(t, n, fade_in, fade_out).0 as u64,
        gain_den: gain_at(t, n, fade_in, fade_out).1 as u64,
        phase: ((freq as nat * t) % (sample_rate as nat)) as u32,
    }
}

/// The inputs on which a tone can be made.
pub open spec fn tone_args_ok(duration_ms: u32, sample_rate: u32, fade_in: Fraction, fade_out: Fraction) -> bool {
    &&& duration_ms > 0
    &&& sample_rate > 0
    &&& fade_in.wf()
    &&& fade_out.wf()
}

/// The samples of a tone.
pub open spec fn tone_of(
    freq: u32,
    duration_ms: u32,
    sample_rate: u32,
    fade_in: Fraction,
    fade_out: Fraction,
) -> Seq<SamplePoint> {
    let n = sample_count(duration_ms, sample_rate);
    Seq::new(
        n,
        |t: int|
            point_at(
                freq,
                sample_rate,
                t as nat,
                n,
                fade_length(n, fade_in),
                fade_length(n, fade_out),
            ),
    )
}

proof fn lemma_fade_length_bounded(n: nat, f: Fraction)
    requires
        f.wf(),
    ensures
        fade_length(n, f) <= n,
{
    let x = 2 * n * f.num + f.den;
    let d = 2 * f.den;
    assert(2 * n * f.num <= 2 * n * f.den) by (nonlinear_arith)
        requires
            f.num <= f.den,
    ;
    assert(x < (n + 1) * d) by (nonlinear_arith)
        requires
            x == 2 * n * f.num + f.den,
            d == 2 * f.den,
            2 * n * f.num <= 2 * n * f.den,
            f.den > 0,
    ;
    assert(x / d <= n) by (nonlinear_arith)
        requires
            x < (n + 1) * d,
            d > 0,
            x >= 0,
    ;
}

fn fade_samples(n: u64, f: Fraction) -> (r: u64)
    requires
        f.wf(),
    ensures
        r == fade_length(n as nat, f),
        r <= n,
{
    proof {
        lemma_fade_length_bounded(n as nat, f);
        assert(2 * (n as nat) * (f.num as nat) <= 2 * 0x1_0000_0000_0000_0000 * 0x1_0000_0000)
            by (nonlinear_arith)
            requires
                n <= u64::MAX,
                f.num <= u32::MAX,
        ;
    }
    let x: u128 = 2 * (n as u128) * (f.num as u128) + f.den as u128;
    let d: u128 = 2 * (f.den as u128);
    (x / d) as u64
}

fn sample_point(freq: u32, sample_rate: u32, t: u64, n: u64, fade_in: u64, fade_out: u64) -> (p: SamplePoint)
    requires
        sample_rate > 0,
        t < n,
        fade_in <= n,
        fade_out <= n,
    ensures
        p == point_at(freq, sample_rate, t as nat, n as nat, fade_in as nat, fade_out as nat),
{
    let (gain_num, gain_den): (u64, u64) = if t < fade_in {
        (t, fade_in)
    } else if t >= n - fade_out {
        (n - t, fade_out)
    } else {
        (1, 1)
    };
    proof {
        assert((freq as nat) * (t as nat) <= 0x1_0000_0000 * 0x1_0000_0000_0000_0000)
            by (nonlinear_arith)
            requires
                freq <= u32::MAX,
                t <= u64::MAX,
        ;
    }
    let phase: u128 = (freq as u128 * t as u128) % (sample_rate as u128);
    SamplePoint { gain_num, gain_den, phase: phase as u32 }
}

/// Synthesizes a tone: a sine of frequency `freq` lasting `duration_ms`
/// milliseconds at `sample_rate` samples per second, with a linear fade in
/// over `fade_in` of its length and a linear fade out over `fade_out`.
///
/// Fails with `InvalidArgument` on a zero duration or sample rate, or a
/// fade fraction outside `[0, 1]`.
pub fn generate_sine_wave(
    freq: u32,
    duration: u32,
    sample_rate: u32,
    fade_in: Fraction,
    fade_out: Fraction,
) -> (r: Result<Vec<SamplePoint>, SonifyError>)
    ensures
        r is Ok <==> tone_args_ok(duration, sample_rate, fade_in, fade_out),
        r matches Ok(v) ==> v@ == tone_of(freq, duration, sample_rate, fade_in, fade_out),
        r matches Err(e) ==> e == SonifyError::InvalidArgument,
{
    if duration == 0 || sample_rate == 0 || !fade_in.is_valid() || !fade_out.is_valid() {
        return Err(SonifyError::InvalidArgument);
    }
    proof {
        assert((duration as nat) * (sample_rate as nat) <= 0xffff_ffff * 0xffff_ffff)
            by (nonlinear_arith)
            requires
                duration <= u32::MAX,
                sample_rate <= u32::MAX,
        ;
    }
    let n: u64 = (duration as u64 * sample_rate as u64) / 1000;
    let fi = fade_samples(n, fade_in);
    let fo = fade_samples(n, fade_out);
    let ghost spec_tone = tone_of(freq, duration, sample_rate, fade_in, fade_out);
    let mut samples: Vec<SamplePoint> = Vec::new();
    let mut t: u64 = 0;
    while t < n
        invariant
            t <= n,
            n == sample_count(duration, sample_rate),
            fi == fade_length(n as nat, fade_in),
            fo == fade_length(n as nat, fade_out),
            fi <= n,
            fo <= n,
            sample_rate > 0,
            spec_tone == tone_of(freq, duration, sample_rate, fade_in, fade_out),
            spec_tone.len() == n,
            samples@ == spec_tone.take(t as int),
        decreases n - t,
    {
        let p = sample_point(freq, sample_rate, t, n, fi, fo);
        samples.push(p);
        t = t + 1;
        assert(samples@ =~= spec_tone.take(t as int));
    }
    assert(samples@ =~= spec_tone);
    Ok(samples)
}

/// A tone has exactly `floor(duration_ms / 1000 * sample_rate)` samples.
pub proof fn lemma_tone_length(
    freq: u32,
    duration_ms: u32,
    sample_rate: u32,
    fade_in: Fraction,
    fade_out: Fraction,
)
    ensures
        tone_of(freq, duration_ms, sample_rate, fade_in, fade_out).len() == (duration_ms as nat
            * sample_rate as nat) / 1000,
{
}

/// A tone of frequency 0 is silent: every sample has phase 0, so its sine
/// is 0 whatever the envelope.
pub proof fn lemma_zero_frequency_silent(
    duration_ms: u32,
    sample_rate: u32,
    fade_in: Fraction,
    fade_out: Fraction,
)
    requires
        sample_rate > 0,
    ensures
        forall|t: int|
            0 <= t < tone_of(0, duration_ms, sample_rate, fade_in, fade_out).len()
                ==> (#[trigger] tone_of(0, duration_ms, sample_rate, fade_in, fade_out)[t]).phase
                == 0,
{
    assert forall|t: int|
        0 <= t < tone_of(0, duration_ms, sample_rate, fade_in, fade_out).len()
            implies (#[trigger] tone_of(0, duration_ms, sample_rate, fade_in, fade_out)[t]).phase
            == 0 by {
        assert((0 as nat) * (t as nat) == 0);
        vstd::arithmetic::div_mod::lemma_small_mod(0, sample_rate as nat);
    }
}

} // verus!

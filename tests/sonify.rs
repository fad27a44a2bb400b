use pixel_music::{
    analyze_image, color_to_frequency, compose_song, format_from_lowercase, generate_music,
    generate_sine_wave, parse_image_format, save_wav, select_durations, Fraction, ImageKind,
    SamplePoint, SonifyError, OUTPUT_SAMPLE_RATE,
};

fn tenth() -> Fraction {
    Fraction::new(1, 10)
}

fn none() -> Fraction {
    Fraction::new(0, 1)
}

fn amplitude(p: &SamplePoint, sample_rate: u32) -> f32 {
    let gain = p.gain_num as f32 / p.gain_den as f32;
    gain * (2.0 * std::f32::consts::PI * p.phase as f32 / sample_rate as f32).sin()
}

fn to_pcm16(points: &[SamplePoint], sample_rate: u32) -> Vec<i16> {
    points
        .iter()
        .map(|p| (amplitude(p, sample_rate) * i16::MAX as f32).round() as i16)
        .collect()
}

fn solid_png(width: u32, height: u32, rgb: [u8; 3]) -> Vec<u8> {
    let img = image::RgbImage::from_pixel(width, height, image::Rgb(rgb));
    let mut bytes: Vec<u8> = Vec::new();
    image::DynamicImage::ImageRgb8(img)
        .write_to(&mut std::io::Cursor::new(&mut bytes), image::ImageOutputFormat::Png)
        .unwrap();
    bytes
}

#[test]
fn frequency_is_base_plus_sum_mod() {
    assert_eq!(color_to_frequency(10, 10, 10, 200, 50), Ok(230));
    assert_eq!(color_to_frequency(255, 255, 255, 100, 1000), Ok(865));
    assert_eq!(color_to_frequency(255, 255, 255, 100, 7), Ok(100 + 765 % 7));
}

#[test]
fn frequency_stays_in_band() {
    for &(r, g, b) in &[(0u8, 0u8, 0u8), (255, 255, 255), (1, 2, 3), (200, 100, 50)] {
        for &m in &[1u32, 2, 49, 50, 766, 1000] {
            let f = color_to_frequency(r, g, b, 300, m).unwrap();
            assert!(f >= 300 && f <= 300 + m - 1);
        }
    }
}

#[test]
fn frequency_zero_modulus_fails() {
    assert_eq!(color_to_frequency(1, 2, 3, 200, 0), Err(SonifyError::InvalidArgument));
}

#[test]
fn frequency_overflow_fails() {
    assert_eq!(color_to_frequency(1, 0, 0, u32::MAX, 10), Err(SonifyError::InvalidArgument));
    assert_eq!(color_to_frequency(0, 0, 0, u32::MAX, 10), Ok(u32::MAX));
}

#[test]
fn tone_length_is_floor_of_duration_times_rate() {
    assert_eq!(generate_sine_wave(440, 1000, 1000, tenth(), tenth()).unwrap().len(), 1000);
    assert_eq!(generate_sine_wave(440, 250, 44100, tenth(), tenth()).unwrap().len(), 11025);
    assert_eq!(generate_sine_wave(440, 1, 999, none(), none()).unwrap().len(), 0);
    assert_eq!(generate_sine_wave(440, 3, 333, none(), none()).unwrap().len(), 0);
    assert_eq!(generate_sine_wave(440, 7, 1001, none(), none()).unwrap().len(), 7);
}

#[test]
fn envelope_boundaries() {
    let tone = generate_sine_wave(440, 1000, 1000, tenth(), tenth()).unwrap();
    assert_eq!(tone.len(), 1000);
    assert_eq!((tone[0].gain_num, tone[0].gain_den), (0, 100));
    assert_eq!((tone[50].gain_num, tone[50].gain_den), (50, 100));
    assert_eq!((tone[100].gain_num, tone[100].gain_den), (1, 1));
    assert_eq!((tone[500].gain_num, tone[500].gain_den), (1, 1));
    assert_eq!((tone[899].gain_num, tone[899].gain_den), (1, 1));
    assert_eq!((tone[900].gain_num, tone[900].gain_den), (100, 100));
    assert_eq!((tone[999].gain_num, tone[999].gain_den), (1, 100));
    assert!((tone[999].gain_num as f64 / tone[999].gain_den as f64 - 0.01).abs() < 1e-9);
}

#[test]
fn envelope_fade_in_wins_on_overlap() {
    let all = Fraction::new(1, 1);
    let tone = generate_sine_wave(440, 10, 1000, all, all).unwrap();
    assert_eq!(tone.len(), 10);
    for (t, p) in tone.iter().enumerate() {
        assert_eq!((p.gain_num, p.gain_den), (t as u64, 10));
    }
}

#[test]
fn fade_rounding_halves_up() {
    // 10 samples, a fade of a quarter: 2.5 rounds to 3.
    let tone = generate_sine_wave(0, 10, 1000, Fraction::new(1, 4), none()).unwrap();
    assert_eq!((tone[2].gain_num, tone[2].gain_den), (2, 3));
    assert_eq!((tone[3].gain_num, tone[3].gain_den), (1, 1));
}

#[test]
fn phase_follows_frequency() {
    let tone = generate_sine_wave(230, 100, 1000, none(), none()).unwrap();
    for (t, p) in tone.iter().enumerate() {
        assert_eq!(p.phase as u64, (230 * t as u64) % 1000);
    }
    assert_eq!(tone[3].phase, 690);
    assert_eq!(tone[5].phase, 150);
}

#[test]
fn zero_frequency_is_silent() {
    let tone = generate_sine_wave(0, 500, 8000, tenth(), tenth()).unwrap();
    assert_eq!(tone.len(), 4000);
    for p in &tone {
        assert_eq!(p.phase, 0);
        assert_eq!(amplitude(p, 8000), 0.0);
    }
}

#[test]
fn tone_rejects_bad_arguments() {
    assert_eq!(generate_sine_wave(440, 0, 1000, none(), none()), Err(SonifyError::InvalidArgument));
    assert_eq!(generate_sine_wave(440, 10, 0, none(), none()), Err(SonifyError::InvalidArgument));
    assert_eq!(
        generate_sine_wave(440, 10, 1000, Fraction::new(2, 1), none()),
        Err(SonifyError::InvalidArgument)
    );
    assert_eq!(
        generate_sine_wave(440, 10, 1000, none(), Fraction::new(0, 0)),
        Err(SonifyError::InvalidArgument)
    );
}

#[test]
fn compose_empty_is_empty() {
    let song = compose_song(&vec![], &vec![], 44100, 200, 50, tenth(), tenth()).unwrap();
    assert!(song.is_empty());
    let song = generate_music(&vec![], 44100, 200, 0, &vec![], tenth(), tenth()).unwrap();
    assert!(song.is_empty());
}

#[test]
fn compose_single_pixel() {
    let pixels = vec![(10u8, 10u8, 10u8)];
    let song = compose_song(&pixels, &vec![100], 1000, 200, 50, none(), none()).unwrap();
    let tone = generate_sine_wave(230, 100, 1000, none(), none()).unwrap();
    assert_eq!(song, tone);

    let candidates = vec![100u32, 200];
    let song = generate_music(&pixels, 1000, 200, 50, &candidates, none(), none()).unwrap();
    assert!(song.len() == 100 || song.len() == 200);
    let d = if song.len() == 100 { 100 } else { 200 };
    assert_eq!(song, generate_sine_wave(230, d, 1000, none(), none()).unwrap());
}

#[test]
fn compose_keeps_pixel_order() {
    let pixels = vec![(1u8, 0u8, 0u8), (0u8, 2u8, 0u8)];
    let song = compose_song(&pixels, &vec![3, 2], 1000, 100, 50, none(), none()).unwrap();
    let mut expected = generate_sine_wave(101, 3, 1000, none(), none()).unwrap();
    expected.extend(generate_sine_wave(102, 2, 1000, none(), none()).unwrap());
    assert_eq!(song, expected);
}

#[test]
fn compose_rejects_bad_arguments() {
    let pixels = vec![(1u8, 2u8, 3u8)];
    assert_eq!(
        compose_song(&pixels, &vec![100], 1000, 200, 0, none(), none()),
        Err(SonifyError::InvalidArgument)
    );
    assert_eq!(
        compose_song(&pixels, &vec![100, 100], 1000, 200, 50, none(), none()),
        Err(SonifyError::InvalidArgument)
    );
    assert_eq!(
        compose_song(&pixels, &vec![0], 1000, 200, 50, none(), none()),
        Err(SonifyError::InvalidArgument)
    );
    assert_eq!(
        generate_music(&pixels, 0, 200, 50, &vec![100], none(), none()),
        Err(SonifyError::InvalidArgument)
    );
}

#[test]
fn empty_candidates_fail() {
    assert_eq!(select_durations(1, &vec![]), Err(SonifyError::InvalidArgument));
    assert_eq!(select_durations(0, &vec![]), Ok(vec![]));
    assert_eq!(
        generate_music(&vec![(1, 2, 3)], 1000, 200, 50, &vec![], none(), none()),
        Err(SonifyError::InvalidArgument)
    );
}

#[test]
fn durations_come_from_candidates() {
    let candidates = vec![100u32, 250, 400];
    let ds = select_durations(50, &candidates).unwrap();
    assert_eq!(ds.len(), 50);
    assert!(ds.iter().all(|d| candidates.contains(d)));
    assert_eq!(select_durations(5, &vec![7]).unwrap(), vec![7, 7, 7, 7, 7]);
}

#[test]
fn bmp_is_unsupported() {
    assert_eq!(parse_image_format("bmp"), Err(SonifyError::UnsupportedFormat));
    assert_eq!(parse_image_format(""), Err(SonifyError::UnsupportedFormat));
}

#[test]
fn known_formats_in_any_case() {
    assert_eq!(parse_image_format("png"), Ok(ImageKind::Png));
    assert_eq!(parse_image_format("PNG"), Ok(ImageKind::Png));
    assert_eq!(parse_image_format("Jpg"), Ok(ImageKind::Jpeg));
    assert_eq!(parse_image_format("jpeg"), Ok(ImageKind::Jpeg));
    assert_eq!(parse_image_format("TIF"), Ok(ImageKind::Tiff));
    assert_eq!(parse_image_format("tiff"), Ok(ImageKind::Tiff));
    assert_eq!(format_from_lowercase("PNG"), Err(SonifyError::UnsupportedFormat));
    assert_eq!(format_from_lowercase("png"), Ok(ImageKind::Png));
}

#[test]
fn undecodable_image_fails() {
    assert_eq!(
        analyze_image(&[1, 2, 3, 4], ImageKind::Png, 2, 2),
        Err(SonifyError::DecodeFailure)
    );
}

#[test]
fn image_pixels_row_major() {
    let pixels = analyze_image(&solid_png(4, 2, [10, 20, 30]), ImageKind::Png, 4, 2).unwrap();
    assert_eq!(pixels, vec![(10, 20, 30); 8]);
}

#[test]
fn wav_container_holds_samples() {
    let bytes = save_wav(&vec![0, 1, -1, i16::MAX, i16::MIN]).unwrap();
    let reader = hound::WavReader::new(std::io::Cursor::new(bytes)).unwrap();
    let spec = reader.spec();
    assert_eq!(spec.sample_rate, OUTPUT_SAMPLE_RATE);
    assert_eq!(spec.channels, 1);
    assert_eq!(spec.bits_per_sample, 16);
    let samples: Vec<i16> = reader.into_samples::<i16>().map(|s| s.unwrap()).collect();
    assert_eq!(samples, vec![0, 1, -1, i16::MAX, i16::MIN]);
}

#[test]
fn empty_song_is_bare_header() {
    let bytes = save_wav(&vec![]).unwrap();
    assert_eq!(bytes.len(), 44);
    let reader = hound::WavReader::new(std::io::Cursor::new(bytes)).unwrap();
    assert_eq!(reader.spec().sample_rate, 44100);
    assert_eq!(reader.spec().channels, 1);
    assert_eq!(reader.spec().bits_per_sample, 16);
    assert_eq!(reader.spec().sample_format, hound::SampleFormat::Int);
    assert_eq!(reader.len(), 0);
}

#[test]
fn wav_bytes_exact() {
    let bytes = save_wav(&vec![1, -2]).unwrap();
    let mut expected: Vec<u8> = Vec::new();
    expected.extend_from_slice(b"RIFF");
    expected.extend_from_slice(&40u32.to_le_bytes());
    expected.extend_from_slice(b"WAVEfmt ");
    expected.extend_from_slice(&16u32.to_le_bytes());
    expected.extend_from_slice(&1u16.to_le_bytes());
    expected.extend_from_slice(&1u16.to_le_bytes());
    expected.extend_from_slice(&44100u32.to_le_bytes());
    expected.extend_from_slice(&88200u32.to_le_bytes());
    expected.extend_from_slice(&2u16.to_le_bytes());
    expected.extend_from_slice(&16u16.to_le_bytes());
    expected.extend_from_slice(b"data");
    expected.extend_from_slice(&4u32.to_le_bytes());
    expected.extend_from_slice(&[0x01, 0x00, 0xfe, 0xff]);
    assert_eq!(bytes, expected);
}

#[test]
fn image_resized_to_exact_grid() {
    let pixels = analyze_image(&solid_png(2, 1, [7, 8, 9]), ImageKind::Png, 4, 3).unwrap();
    assert_eq!(pixels, vec![(7, 8, 9); 12]);
    let pixels = analyze_image(&solid_png(5, 5, [1, 1, 1]), ImageKind::Png, 1, 2).unwrap();
    assert_eq!(pixels.len(), 2);
}

#[test]
fn oversized_grid_is_rejected() {
    assert_eq!(
        analyze_image(&solid_png(1, 1, [0, 0, 0]), ImageKind::Png, u32::MAX, u32::MAX),
        Err(SonifyError::InvalidArgument)
    );
}

#[test]
fn round_trip_two_pixel_image() {
    let pixels = analyze_image(&solid_png(2, 1, [40, 50, 60]), ImageKind::Png, 2, 1).unwrap();
    assert_eq!(pixels.len(), 2);
    let candidates = vec![100u32, 300];
    let song = generate_music(&pixels, 8000, 200, 500, &candidates, tenth(), tenth()).unwrap();
    assert!([1600usize, 3200, 4000].contains(&song.len()));
    let bytes = save_wav(&to_pcm16(&song, 8000)).unwrap();
    let reader = hound::WavReader::new(std::io::Cursor::new(bytes)).unwrap();
    assert_eq!(reader.spec().sample_rate, OUTPUT_SAMPLE_RATE);
    assert_eq!(reader.spec().channels, 1);
    assert_eq!(reader.spec().bits_per_sample, 16);
    assert_eq!(reader.len() as usize, song.len());
}

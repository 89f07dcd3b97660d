use std::io::Cursor;

use verba::pipeline::{analyze_wav_capture, validate_audio_capture, AudioCaptureStats};

fn write_test_wav(samples: &[i16]) -> Vec<u8> {
    let spec = hound::WavSpec {
        channels: 1,
        sample_rate: 16_000,
        bits_per_sample: 16,
        sample_format: hound::SampleFormat::Int,
    };
    let mut bytes = Cursor::new(Vec::new());
    {
        let mut writer = hound::WavWriter::new(&mut bytes, spec).expect("wav should be created");
        for sample in samples {
            writer.write_sample(*sample).expect("sample should write");
        }
        writer.finalize().expect("wav should finalize");
    }
    bytes.into_inner()
}

fn read_test_wav(bytes: &[u8]) -> (Vec<i16>, u16, u32) {
    let mut reader = hound::WavReader::new(Cursor::new(bytes)).expect("wav should open");
    let spec = reader.spec();
    let samples = reader
        .samples::<i16>()
        .map(|s| s.expect("sample should read"))
        .collect();
    (samples, spec.channels, spec.sample_rate)
}

fn validate_file(bytes: &[u8]) -> Result<AudioCaptureStats, String> {
    let (samples, channels, rate) = read_test_wav(bytes);
    validate_audio_capture(&samples, channels, rate, "Desktop Dictation")
}

fn rms(stats: &AudioCaptureStats) -> f64 {
    ((stats.sum_squares as f64) / (stats.sample_count as f64)).sqrt() / 32767.0
}

#[test]
fn rejects_empty_capture() {
    let wav = write_test_wav(&[]);

    let error = validate_file(&wav).expect_err("empty audio should be rejected");

    assert!(error.contains("No microphone audio"));
}

#[test]
fn rejects_silent_capture() {
    let wav = write_test_wav(&vec![0; 16_000]);

    let error = validate_file(&wav).expect_err("silent audio should be rejected");

    assert!(error.contains("No speech detected"));
}

#[test]
fn accepts_audible_capture() {
    let wav = write_test_wav(&vec![1_500; 16_000]);

    let stats = validate_file(&wav).expect("audible audio should pass");

    assert_eq!(stats.duration_ms, 1_000);
    assert!(rms(&stats) > 0.04);
    let (samples, channels, rate) = read_test_wav(&wav);
    let peak = analyze_wav_capture(&samples, channels, rate).peak as f64 / 32767.0;
    assert!(peak > 0.04);
}

#[test]
fn short_capture_counts_as_no_audio() {
    let samples = vec![1_500i16; 3_999];
    let error = validate_audio_capture(&samples, 1, 16_000, "Verba").expect_err("too short");
    assert_eq!(
        error,
        "No microphone audio was captured. Check macOS Microphone permission for Verba, then try again."
    );
    let samples = vec![1_500i16; 4_000];
    assert_eq!(
        validate_audio_capture(&samples, 1, 16_000, "Verba")
            .expect("250 ms is enough")
            .duration_ms,
        250
    );
}

#[test]
fn capture_stats_are_exact() {
    let stats = analyze_wav_capture(&[3, -4, i16::MIN, 0], 2, 0);
    assert_eq!(stats.sample_count, 4);
    assert_eq!(stats.peak, 32767);
    assert_eq!(stats.sum_squares, 9 + 16 + 32767u128 * 32767);
    // Two frames, the rate of 0 counting as 1 Hz.
    assert_eq!(stats.duration_ms, 2_000);
}

#[test]
fn quiet_but_peaking_capture_is_kept() {
    let mut samples = vec![0i16; 16_000];
    samples[10] = 400;
    let stats = validate_audio_capture(&samples, 1, 16_000, "Verba").expect("peak is audible");
    assert_eq!(stats.peak, 400);
}

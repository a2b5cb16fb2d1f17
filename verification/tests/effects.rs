use audio_dsp::effects::{comb_bank, tap_line, COMB_COUNT, COMB_DELAYS_MS};
use audio_dsp::error::DspError;

#[test]
fn comb_delay_times_are_the_four_primes() {
    assert_eq!(COMB_COUNT, 4);
    assert_eq!(COMB_DELAYS_MS, [29, 37, 41, 43]);
}

#[test]
fn comb_bank_scales_the_delay_times_by_the_rate() {
    let lengths = |rate: u32| -> Vec<usize> {
        comb_bank(rate, 0.0f32)
            .ok()
            .unwrap()
            .iter()
            .map(|line| line.len())
            .collect()
    };
    assert_eq!(lengths(1000), vec![29, 37, 41, 43]);
    assert_eq!(lengths(44100), vec![1279, 1632, 1808, 1896]);
    assert_eq!(lengths(48000), vec![1392, 1776, 1968, 2064]);
    assert_eq!(lengths(10), vec![1, 1, 1, 1]);
}

#[test]
fn comb_bank_lines_start_silent() {
    let mut lines = comb_bank(1000, 0.0f32).ok().unwrap();
    for line in lines.iter_mut() {
        assert_eq!(line.cursor(), 0);
        for _ in 0..line.len() {
            assert_eq!(line.shift(1.0), 0.0);
        }
        assert_eq!(line.shift(1.0), 1.0);
    }
}

#[test]
fn comb_bank_rejects_a_zero_sample_rate() {
    assert_eq!(comb_bank(0, 0.0f32).err(), Some(DspError::InvalidParameter));
}

#[test]
fn comb_bank_accepts_the_highest_sample_rate() {
    let lines = comb_bank(4_000_000, 0u8).ok().unwrap();
    let lengths: Vec<usize> = lines.iter().map(|line| line.len()).collect();
    assert_eq!(lengths, vec![116_000, 148_000, 164_000, 172_000]);
}

#[test]
fn tap_line_is_as_long_as_the_delay() {
    let mut line = tap_line(1000, 3, 0.0f32).unwrap().unwrap();
    assert_eq!(line.len(), 3);
    assert_eq!(line.cursor(), 0);
    let heard: Vec<f32> = [1.0f32, 2.0, 3.0, 4.0, 5.0]
        .iter()
        .map(|&sample| line.shift(sample))
        .collect();
    assert_eq!(heard, vec![0.0, 0.0, 0.0, 1.0, 2.0]);
    assert_eq!(tap_line(44100, 250, 0.0f32).unwrap().unwrap().len(), 11025);
    assert_eq!(tap_line(1500, 1, 0.0f32).unwrap().unwrap().len(), 2);
    assert_eq!(tap_line(500, 1, 0.0f32).unwrap().unwrap().len(), 1);
}

#[test]
fn tap_line_of_no_delay_is_a_pass_through() {
    assert!(tap_line(44100, 0, 0.0f32).unwrap().is_none());
    assert!(tap_line(499, 1, 0.0f32).unwrap().is_none());
    assert!(tap_line(1, 499, 0.0f32).unwrap().is_none());
}

#[test]
fn tap_line_rejects_a_zero_sample_rate() {
    assert_eq!(tap_line(0, 10, 0.0f32).err(), Some(DspError::InvalidParameter));
    assert_eq!(tap_line(0, 0, 0.0f32).err(), Some(DspError::InvalidParameter));
}

#[test]
fn feedback_through_a_tap_line_echoes_and_decays() {
    let mut line = tap_line(1000, 2, 0.0f32).unwrap().unwrap();
    let mut samples = [1.0f32, 0.0, 0.0, 0.0, 0.0, 0.0, 0.0];
    for sample in samples.iter_mut() {
        let delayed = line.read();
        line.write(*sample + delayed * 0.5);
        line.advance();
        *sample = delayed;
    }
    assert_eq!(samples, [0.0, 0.0, 1.0, 0.0, 0.5, 0.0, 0.25]);
}

#[test]
fn comb_lines_have_four_different_lengths() {
    for rate in [500u32, 501, 999, 1000, 8000, 22050, 44100, 48000, 96000, 192000] {
        let lines = comb_bank(rate, 0.0f32).ok().unwrap();
        for pair in lines.windows(2) {
            assert!(pair[0].len() < pair[1].len());
        }
    }
    let slow: Vec<usize> = comb_bank(100, 0.0f32)
        .ok()
        .unwrap()
        .iter()
        .map(|line| line.len())
        .collect();
    assert_eq!(slow, vec![3, 4, 4, 4]);
}

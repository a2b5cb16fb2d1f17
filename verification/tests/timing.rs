use audio_dsp::timing::delay_samples;

#[test]
fn span_is_rate_times_duration_over_a_thousand() {
    assert_eq!(delay_samples(44100, 1000), 44100);
    assert_eq!(delay_samples(44100, 10), 441);
    assert_eq!(delay_samples(48000, 250), 12000);
    assert_eq!(delay_samples(8000, 1), 8);
}

#[test]
fn span_rounds_to_the_nearest_sample() {
    assert_eq!(delay_samples(44100, 29), 1279);
    assert_eq!(delay_samples(44100, 37), 1632);
    assert_eq!(delay_samples(44100, 41), 1808);
    assert_eq!(delay_samples(44100, 43), 1896);
    assert_eq!(delay_samples(22050, 3), 66);
    assert_eq!(delay_samples(1400, 1), 1);
    assert_eq!(delay_samples(1600, 1), 2);
}

#[test]
fn half_a_sample_rounds_up() {
    assert_eq!(delay_samples(500, 1), 1);
    assert_eq!(delay_samples(1500, 1), 2);
    assert_eq!(delay_samples(100, 5), 1);
    assert_eq!(delay_samples(499, 1), 0);
}

#[test]
fn span_may_be_zero() {
    assert_eq!(delay_samples(0, 0), 0);
    assert_eq!(delay_samples(0, 1000), 0);
    assert_eq!(delay_samples(44100, 0), 0);
    assert_eq!(delay_samples(1, 1), 0);
}

#[test]
fn span_of_the_largest_arguments_does_not_overflow() {
    assert_eq!(delay_samples(u32::MAX, u32::MAX), 18_446_744_065_119_617);
    assert_eq!(delay_samples(u32::MAX, 1000), 4_294_967_295);
}

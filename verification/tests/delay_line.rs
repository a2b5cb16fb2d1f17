use audio_dsp::delay::DelayLine;
use audio_dsp::error::DspError;

fn shift_all(line: &mut DelayLine<i32>, input: &[i32]) -> Vec<i32> {
    input.iter().map(|&sample| line.shift(sample)).collect()
}

#[test]
fn reads_trail_writes_by_the_capacity() {
    let mut line = DelayLine::new(4, 0.0f32);
    let mut heard = Vec::new();
    for value in [1.0f32, 2.0, 3.0, 4.0, 5.0] {
        heard.push(line.read());
        line.write(value);
        line.advance();
    }
    assert_eq!(heard, vec![0.0, 0.0, 0.0, 0.0, 1.0]);
}

#[test]
fn shift_is_read_write_advance() {
    let mut stepwise = DelayLine::new(3, 0i32);
    let mut shifted = DelayLine::new(3, 0i32);
    for value in 1..=10 {
        let heard = stepwise.read();
        stepwise.write(value);
        stepwise.advance();
        assert_eq!(shifted.shift(value), heard);
        assert_eq!(shifted.cursor(), stepwise.cursor());
    }
    assert_eq!(shift_all(&mut shifted, &[0, 0, 0]), vec![8, 9, 10]);
}

#[test]
fn new_line_is_silent() {
    let mut line = DelayLine::new(5, -7i32);
    assert_eq!(line.len(), 5);
    assert_eq!(line.cursor(), 0);
    assert_eq!(shift_all(&mut line, &[1, 2, 3, 4, 5]), vec![-7; 5]);
}

#[test]
fn zero_capacity_is_raised_to_one() {
    let mut line = DelayLine::new(0, 0i32);
    assert_eq!(line.len(), 1);
    assert_eq!(shift_all(&mut line, &[4, 5, 6]), vec![0, 4, 5]);
    assert_eq!(line.cursor(), 0);
}

#[test]
fn cursor_advances_by_one_and_wraps() {
    let mut line = DelayLine::new(4, 0u8);
    let mut seen = Vec::new();
    for _ in 0..9 {
        seen.push(line.cursor());
        line.advance();
    }
    assert_eq!(seen, vec![0, 1, 2, 3, 0, 1, 2, 3, 0]);
}

#[test]
fn advance_without_write_keeps_the_samples() {
    let mut line = DelayLine::new(3, 0i32);
    shift_all(&mut line, &[1, 2, 3]);
    line.advance();
    assert_eq!(line.read(), 2);
    assert_eq!(line.tap(1), 1);
    line.advance();
    line.advance();
    assert_eq!(line.read(), 1);
}

#[test]
fn write_replaces_the_sample_under_the_cursor_only() {
    let mut line = DelayLine::new(3, 0i32);
    shift_all(&mut line, &[1, 2, 3]);
    line.write(9);
    assert_eq!(line.read(), 9);
    assert_eq!(line.cursor(), 0);
    assert_eq!(line.tap(2), 2);
    assert_eq!(line.tap(1), 3);
}

#[test]
fn tap_reaches_back_from_the_newest_sample() {
    let mut line = DelayLine::new(4, 0i32);
    shift_all(&mut line, &[1, 2, 3, 4, 5, 6]);
    assert_eq!(line.tap(1), 6);
    assert_eq!(line.tap(2), 5);
    assert_eq!(line.tap(3), 4);
    assert_eq!(line.tap(4), 3);
}

#[test]
fn tap_of_zero_delay_reads_under_the_cursor() {
    let mut line = DelayLine::new(4, 0i32);
    assert_eq!(line.tap(0), 0);
    shift_all(&mut line, &[1, 2, 3, 4, 5, 6]);
    assert_eq!(line.cursor(), 2);
    assert_eq!(line.tap(0), line.read());
    assert_eq!(line.tap(0), 3);
    let mut single = DelayLine::new(1, 8i32);
    assert_eq!(single.tap(0), 8);
    assert_eq!(single.tap(1), 8);
    single.shift(9);
    assert_eq!(single.tap(0), 9);
}

#[test]
fn delay_block_delays_by_the_capacity() {
    let mut line = DelayLine::new(2, 0.0f32);
    let mut block = vec![0.25f32, 0.5, 0.75, 1.0, -1.0];
    line.delay_block(&mut block);
    assert_eq!(block, vec![0.0, 0.0, 0.25, 0.5, 0.75]);
    assert_eq!(line.read(), 1.0);
    assert_eq!(line.tap(1), -1.0);
    assert_eq!(line.cursor(), 1);
}

#[test]
fn delay_block_shorter_than_the_line() {
    let mut line = DelayLine::new(4, 0i32);
    shift_all(&mut line, &[1, 2, 3, 4]);
    let mut block = vec![10, 20];
    line.delay_block(&mut block);
    assert_eq!(block, vec![1, 2]);
    assert_eq!(shift_all(&mut line, &[0, 0, 0, 0]), vec![3, 4, 10, 20]);
}

#[test]
fn delay_block_of_nothing_changes_nothing() {
    let mut line = DelayLine::new(3, 0i32);
    shift_all(&mut line, &[1, 2]);
    let mut block: Vec<i32> = Vec::new();
    line.delay_block(&mut block);
    assert!(block.is_empty());
    assert_eq!(line.cursor(), 2);
    assert_eq!(shift_all(&mut line, &[0, 0, 0]), vec![0, 1, 2]);
}

#[test]
fn blocks_continue_where_the_last_one_ended() {
    let input: Vec<i32> = (1..=11).collect();
    let mut whole_line = DelayLine::new(3, 0i32);
    let mut whole = input.clone();
    whole_line.delay_block(&mut whole);

    let mut split_line = DelayLine::new(3, 0i32);
    let mut first = input[..4].to_vec();
    let mut second = input[4..].to_vec();
    split_line.delay_block(&mut first);
    split_line.delay_block(&mut second);
    first.extend(second);

    assert_eq!(first, whole);
    assert_eq!(first, vec![0, 0, 0, 1, 2, 3, 4, 5, 6, 7, 8]);
    assert_eq!(split_line.cursor(), whole_line.cursor());
    assert_eq!(
        shift_all(&mut split_line, &[0, 0, 0]),
        shift_all(&mut whole_line, &[0, 0, 0])
    );
}

#[test]
fn delay_block_matches_shifting_one_by_one() {
    let input = [3, 1, 4, 1, 5, 9, 2, 6];
    let mut by_block = DelayLine::new(5, 0i32);
    let mut by_sample = DelayLine::new(5, 0i32);
    let mut block = input.to_vec();
    by_block.delay_block(&mut block);
    assert_eq!(block, shift_all(&mut by_sample, &input));
    assert_eq!(by_block.cursor(), by_sample.cursor());
}

#[test]
fn with_duration_rounds_to_the_nearest_sample() {
    assert_eq!(DelayLine::with_duration(44100, 29, 0.0f32).unwrap().len(), 1279);
    assert_eq!(DelayLine::with_duration(44100, 10, 0.0f32).unwrap().len(), 441);
    assert_eq!(DelayLine::with_duration(48000, 1000, 0.0f32).unwrap().len(), 48000);
    assert_eq!(DelayLine::with_duration(1500, 1, 0.0f32).unwrap().len(), 2);
    assert_eq!(DelayLine::with_duration(1499, 1, 0.0f32).unwrap().len(), 1);
}

#[test]
fn with_duration_never_makes_an_empty_line() {
    assert_eq!(DelayLine::with_duration(44100, 0, 0.0f32).unwrap().len(), 1);
    assert_eq!(DelayLine::with_duration(499, 1, 0.0f32).unwrap().len(), 1);
    assert_eq!(DelayLine::with_duration(1, 499, 0.0f32).unwrap().len(), 1);
    let mut line = DelayLine::with_duration(8000, 0, 0i32).unwrap();
    assert_eq!(shift_all(&mut line, &[1, 2, 3]), vec![0, 1, 2]);
}

#[test]
fn with_duration_starts_silent_at_the_first_slot() {
    let mut line = DelayLine::with_duration(1000, 3, 0.5f32).unwrap();
    assert_eq!(line.len(), 3);
    assert_eq!(line.cursor(), 0);
    assert_eq!(line.shift(1.0), 0.5);
    assert_eq!(line.shift(2.0), 0.5);
    assert_eq!(line.shift(3.0), 0.5);
    assert_eq!(line.shift(4.0), 1.0);
}

#[test]
fn with_duration_rejects_a_zero_sample_rate() {
    assert_eq!(
        DelayLine::with_duration(0, 10, 0.0f32).err(),
        Some(DspError::InvalidParameter)
    );
    assert_eq!(
        DelayLine::with_duration(0, 0, 0.0f32).err(),
        Some(DspError::InvalidParameter)
    );
}

#[test]
fn tap_hears_what_went_in() {
    let input = [10, 20, 30, 40, 50, 60, 70];
    let mut line = DelayLine::new(5, 0i32);
    let mut block = input.to_vec();
    line.delay_block(&mut block);
    for delay in 1..=5usize {
        assert_eq!(line.tap(delay), input[input.len() - delay]);
    }
}

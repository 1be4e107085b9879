use crazy_synth::delay::DelayLine;
use crazy_synth::delay::SILENCE;

#[test]
fn new_line_is_silent() {
    let mut line = DelayLine::new(4);
    assert_eq!(line.len(), 4);
    for _ in 0..4 {
        assert_eq!(line.tick(9), SILENCE);
    }
}

#[test]
fn tick_returns_the_oldest_and_appends() {
    let mut line = DelayLine::new(2);
    assert_eq!(line.tick(10), 0);
    assert_eq!(line.oldest(), 0);
    assert_eq!(line.tick(11), 0);
    assert_eq!(line.oldest(), 10);
    assert_eq!(line.tick(12), 10);
    assert_eq!(line.tick(13), 11);
    assert_eq!(line.len(), 2);
}

#[test]
fn pure_delay_of_the_line_length() {
    for n in 1usize..=64 {
        let mut line = DelayLine::new(n);
        let first = 0xdead_beef_u32;
        let mut last = line.tick(first);
        for k in 0..n {
            last = line.tick(k as u32);
        }
        assert_eq!(last, first, "length {}", n);
    }
}

#[test]
fn pure_delay_carries_sample_words() {
    let mut line = DelayLine::new(3);
    let fed: Vec<u32> = [0.25f32, -0.5, 1.0, 0.75, -1.0, 0.125]
        .iter()
        .map(|x| x.to_bits())
        .collect();
    let mut out: Vec<f32> = Vec::new();
    for w in &fed {
        out.push(f32::from_bits(line.tick(*w)));
    }
    assert_eq!(out, vec![0.0, 0.0, 0.0, 0.25, -0.5, 1.0]);
}

#[test]
fn resize_discards_what_was_held() {
    let mut line = DelayLine::new(3);
    line.tick(1);
    line.tick(2);
    line.tick(3);
    line.resize(5);
    assert_eq!(line.len(), 5);
    for k in 0..5u32 {
        assert_eq!(line.tick(100 + k), SILENCE);
    }
    assert_eq!(line.tick(0), 100);
}

#[test]
fn resize_to_the_same_length_still_silences() {
    let mut line = DelayLine::new(2);
    line.tick(7);
    line.tick(8);
    line.resize(2);
    assert_eq!(line.tick(1), SILENCE);
    assert_eq!(line.tick(1), SILENCE);
}

#[test]
fn resize_to_a_shorter_length_silences() {
    let mut line = DelayLine::new(4);
    for k in 1..=4u32 {
        line.tick(k);
    }
    line.resize(2);
    assert_eq!(line.len(), 2);
    assert_eq!(line.tick(9), SILENCE);
    assert_eq!(line.tick(9), SILENCE);
    assert_eq!(line.tick(9), 9);
}

#[test]
fn resize_to_zero_leaves_one_sample() {
    let mut line = DelayLine::new(10);
    line.resize(0);
    assert_eq!(line.len(), 1);
    assert_eq!(line.tick(42), SILENCE);
    assert_eq!(line.tick(43), 42);
}

#[test]
fn an_empty_line_can_be_made_and_resized() {
    let mut line = DelayLine::new(0);
    assert_eq!(line.len(), 0);
    line.resize(1);
    assert_eq!(line.tick(5), SILENCE);
}

use crazy_synth::noise::NoiseGenerator;

#[test]
fn same_seed_same_words() {
    let mut a = NoiseGenerator::new(12345);
    let mut b = NoiseGenerator::new(12345);
    for _ in 0..1000 {
        assert_eq!(a.step(), b.step());
    }
}

#[test]
fn words_from_seed_zero() {
    let mut g = NoiseGenerator::new(0);
    assert_eq!(g.step(), 1739749167);
    assert_eq!(g.step(), 1640446612);
    assert_eq!(g.step(), 2645431204);
}

#[test]
fn words_from_seed_one() {
    let mut g = NoiseGenerator::new(1);
    assert_eq!(g.step(), 150776505);
    assert_eq!(g.step(), 4079339141);
    assert_eq!(g.step(), 2035832146);
}

#[test]
fn step_leaves_the_word_as_state() {
    let mut g = NoiseGenerator::new(12345);
    let w = g.step();
    assert_eq!(w, 3826328255);
    assert_eq!(g.seed, w);
    assert_ne!(w, 12345);
    let mut h = NoiseGenerator::new(w);
    assert_eq!(g.step(), h.step());
}

#[test]
fn words_agree_with_the_sample_in_the_unit_range() {
    let mut g = NoiseGenerator::new(777);
    let mut seed = 777u32;
    for _ in 0..100 {
        let x = minirng::hash::next_f32(&mut seed);
        let w = g.step();
        assert_eq!(w, seed);
        assert_eq!(w as f32 / 4294967295.0, x);
        assert!((0.0..=1.0).contains(&x));
    }
}

#[test]
fn different_seeds_part_ways() {
    let mut a = NoiseGenerator::new(1);
    let mut b = NoiseGenerator::new(2);
    assert_ne!(a.step(), b.step());
}

#[test]
fn entropy_seeded_generator_steps() {
    let mut g = NoiseGenerator::from_entropy();
    let before = g.seed;
    let mut h = NoiseGenerator::new(before);
    assert_eq!(g.step(), h.step());
}

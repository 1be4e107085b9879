use crazy_synth::channel::ParamChannel;
use crazy_synth::params::InstrumentParams;
use crazy_synth::CHANNEL_SLOTS;

fn snapshot(k: u32) -> InstrumentParams {
    InstrumentParams {
        a: (k as f32 / 1000.0).to_bits(),
        b: k,
        c: k.wrapping_mul(3),
        d: 0,
        e: (-1.0f32).to_bits(),
        f: 1.0f32.to_bits(),
    }
}

#[test]
fn drain_of_an_empty_queue_is_none() {
    let mut ch = ParamChannel::new(CHANNEL_SLOTS).unwrap();
    assert_eq!(ch.drain_latest(), None);
    assert_eq!(ch.drain_latest(), None);
}

#[test]
fn drain_returns_the_only_snapshot() {
    let mut ch = ParamChannel::new(4).unwrap();
    assert!(ch.push(snapshot(7)));
    assert_eq!(ch.drain_latest(), Some(snapshot(7)));
    assert_eq!(ch.drain_latest(), None);
}

#[test]
fn last_write_wins() {
    let mut ch = ParamChannel::new(CHANNEL_SLOTS).unwrap();
    assert!(ch.push(snapshot(1)));
    assert!(ch.push(snapshot(2)));
    assert_eq!(ch.drain_latest(), Some(snapshot(2)));
}

#[test]
fn overflow_is_dropped_and_the_queue_recovers() {
    let mut ch = ParamChannel::new(CHANNEL_SLOTS).unwrap();
    for k in 0..250u32 {
        let accepted = ch.push(snapshot(k));
        assert_eq!(accepted, k < 200, "push {}", k);
    }
    assert_eq!(ch.drain_latest(), Some(snapshot(199)));
    assert_eq!(ch.drain_latest(), None);
    for k in 300..500u32 {
        assert!(ch.push(snapshot(k)));
    }
    assert!(!ch.push(snapshot(500)));
    assert_eq!(ch.drain_latest(), Some(snapshot(499)));
}

#[test]
fn queue_of_one_slot_keeps_the_first_of_two() {
    let mut ch = ParamChannel::new(1).unwrap();
    assert!(ch.push(snapshot(1)));
    assert!(!ch.push(snapshot(2)));
    assert_eq!(ch.drain_latest(), Some(snapshot(1)));
    assert!(ch.push(snapshot(3)));
    assert_eq!(ch.drain_latest(), Some(snapshot(3)));
}

#[test]
fn many_rounds_wrap_the_ring() {
    let mut ch = ParamChannel::new(3).unwrap();
    for round in 0..50u32 {
        assert!(ch.push(snapshot(round * 2)));
        assert!(ch.push(snapshot(round * 2 + 1)));
        assert_eq!(ch.drain_latest(), Some(snapshot(round * 2 + 1)));
    }
}

#[test]
fn words_round_trip() {
    let p = snapshot(5);
    let w = p.to_words();
    assert_eq!(w, (p.a, p.b, p.c, p.d, p.e, p.f));
    assert_eq!(InstrumentParams::from_words(w), p);
    assert_eq!(InstrumentParams::from_words((1, 2, 3, 4, 5, 6)).d, 4);
}

#[test]
fn there_is_no_queue_of_no_slots() {
    assert!(ParamChannel::new(0).is_none());
    assert!(ParamChannel::new(1).is_some());
}

#[test]
fn there_is_no_queue_without_a_ring_buffer() {
    assert!(ParamChannel::over(None).is_none());
}

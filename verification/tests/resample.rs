use natively_audio::resample::{resample, Taps, WholeStepResampler};

fn pair(from: u32, to: u32) -> Taps {
    Taps { from, to }
}

fn froms(pairs: Vec<Taps>) -> Vec<u32> {
    pairs.iter().map(|taps| taps.from).collect()
}

fn every(step: usize, start: usize, len: usize) -> (Vec<usize>, usize) {
    let mut at = start;
    let mut indices = Vec::new();
    while at < len {
        indices.push(at);
        at += step;
    }
    (indices, at - len)
}

#[test]
fn an_empty_block_gives_nothing() {
    assert_eq!(resample(&[], &[0]), Vec::new());
    assert_eq!(resample(&[1, 2], &[]), Vec::new());
}

#[test]
fn pairs_are_neighbours_and_stay_on_the_last_sample() {
    let pairs = resample(&[10, 20, 30], &[0, 0, 1, 2, 2]);
    let expected =
        vec![pair(10, 20), pair(10, 20), pair(20, 30), pair(30, 30), pair(30, 30)];
    assert_eq!(pairs, expected);
    assert_eq!(resample(&[60], &[0]), vec![pair(60, 60)]);
}

#[test]
fn places_beyond_the_block_end_the_output() {
    assert_eq!(resample(&[10, 20], &[1, 2, 0]), vec![pair(20, 20)]);
    assert_eq!(resample(&[10], &[usize::MAX]), Vec::new());
}

#[test]
fn streaming_in_blocks_is_seamless() {
    assert_eq!(froms(resample(&[10, 20], &[0, 1])), vec![10, 20]);
    assert_eq!(froms(resample(&[30, 40], &[0, 1])), vec![30, 40]);
    let stream: Vec<u32> = (0..23).collect();
    for step in 1..5 {
        for cut in 0..=stream.len() {
            let (uncut, uncut_carried) = every(step, 0, stream.len());
            let (here, carried) = every(step, 0, cut);
            let (there, there_carried) = every(step, carried, stream.len() - cut);
            let mut joined = froms(resample(&stream[..cut], &here));
            joined.extend(froms(resample(&stream[cut..], &there)));
            assert_eq!(joined, froms(resample(&stream, &uncut)));
            assert_eq!(there_carried, uncut_carried);
        }
    }
}

#[test]
fn a_cut_moves_only_the_tap_after_it() {
    let uncut = resample(&[1, 2, 3, 4], &[0, 1, 2, 3]);
    let mut cut = resample(&[1, 2], &[0, 1]);
    cut.extend(resample(&[3, 4], &[0, 1]));
    assert_eq!(uncut[1], pair(2, 3));
    assert_eq!(cut[1], pair(2, 2));
    assert_eq!(cut[0], uncut[0]);
    assert_eq!(cut[2..], uncut[2..]);
}

#[test]
fn whole_steps_are_multiples_of_the_output_rate() {
    assert!(WholeStepResampler::new(0).is_none());
    assert!(WholeStepResampler::new(44100).is_none());
    assert!(WholeStepResampler::new(8000).is_none());
    assert!(WholeStepResampler::new(16000).is_some());
    let mut third = WholeStepResampler::new(48000).unwrap();
    let stream = [1, 2, 3, 4, 5, 6, 7];
    assert_eq!(third.resample(&stream), vec![pair(1, 2), pair(4, 5), pair(7, 7)]);
    assert_eq!(froms(third.resample(&[8, 9, 10])), vec![10]);
}

#[test]
fn whole_step_streaming_is_seamless() {
    let stream: Vec<u32> = (0..30).collect();
    for rate in [16000, 32000, 48000] {
        for cut in 0..=stream.len() {
            let mut uncut = WholeStepResampler::new(rate).unwrap();
            let mut pieces = WholeStepResampler::new(rate).unwrap();
            let mut joined = froms(pieces.resample(&stream[..cut]));
            joined.extend(froms(pieces.resample(&stream[cut..])));
            assert_eq!(joined, froms(uncut.resample(&stream)));
        }
    }
}

use natively_audio::dsp::{
    DspAction, DspEvent, DspLoop, DspPhase, FrameAction, SILENT_FRAMES_BEFORE_FALLBACK,
};
use natively_audio::ring::sample_ring;

fn judged(action: FrameAction, speech_ended: bool) -> DspEvent {
    DspEvent::Processed { action, speech_ended }
}

#[test]
fn stop_leaves_the_loop_and_the_ring() {
    let (mut producer, mut consumer) = sample_ring(16).unwrap();
    assert!(producer.push(1));
    let mut dsp = DspLoop::for_system_audio(true);
    assert_eq!(dsp.poll(true, &mut consumer), DspAction::Exit);
    assert_eq!(dsp.phase(), DspPhase::Stopped);
    assert!(!dsp.accepts(&DspEvent::StopRequested));
    assert!(!dsp.accepts(&DspEvent::Drained(vec![])));
    assert!(!dsp.accepts(&DspEvent::Done));
    let mut left = Vec::new();
    consumer.drain_into(&mut left, None);
    assert_eq!(left, vec![1]);
}

#[test]
fn an_idle_turn_sleeps() {
    let (_producer, mut consumer) = sample_ring(16).unwrap();
    let mut dsp = DspLoop::for_system_audio(true);
    assert_eq!(dsp.poll(false, &mut consumer), DspAction::Sleep);
    assert_eq!(dsp.phase(), DspPhase::Sleeping);
    assert_eq!(dsp.step(DspEvent::Done), DspAction::Poll);
    assert_eq!(dsp.phase(), DspPhase::Polling);
}

#[test]
fn system_batches_are_limited() {
    let (mut producer, mut consumer) = sample_ring(1000).unwrap();
    for sample in 0..1000 {
        assert!(producer.push(sample));
    }
    let mut dsp = DspLoop::for_system_audio(true);
    let batch: Vec<u32> = (0..480).collect();
    assert_eq!(dsp.poll(false, &mut consumer), DspAction::Convert(batch));
    assert_eq!(dsp.step(DspEvent::Converted(vec![])), DspAction::Sleep);
    assert_eq!(dsp.step(DspEvent::Done), DspAction::Poll);
    let batch: Vec<u32> = (480..960).collect();
    assert_eq!(dsp.poll(false, &mut consumer), DspAction::Convert(batch));
}

#[test]
fn microphone_batches_are_not() {
    let (mut producer, mut consumer) = sample_ring(1000).unwrap();
    for sample in 0..1000 {
        assert!(producer.push(sample));
    }
    let mut dsp = DspLoop::for_microphone(48000, false);
    let batch: Vec<u32> = (0..1000).collect();
    assert_eq!(dsp.poll(false, &mut consumer), DspAction::Convert(batch));
}

#[test]
fn frames_are_cut_in_order_and_the_rest_is_kept() {
    let mut dsp = DspLoop::for_system_audio(true);
    assert_eq!(dsp.chunk_size(), 320);
    let samples: Vec<i16> = (0..700).collect();
    assert_eq!(dsp.step(DspEvent::Drained(vec![1])), DspAction::Convert(vec![1]));
    let first = dsp.step(DspEvent::Converted(samples.clone()));
    assert_eq!(first, DspAction::Process(samples[0..320].to_vec()));
    let second = dsp.step(judged(FrameAction::Suppress, false));
    assert_eq!(second, DspAction::Process(samples[320..640].to_vec()));
    assert_eq!(dsp.step(judged(FrameAction::Suppress, false)), DspAction::Sleep);
    assert_eq!(dsp.step(DspEvent::Done), DspAction::Poll);
    assert_eq!(dsp.step(DspEvent::Drained(vec![2])), DspAction::Convert(vec![2]));
    let more: Vec<i16> = (700..960).collect();
    let third = dsp.step(DspEvent::Converted(more));
    assert_eq!(third, DspAction::Process((640..960).collect()));
    assert_eq!(dsp.step(judged(FrameAction::Suppress, false)), DspAction::Sleep);
}

#[test]
fn verdicts_are_delivered() {
    let mut dsp = DspLoop::for_microphone(1000, false);
    dsp.step(DspEvent::Drained(vec![0]));
    let action = dsp.step(DspEvent::Converted(vec![3; 60]));
    assert_eq!(action, DspAction::Process(vec![3; 20]));
    let action = dsp.step(judged(FrameAction::Send(vec![1, -1]), false));
    assert_eq!(action, DspAction::Deliver(vec![1, 0, 255, 255]));
    assert_eq!(dsp.step(DspEvent::Done), DspAction::Process(vec![3; 20]));
    let action = dsp.step(judged(FrameAction::SendSilence, false));
    assert_eq!(action, DspAction::Deliver(vec![0; 40]));
    assert_eq!(dsp.step(DspEvent::Done), DspAction::Process(vec![3; 20]));
    assert_eq!(dsp.step(judged(FrameAction::Suppress, false)), DspAction::Sleep);
}

#[test]
fn the_end_of_speech_is_reported_after_the_payload() {
    let mut dsp = DspLoop::for_microphone(1000, true);
    dsp.step(DspEvent::Drained(vec![0]));
    dsp.step(DspEvent::Converted(vec![3; 40]));
    let action = dsp.step(judged(FrameAction::SendSilence, true));
    assert_eq!(action, DspAction::Deliver(vec![0; 40]));
    assert_eq!(dsp.phase(), DspPhase::Delivering { speech_ended: true });
    assert_eq!(dsp.step(DspEvent::Done), DspAction::NotifySpeechEnded);
    assert_eq!(dsp.step(DspEvent::Done), DspAction::Process(vec![3; 20]));
    let action = dsp.step(judged(FrameAction::Suppress, true));
    assert_eq!(action, DspAction::NotifySpeechEnded);
    assert_eq!(dsp.step(DspEvent::Done), DspAction::Sleep);
}

#[test]
fn nobody_is_told_where_nobody_listens() {
    let mut dsp = DspLoop::for_microphone(1000, false);
    dsp.step(DspEvent::Drained(vec![0]));
    dsp.step(DspEvent::Converted(vec![3; 20]));
    assert_eq!(dsp.step(judged(FrameAction::Suppress, true)), DspAction::Sleep);
    let mut dsp = DspLoop::for_system_audio(true);
    dsp.step(DspEvent::Drained(vec![0]));
    dsp.step(DspEvent::Converted(vec![3; 320]));
    let action = dsp.step(judged(FrameAction::SendSilence, true));
    assert_eq!(action, DspAction::Deliver(vec![0; 640]));
    assert_eq!(dsp.step(DspEvent::Done), DspAction::Sleep);
}

#[test]
fn below_fifty_hertz_frames_are_empty() {
    let mut dsp = DspLoop::for_microphone(49, false);
    assert_eq!(dsp.step(DspEvent::Drained(vec![])), DspAction::Process(vec![]));
    assert_eq!(dsp.step(judged(FrameAction::Suppress, false)), DspAction::Process(vec![]));
}

#[test]
fn only_answers_are_accepted() {
    let mut dsp = DspLoop::for_system_audio(true);
    assert!(dsp.accepts(&DspEvent::StopRequested));
    assert!(dsp.accepts(&DspEvent::Drained(vec![])));
    assert!(!dsp.accepts(&DspEvent::Converted(vec![])));
    assert!(!dsp.accepts(&judged(FrameAction::Suppress, false)));
    assert!(!dsp.accepts(&DspEvent::Done));
    dsp.step(DspEvent::Drained(vec![1]));
    assert!(dsp.accepts(&DspEvent::Converted(vec![])));
    assert!(!dsp.accepts(&DspEvent::StopRequested));
}

#[test]
fn turns_end_with_the_settings_unchanged() {
    let mut dsp = DspLoop::for_microphone(1000, true);
    dsp.step(DspEvent::Drained(vec![0]));
    let mut action = dsp.step(DspEvent::Converted(vec![1; 105]));
    let mut steps = 0;
    let mut frames = 0;
    while action != DspAction::Poll {
        let event = match action {
            DspAction::Process(frame) => {
                assert_eq!(frame.len(), 20);
                frames += 1;
                judged(FrameAction::Send(frame), true)
            }
            _ => DspEvent::Done,
        };
        action = dsp.step(event);
        steps += 1;
    }
    assert_eq!(frames, 5);
    assert_eq!(steps, 5 * 3 + 1);
    assert!(steps <= 4 * 85 + 4);
    assert_eq!(dsp.chunk_size(), 20);
}

#[test]
fn a_silent_microphone_frame_is_twenty_milliseconds() {
    let mut dsp = DspLoop::for_microphone(44100, false);
    assert_eq!(dsp.chunk_size(), 882);
    dsp.step(DspEvent::Drained(vec![0]));
    assert_eq!(dsp.step(DspEvent::Converted(vec![1; 882])), DspAction::Process(vec![1; 882]));
    let action = dsp.step(judged(FrameAction::SendSilence, false));
    assert_eq!(action, DspAction::Deliver(vec![0; 1764]));
}

#[test]
fn frames_are_the_popped_samples_in_order() {
    let (mut producer, mut consumer) = sample_ring(100).unwrap();
    let mut dsp = DspLoop::for_microphone(1000, false);
    let mut frames: Vec<i16> = Vec::new();
    for round in 0..5 {
        for sample in 0..17 {
            assert!(producer.push(round * 17 + sample));
        }
        let mut action = dsp.poll(false, &mut consumer);
        while action != DspAction::Poll {
            let event = match action {
                DspAction::Convert(batch) => {
                    DspEvent::Converted(batch.iter().map(|sample| *sample as i16).collect())
                }
                DspAction::Process(frame) => {
                    frames.extend(frame);
                    judged(FrameAction::Suppress, false)
                }
                _ => DspEvent::Done,
            };
            action = dsp.step(event);
        }
    }
    assert_eq!(frames, (0..80).collect::<Vec<i16>>());
}

/// Feeds frames of the given values until the loop sleeps or leaves.
fn feed(dsp: &mut DspLoop, values: &[i16], verdict: fn() -> FrameAction) -> (usize, DspAction) {
    let mut samples = Vec::new();
    for value in values {
        samples.extend(vec![*value; dsp.chunk_size()]);
    }
    dsp.step(DspEvent::Drained(vec![0]));
    let mut action = dsp.step(DspEvent::Converted(samples));
    let mut judged_frames = 0;
    loop {
        let event = match action {
            DspAction::Process(_) => {
                judged_frames += 1;
                judged(verdict(), false)
            }
            DspAction::Deliver(_) => DspEvent::Done,
            other => return (judged_frames, other),
        };
        action = dsp.step(event);
    }
}

#[test]
fn a_silent_input_is_given_up() {
    let enough = SILENT_FRAMES_BEFORE_FALLBACK;
    let mut dsp = DspLoop::for_system_audio(true);
    let outcome = feed(&mut dsp, &vec![0; enough - 1], || FrameAction::Suppress);
    assert_eq!(outcome, (enough - 1, DspAction::Sleep));
    assert_eq!(dsp.step(DspEvent::Done), DspAction::Poll);
    let outcome = feed(&mut dsp, &[0, 0, 0], || FrameAction::SendSilence);
    assert_eq!(outcome, (1, DspAction::FallBack));
    assert_eq!(dsp.phase(), DspPhase::GoneSilent);
    assert!(!dsp.accepts(&DspEvent::Done));
    assert!(!dsp.accepts(&DspEvent::StopRequested));
}

#[test]
fn a_sound_begins_the_count_anew() {
    let enough = SILENT_FRAMES_BEFORE_FALLBACK;
    let mut values = vec![0; enough - 1];
    values.push(1);
    values.extend(vec![0; enough - 1]);
    let mut dsp = DspLoop::for_system_audio(true);
    let outcome = feed(&mut dsp, &values, || FrameAction::Suppress);
    assert_eq!(outcome, (2 * enough - 1, DspAction::Sleep));
}

#[test]
fn the_last_input_is_never_given_up() {
    let long = 2 * SILENT_FRAMES_BEFORE_FALLBACK;
    let mut dsp = DspLoop::for_system_audio(false);
    let outcome = feed(&mut dsp, &vec![0; long], || FrameAction::Suppress);
    assert_eq!(outcome, (long, DspAction::Sleep));
    let mut dsp = DspLoop::for_microphone(1000, false);
    let outcome = feed(&mut dsp, &vec![0; long], || FrameAction::Suppress);
    assert_eq!(outcome, (long, DspAction::Sleep));
}

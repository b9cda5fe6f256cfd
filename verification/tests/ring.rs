use natively_audio::ring::{sample_ring, SampleConsumer, SampleProducer};

fn filled(count: u32) -> (SampleProducer, SampleConsumer) {
    let (mut producer, consumer) = sample_ring(1024).unwrap();
    for sample in 0..count {
        assert!(producer.push(sample * 10));
    }
    (producer, consumer)
}

#[test]
fn impossible_rings_are_refused() {
    assert!(sample_ring(0).is_none());
    assert!(sample_ring(usize::MAX).is_none());
    assert!(sample_ring(isize::MAX as usize / 4 + 1).is_none());
    assert!(sample_ring(1).is_some());
}

#[test]
fn a_full_ring_refuses_samples() {
    let (mut producer, mut consumer) = sample_ring(2).unwrap();
    assert!(producer.push(1));
    assert!(producer.push(2));
    assert!(!producer.push(3));
    let mut batch = Vec::new();
    consumer.drain_into(&mut batch, Some(1));
    assert_eq!(batch, vec![1]);
    assert!(producer.push(4));
    assert!(!producer.push(5));
    consumer.drain_into(&mut batch, None);
    assert_eq!(batch, vec![1, 2, 4]);
}

#[test]
fn an_empty_ring_gives_nothing() {
    let (_producer, mut consumer) = sample_ring(8).unwrap();
    let mut batch = vec![7];
    consumer.drain_into(&mut batch, None);
    consumer.drain_into(&mut batch, Some(480));
    assert_eq!(batch, vec![7]);
}

#[test]
fn draining_keeps_order() {
    let (mut producer, mut consumer) = filled(3);
    let mut batch = Vec::new();
    consumer.drain_into(&mut batch, None);
    assert_eq!(batch, vec![0, 10, 20]);
    assert!(producer.push(99));
    consumer.drain_into(&mut batch, None);
    assert_eq!(batch, vec![0, 10, 20, 99]);
}

#[test]
fn draining_stops_at_its_limit() {
    let (_producer, mut consumer) = filled(500);
    let mut first = Vec::new();
    consumer.drain_into(&mut first, Some(480));
    assert_eq!(first.len(), 480);
    assert_eq!(first[479], 4790);
    let mut rest = Vec::new();
    consumer.drain_into(&mut rest, Some(480));
    assert_eq!(rest.len(), 20);
    assert_eq!(rest[0], 4800);
}

#[test]
fn the_limit_is_looked_at_after_a_sample() {
    let (_producer, mut consumer) = filled(5);
    let mut batch = vec![1, 2, 3];
    consumer.drain_into(&mut batch, Some(2));
    assert_eq!(batch, vec![1, 2, 3, 0]);
    let mut other = Vec::new();
    consumer.drain_into(&mut other, Some(0));
    assert_eq!(other, vec![10]);
}

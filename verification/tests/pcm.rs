use natively_audio::dsp::{chunk_size_for, payload_for, FrameAction};
use natively_audio::pcm::{i16_slice_to_le_bytes, is_all_silence, silent_frame_bytes};

fn decode(bytes: &[u8]) -> Vec<i16> {
    bytes.chunks(2).map(|pair| i16::from_le_bytes([pair[0], pair[1]])).collect()
}

#[test]
fn bytes_are_little_endian() {
    assert_eq!(
        i16_slice_to_le_bytes(&[0, 1, -1, 0x1234, i16::MAX, i16::MIN, -2]),
        vec![0, 0, 1, 0, 0xff, 0xff, 0x34, 0x12, 0xff, 0x7f, 0x00, 0x80, 0xfe, 0xff]
    );
    assert_eq!(i16_slice_to_le_bytes(&[]), Vec::<u8>::new());
}

#[test]
fn every_sample_matches_the_standard_encoding() {
    for sample in i16::MIN..=i16::MAX {
        assert_eq!(i16_slice_to_le_bytes(&[sample]), sample.to_le_bytes().to_vec());
    }
}

#[test]
fn bytes_decode_to_the_samples() {
    let samples = vec![5, -5, 300, -300, 32767, -32768];
    assert_eq!(decode(&i16_slice_to_le_bytes(&samples)), samples);
}

#[test]
fn pieces_encode_to_pieces() {
    let mut joined = i16_slice_to_le_bytes(&[1, -2]);
    joined.extend(i16_slice_to_le_bytes(&[3]));
    assert_eq!(joined, i16_slice_to_le_bytes(&[1, -2, 3]));
    assert_ne!(i16_slice_to_le_bytes(&[1, 2]), i16_slice_to_le_bytes(&[2, 1]));
}

#[test]
fn silence_is_zero_samples_only() {
    assert!(is_all_silence(&[]));
    assert!(is_all_silence(&[0, 0, 0]));
    assert!(!is_all_silence(&[0, 0, 1]));
    assert!(!is_all_silence(&[-1, 0]));
}

#[test]
fn silent_samples_have_zero_bytes() {
    assert_eq!(silent_frame_bytes(3), vec![0u8; 6]);
    assert_eq!(silent_frame_bytes(3), i16_slice_to_le_bytes(&[0, 0, 0]));
    assert_eq!(silent_frame_bytes(0), Vec::<u8>::new());
    assert!(i16_slice_to_le_bytes(&[0, 256]).iter().any(|byte| *byte != 0));
}

#[test]
fn chunks_are_twenty_milliseconds() {
    assert_eq!(chunk_size_for(48000), 960);
    assert_eq!(chunk_size_for(44100), 882);
    assert_eq!(chunk_size_for(16000), 320);
    assert_eq!(chunk_size_for(22050), 441);
    assert_eq!(chunk_size_for(999), 19);
    assert_eq!(chunk_size_for(50), 1);
    assert_eq!(chunk_size_for(49), 0);
    assert_eq!(chunk_size_for(0), 0);
    assert_eq!(chunk_size_for(u32::MAX), 85_899_345);
}

#[test]
fn payload_follows_the_verdict() {
    assert_eq!(payload_for(4, FrameAction::Send(vec![1, -1])), Some(vec![1, 0, 255, 255]));
    assert_eq!(payload_for(4, FrameAction::SendSilence), Some(vec![0; 8]));
    assert_eq!(payload_for(4, FrameAction::Suppress), None);
    assert_eq!(decode(&payload_for(2, FrameAction::SendSilence).unwrap()), vec![0, 0]);
}

//! The container muxer against the real webm writer.

use soundcloud_embedder::audio::repacketize_audio;
use soundcloud_embedder::audio::AudioPacket;
use soundcloud_embedder::audio::TIME_UNITS_PER_SAMPLE;
use soundcloud_embedder::mux::Muxer;
use soundcloud_embedder::video::append_video_frames;
use soundcloud_embedder::video::EncodedFrame;
use soundcloud_embedder::MediaError;

fn packet(data: Vec<u8>, samples: Option<u64>) -> AudioPacket {
    AudioPacket { data, samples }
}

#[test]
fn mux_audio_then_video_then_finalize() {
    let mut m = Muxer::open(4, 4, 48000, 2).expect("muxer should open");
    assert!(m.append_audio(&vec![1, 2, 3], 0).is_ok());
    assert!(m.append_audio(&vec![4, 5, 6], 2083 * 960).is_ok());
    assert!(m.append_video(&vec![9u8; 32], 0, true).is_ok());
    let bytes = m.finalize(1000).expect("finalize should succeed");
    assert!(bytes.len() > 0);
    // a webm file opens with the EBML magic
    assert_eq!(&bytes[0..4], &[0x1a, 0x45, 0xdf, 0xa3]);
}

#[test]
fn payload_bytes_reach_the_container_verbatim() {
    let audio_payload: Vec<u8> = (0..48u8).map(|i| i.wrapping_mul(37).wrapping_add(11)).collect();
    let video_payload: Vec<u8> = (0..48u8).map(|i| i.wrapping_mul(53).wrapping_add(7)).collect();
    let mut m = Muxer::open(4, 4, 48000, 2).expect("muxer should open");
    assert!(m.append_audio(&audio_payload, 0).is_ok());
    assert!(m.append_video(&video_payload, 0, true).is_ok());
    let bytes = m.finalize(10).expect("finalize should succeed");
    let contains = |needle: &[u8]| bytes.windows(needle.len()).any(|w| w == needle);
    assert!(contains(&audio_payload));
    assert!(contains(&video_payload));
}

#[test]
fn append_after_finalize_is_rejected() {
    let mut m = Muxer::open(2, 2, 48000, 2).expect("muxer should open");
    assert!(m.append_audio(&vec![1, 2], 0).is_ok());
    // the writer may reject finalizing a track without frames; finalization
    // is terminal either way
    let _ = m.finalize(10);
    assert_eq!(m.append_audio(&vec![3, 4], 5), Err(MediaError::Mux));
    assert_eq!(m.append_video(&vec![5, 6], 0, true), Err(MediaError::Mux));
}

#[test]
fn second_finalize_is_rejected() {
    let mut m = Muxer::open(2, 2, 48000, 2).expect("muxer should open");
    assert!(m.append_audio(&vec![1, 2], 0).is_ok());
    assert!(m.append_video(&vec![9u8; 16], 0, true).is_ok());
    m.finalize(10).expect("finalize should succeed");
    assert!(m.finalize(10).is_err());
}

#[test]
fn repacketizer_skips_unparseable_and_sums_durations() {
    let mut m = Muxer::open(2, 2, 48000, 2).expect("muxer should open");
    let packets = vec![
        packet(vec![1u8; 8], Some(960)),
        packet(vec![2u8; 8], None),
        packet(vec![3u8; 8], Some(480)),
    ];
    let clock = repacketize_audio(&mut m, &packets).expect("repacketize should succeed");
    assert_eq!(clock, (960 + 480) * TIME_UNITS_PER_SAMPLE);
    assert!(m.append_video(&vec![9u8; 16], 0, true).is_ok());
    let bytes = m.finalize(clock / 100000).expect("finalize should succeed");
    assert!(bytes.len() > 0);
}

#[test]
fn repacketizer_of_no_packets_leaves_clock_zero() {
    let mut m = Muxer::open(2, 2, 48000, 2).expect("muxer should open");
    let clock = repacketize_audio(&mut m, &Vec::new()).expect("repacketize should succeed");
    assert_eq!(clock, 0);
}

#[test]
fn video_frames_append_in_order() {
    let mut m = Muxer::open(4, 4, 48000, 2).expect("muxer should open");
    let frames = vec![
        EncodedFrame { data: vec![1u8; 16], keyframe: true, pts_ms: 0 },
        EncodedFrame { data: vec![2u8; 16], keyframe: false, pts_ms: 33 },
    ];
    assert!(append_video_frames(&mut m, &frames).is_ok());
    assert!(m.finalize(100).is_ok());
}

#[test]
fn negative_timestamp_is_rejected() {
    let mut m = Muxer::open(4, 4, 48000, 2).expect("muxer should open");
    let frames = vec![EncodedFrame { data: vec![1u8; 16], keyframe: true, pts_ms: -1 }];
    assert_eq!(append_video_frames(&mut m, &frames), Err(MediaError::Mux));
}

//! The encoder configuration and the drive state machine.

use soundcloud_embedder::pixels::planar_from_rgb;
use soundcloud_embedder::pixels::Raster;
use soundcloud_embedder::video::encoder_settings;
use soundcloud_embedder::video::EncodedFrame;
use soundcloud_embedder::video::EncoderRun;
use soundcloud_embedder::MediaError;

fn solid_frame(w: u32, h: u32) -> soundcloud_embedder::pixels::PlanarFrame {
    let data = vec![127u8; (w * h * 3) as usize];
    planar_from_rgb(&Raster { width: w, height: h, data })
}

#[test]
fn settings_take_dimensions_and_fixed_timebase() {
    let s = encoder_settings(&solid_frame(4, 4)).expect("even dimensions configure");
    assert_eq!(s.width, 4);
    assert_eq!(s.height, 4);
    assert_eq!(s.timebase_num, 1);
    assert_eq!(s.timebase_den, 1000);
    assert_eq!(s.bitrate, 128);
}

#[test]
fn odd_dimensions_cannot_be_configured() {
    assert_eq!(encoder_settings(&solid_frame(5, 4)).err(), Some(MediaError::Encode));
    assert_eq!(encoder_settings(&solid_frame(4, 3)).err(), Some(MediaError::Encode));
}

#[test]
fn drive_collects_frames_in_emission_order() {
    let mut run = EncoderRun::new();
    run.record_emitted(vec![1u8; 8], true, 0);
    run.record_emitted(vec![2u8; 8], false, 33);
    run.begin_finish();
    let done = run.record_finish_poll(Some(EncodedFrame {
        data: vec![3u8; 8],
        keyframe: false,
        pts_ms: 66,
    }));
    assert!(!done);
    let done = run.record_finish_poll(None);
    assert!(done);
    let frames = run.into_frames();
    assert_eq!(frames.len(), 3);
    assert!(frames[0].keyframe);
    assert_eq!(frames[0].pts_ms, 0);
    assert_eq!(frames[0].data, vec![1u8; 8]);
    assert_eq!(frames[1].pts_ms, 33);
    assert_eq!(frames[2].pts_ms, 66);
}

#[test]
fn drive_with_no_buffered_frames_ends_on_first_poll() {
    let mut run = EncoderRun::new();
    run.record_emitted(vec![1u8; 8], true, 0);
    run.begin_finish();
    assert!(run.record_finish_poll(None));
    let frames = run.into_frames();
    assert_eq!(frames.len(), 1);
}

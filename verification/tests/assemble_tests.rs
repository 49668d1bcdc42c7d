//! The assembly spine: cover-art decoding and the muxing of both tracks,
//! against the real image decoder and container writer.

use soundcloud_embedder::assemble::decode_cover_art;
use soundcloud_embedder::assemble::mux_tracks;
use soundcloud_embedder::audio::AudioPacket;
use soundcloud_embedder::video::EncodedFrame;
use soundcloud_embedder::MediaError;

fn jpeg_bytes(w: u32, h: u32) -> Vec<u8> {
    let img = image::RgbImage::from_fn(w, h, |x, y| {
        image::Rgb([(x * 40) as u8, (y * 40) as u8, 128])
    });
    let mut out = std::io::Cursor::new(Vec::new());
    image::DynamicImage::ImageRgb8(img)
        .write_to(&mut out, image::ImageFormat::Jpeg)
        .expect("encoding a small image succeeds");
    out.into_inner()
}

#[test]
fn cover_art_decodes_to_a_planar_frame() {
    let frame = decode_cover_art(&jpeg_bytes(4, 4)).expect("a JPEG decodes");
    assert_eq!(frame.width, 4);
    assert_eq!(frame.height, 4);
    assert_eq!(frame.luma.len(), 16);
    assert_eq!(frame.chroma_u.len(), 4);
    assert_eq!(frame.chroma_v.len(), 4);
}

#[test]
fn undecodable_art_is_an_image_error() {
    assert!(matches!(decode_cover_art(&vec![1, 2, 3, 4]), Err(MediaError::Image)));
}

#[test]
fn tracks_mux_into_a_container() {
    let frames = vec![EncodedFrame { data: vec![7u8; 64], keyframe: true, pts_ms: 0 }];
    let packets = vec![
        AudioPacket { data: vec![1u8; 16], samples: Some(960) },
        AudioPacket { data: vec![2u8; 16], samples: None },
        AudioPacket { data: vec![3u8; 16], samples: Some(960) },
    ];
    let (bytes, _) = mux_tracks(4, 4, &frames, &packets, 48000).expect("muxing succeeds");
    assert_eq!(&bytes[0..4], &[0x1a, 0x45, 0xdf, 0xa3]);
}

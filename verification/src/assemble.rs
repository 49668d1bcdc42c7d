//! The assembly's compute spine: decoding the cover art into its planar
//! frame, and muxing the already-encoded video frames and probed audio
//! packets into one finalized container.  The network fetches, the codec
//! and the sample-count probe run outside the library and hand plain
//! values in.

use vstd::prelude::*;

use crate::MediaError;
use crate::audio::AudioPacket;
use crate::audio::repacketize_audio;
use crate::audio::spec_audio_appends;
use crate::audio::spec_clock_after;
use crate::mux::MuxEvent;
use crate::mux::Muxer;
use crate::mux::lemma_events_shape;
use crate::pixels::PlanarFrame;
use crate::pixels::chroma_u_plane_of;
use crate::pixels::chroma_v_plane_of;
use crate::pixels::decode_jpeg_rgb;
use crate::pixels::jpeg_rgb;
use crate::pixels::luma_plane_of;
use crate::pixels::planar_from_rgb;
use crate::video::EncodedFrame;
use crate::video::append_video_frames;
use crate::video::scaled_video_append;

verus! {

/// How many clock time units make one unit of the container's declared
/// duration.
pub const DURATION_DIVISOR: u64 = 100000;

/// The audio track's channel count.
pub const AUDIO_CHANNELS: i32 = 2;

/// Decodes the fetched cover art and converts it to its planar 4:2:0
/// form.  Fails with `Image` exactly when the bytes do not decode.
pub fn decode_cover_art(bytes: &Vec<u8>) -> (r: Result<PlanarFrame, MediaError>)
    ensures
        r is Ok <==> jpeg_rgb(bytes@) is Some,
        r is Err ==> r == Err::<PlanarFrame, _>(MediaError::Image),
        r is Ok ==> {
            let m = jpeg_rgb(bytes@)->Some_0;
            &&& r->Ok_0.wf()
            &&& r->Ok_0.width == m.0
            &&& r->Ok_0.height == m.1
            &&& r->Ok_0.luma@ == luma_plane_of(m.0 as int, m.1 as int, m.2)
            &&& r->Ok_0.chroma_u@ == chroma_u_plane_of(m.0 as int, m.1 as int, m.2)
            &&& r->Ok_0.chroma_v@ == chroma_v_plane_of(m.0 as int, m.1 as int, m.2)
        },
{
    let raster = match decode_jpeg_rgb(bytes) {
        Some(img) => img,
        None => {
            return Err(MediaError::Image);
        },
    };
    Ok(planar_from_rgb(&raster))
}

/// The call sequence one whole assembly makes the container writer
/// observe: both tracks created up front, audio first; the colour
/// metadata set once, before any frame; every parseable audio packet's
/// bytes appended verbatim at the repacketizer's running clock, in input
/// order, never flagged as a keyframe; every encoded video frame's bytes
/// appended verbatim after all the audio, in production order, scaled to
/// nanoseconds with its own keyframe flag; then exactly one finalize call
/// carrying the final clock in the container's duration unit.
pub open spec fn spec_assembly_events(
    frames: Seq<EncodedFrame>,
    packets: Seq<AudioPacket>,
) -> Seq<MuxEvent> {
    let samples = packets.map_values(|p: AudioPacket| p.samples);
    seq![
        MuxEvent::AudioTrackAdded,
        MuxEvent::VideoTrackAdded,
        MuxEvent::ColorSet {
            bit_depth: 8u8,
            subsampling_horizontal: true,
            subsampling_vertical: true,
            full_range: false,
        },
    ] + spec_audio_appends(packets).map_values(
        |e: (Seq<u8>, int)| MuxEvent::AudioFrame {
            data: e.0,
            timestamp_ns: e.1 as u64,
            keyframe: false,
        },
    ) + frames.map_values(
        |f: EncodedFrame| MuxEvent::VideoFrame {
            data: scaled_video_append(f).0,
            timestamp_ns: scaled_video_append(f).1,
            keyframe: scaled_video_append(f).2,
        },
    ) + seq![
        MuxEvent::Finalized {
            duration: ((spec_clock_after(samples, samples.len() as int) as u64)
                / DURATION_DIVISOR) as u64,
        },
    ]
}

/// Muxes one assembly: opens the container for the given video
/// dimensions, copies every probed audio packet in at the running clock,
/// appends the encoded video frames after all the audio, and finalizes
/// once with the final clock converted to the container's duration unit.
/// On success the returned log is exactly the writer's observed call
/// sequence, as `spec_assembly_events` states it.  The first failing
/// stage aborts the whole assembly with its error.
pub fn mux_tracks(
    width: u32,
    height: u32,
    frames: &Vec<EncodedFrame>,
    packets: &Vec<AudioPacket>,
    sample_rate: i32,
) -> (r: Result<(Vec<u8>, Ghost<Seq<MuxEvent>>), MediaError>)
    ensures
        r is Ok ==> {
            let s = packets@.map_values(|p: AudioPacket| p.samples);
            &&& spec_clock_after(s, s.len() as int) <= u64::MAX
            &&& r->Ok_0.1@ == spec_assembly_events(frames@, packets@)
        },
        r is Err ==> (r->Err_0 == MediaError::Mux || r->Err_0 == MediaError::Encode || r->Err_0
            == MediaError::Stream),
{
    let ghost s = packets@.map_values(|p: AudioPacket| p.samples);
    let mut muxer = match Muxer::open(width, height, sample_rate, AUDIO_CHANNELS) {
        Ok(m) => m,
        Err(e) => {
            return Err(e);
        },
    };
    let clock = match repacketize_audio(&mut muxer, packets) {
        Ok(c) => c,
        Err(e) => {
            return Err(e);
        },
    };
    match append_video_frames(&mut muxer, frames) {
        Ok(()) => {},
        Err(e) => {
            return Err(e);
        },
    }
    let ghost pre = muxer;
    let duration = clock / DURATION_DIVISOR;
    match muxer.finalize(duration) {
        Ok(bytes) => {
            proof {
                lemma_events_shape(pre);
                assert(pre.audio_frames() =~= spec_audio_appends(packets@).map_values(
                    |e: (Seq<u8>, int)| (e.0, e.1 as u64),
                ));
                assert(pre.video_frames() =~= frames@.map_values(
                    |f: EncodedFrame| scaled_video_append(f),
                ));
                assert(pre.audio_frames().map_values(
                    |e: (Seq<u8>, u64)| MuxEvent::AudioFrame {
                        data: e.0,
                        timestamp_ns: e.1,
                        keyframe: false,
                    },
                ) =~= spec_audio_appends(packets@).map_values(
                    |e: (Seq<u8>, int)| MuxEvent::AudioFrame {
                        data: e.0,
                        timestamp_ns: e.1 as u64,
                        keyframe: false,
                    },
                ));
                assert(pre.video_frames().map_values(
                    |tv: (Seq<u8>, u64, bool)| MuxEvent::VideoFrame {
                        data: tv.0,
                        timestamp_ns: tv.1,
                        keyframe: tv.2,
                    },
                ) =~= frames@.map_values(
                    |f: EncodedFrame| MuxEvent::VideoFrame {
                        data: scaled_video_append(f).0,
                        timestamp_ns: scaled_video_append(f).1,
                        keyframe: scaled_video_append(f).2,
                    },
                ));
                assert(duration == ((spec_clock_after(s, s.len() as int) as u64)
                    / DURATION_DIVISOR) as u64);
                assert(pre.events().push(MuxEvent::Finalized { duration })
                    =~= spec_assembly_events(frames@, packets@));
            }
            Ok((bytes, Ghost(pre.events().push(MuxEvent::Finalized { duration }))))
        },
        Err(e) => Err(e),
    }
}

} // verus!

//! The still-video encoder's surroundings: the fixed configuration, the
//! encoded-frame record, the drive state machine (feed, drain, finish,
//! drain again), and the ordered append of the frames to the container.
//! The codec itself runs outside the library; everything it emits passes
//! through here in emission order.

use vstd::prelude::*;

use crate::MediaError;
use crate::mux::Muxer;
use crate::pixels::PlanarFrame;

verus! {

/// One encoded video frame: its payload, whether it is independently
/// decodable, and its presentation timestamp in the encoder's timebase.
pub struct EncodedFrame {
    pub data: Vec<u8>,
    pub keyframe: bool,
    pub pts_ms: i64,
}

/// The still-image encoder's configuration: dimensions from the frame, a
/// fixed 1/1000 timebase, and a fixed bitrate.
pub struct EncoderSettings {
    pub width: u32,
    pub height: u32,
    pub timebase_num: i32,
    pub timebase_den: i32,
    pub bitrate: u32,
}

/// The fixed bitrate the still-image encoder is configured for.
pub const VIDEO_BITRATE: u32 = 128;

/// Builds the encoder configuration for a planar frame: its dimensions,
/// the 1/1000 timebase, and the fixed bitrate.  The codec requires both
/// dimensions to be even; anything else cannot be configured.
pub fn encoder_settings(frame: &PlanarFrame) -> (r: Result<EncoderSettings, MediaError>)
    ensures
        r is Ok <==> frame.width % 2 == 0 && frame.height % 2 == 0,
        r is Ok ==> {
            &&& r->Ok_0.width == frame.width
            &&& r->Ok_0.height == frame.height
            &&& r->Ok_0.timebase_num == 1i32
            &&& r->Ok_0.timebase_den == 1000i32
            &&& r->Ok_0.bitrate == VIDEO_BITRATE
        },
        r is Err ==> r == Err::<EncoderSettings, _>(MediaError::Encode),
{
    if frame.width % 2 != 0 || frame.height % 2 != 0 {
        return Err(MediaError::Encode);
    }
    Ok(
        EncoderSettings {
            width: frame.width,
            height: frame.height,
            timebase_num: 1,
            timebase_den: 1000,
            bitrate: VIDEO_BITRATE,
        },
    )
}

/// Where the encoder drive stands: the frame has been fed and immediate
/// output is being drained; the finish call has been made and buffered
/// output is being drained; or the encoder has reported no more frames.
#[derive(Clone, Copy, Debug, PartialEq, Eq, Structural)]
pub enum DriveState {
    Draining,
    Finishing,
    Finished,
}

/// Collects what the encoder emits, in emission order, across the feed,
/// finish and re-poll steps.  The driver loop runs outside the library
/// and reports each emitted frame and each finish poll here.
pub struct EncoderRun {
    state: DriveState,
    frames: Vec<EncodedFrame>,
}

impl EncoderRun {
    /// Where the drive stands.
    pub closed spec fn state(&self) -> DriveState {
        self.state
    }

    /// The frames collected so far, in emission order.
    pub closed spec fn collected(&self) -> Seq<EncodedFrame> {
        self.frames@
    }

    /// Starts a drive: the frame has been fed, nothing collected yet.
    pub fn new() -> (r: EncoderRun)
        ensures
            r.state() == DriveState::Draining,
            r.collected() == Seq::<EncodedFrame>::empty(),
    {
        EncoderRun { state: DriveState::Draining, frames: Vec::new() }
    }

    /// Records one frame the encoder emitted while draining, preserving
    /// emission order.
    pub fn record_emitted(&mut self, data: Vec<u8>, keyframe: bool, pts_ms: i64)
        requires
            old(self).state() == DriveState::Draining,
        ensures
            final(self).state() == DriveState::Draining,
            final(self).collected() == old(self).collected().push(
                EncodedFrame { data: data, keyframe: keyframe, pts_ms: pts_ms },
            ),
    {
        self.frames.push(EncodedFrame { data, keyframe, pts_ms });
    }

    /// Records that the encoder's finish call has been made: buffered
    /// frames may still follow and must be polled for.
    pub fn begin_finish(&mut self)
        requires
            old(self).state() == DriveState::Draining,
        ensures
            final(self).state() == DriveState::Finishing,
            final(self).collected() == old(self).collected(),
    {
        self.state = DriveState::Finishing;
    }

    /// Records one finish poll: a frame keeps the drive polling, `None`
    /// ends it.
    pub fn record_finish_poll(&mut self, frame: Option<EncodedFrame>) -> (done: bool)
        requires
            old(self).state() == DriveState::Finishing,
        ensures
            done <==> frame is None,
            frame is Some ==> final(self).state() == DriveState::Finishing && final(self).collected() == old(self).collected().push(frame->Some_0),
            frame is None ==> final(self).state() == DriveState::Finished && final(self).collected() == old(self).collected(),
    {
        match frame {
            Some(f) => {
                self.frames.push(f);
                false
            },
            None => {
                self.state = DriveState::Finished;
                true
            },
        }
    }

    /// Hands the collected frames out, in emission order, once the
    /// encoder has reported no more frames.
    pub fn into_frames(self) -> (r: Vec<EncodedFrame>)
        requires
            self.state() == DriveState::Finished,
        ensures
            r@ == self.collected(),
    {
        self.frames
    }
}

/// The video-track append one encoded frame produces: its payload bytes,
/// verbatim, its timestamp scaled to nanoseconds, and its keyframe flag.
pub open spec fn scaled_video_append(f: EncodedFrame) -> (Seq<u8>, u64, bool) {
    (f.data@, (f.pts_ms * 1000000) as u64, f.keyframe)
}

/// Whether a frame's timestamp survives the nanosecond scaling.
pub open spec fn stamp_scalable(f: EncodedFrame) -> bool {
    0 <= f.pts_ms && f.pts_ms * 1000000 <= u64::MAX
}

/// Appends the encoded frames to the container's video track, in
/// production order, each timestamp scaled from the encoder's timebase to
/// nanoseconds.  A frame whose timestamp cannot be scaled, like one the
/// writer rejects, is a `Mux` error.
pub fn append_video_frames(m: &mut Muxer, frames: &Vec<EncodedFrame>) -> (r: Result<
    (),
    MediaError,
>)
    requires
        old(m).wf(),
        !old(m).finalized(),
    ensures
        final(m).wf(),
        !final(m).finalized(),
        final(m).audio_frames() == old(m).audio_frames(),
        final(m).color_metadata() == old(m).color_metadata(),
        r is Ok ==> final(m).video_frames() == old(m).video_frames() + frames@.map_values(
            |f: EncodedFrame| scaled_video_append(f),
        ) && (forall|k: int| 0 <= k < frames@.len() ==> stamp_scalable(#[trigger] frames@[k])),
        r is Err ==> r == Err::<(), _>(MediaError::Mux),
{
    let ghost scaled = frames@.map_values(|f: EncodedFrame| scaled_video_append(f));
    let n = frames.len();
    let mut i: usize = 0;
    proof {
        assert(old(m).video_frames() + scaled.take(0) =~= old(m).video_frames());
    }
    while i < n
        invariant
            old(m).wf(),
            !old(m).finalized(),
            m.wf(),
            !m.finalized(),
            m.audio_frames() == old(m).audio_frames(),
            m.color_metadata() == old(m).color_metadata(),
            n == frames@.len(),
            scaled == frames@.map_values(|f: EncodedFrame| scaled_video_append(f)),
            0 <= i <= n,
            m.video_frames() == old(m).video_frames() + scaled.take(i as int),
            forall|k: int| 0 <= k < i ==> stamp_scalable(#[trigger] frames@[k]),
        decreases n - i,
    {
        let frame = &frames[i];
        if frame.pts_ms < 0 {
            return Err(MediaError::Mux);
        }
        if frame.pts_ms > 18446744073709i64 {
            proof {
                assert(frame.pts_ms * 1000000 > u64::MAX) by (nonlinear_arith)
                    requires
                        frame.pts_ms > 18446744073709i64,
                ;
            }
            return Err(MediaError::Mux);
        }
        proof {
            assert(frame.pts_ms * 1000000 <= u64::MAX) by (nonlinear_arith)
                requires
                    0 <= frame.pts_ms <= 18446744073709i64,
            ;
        }
        match m.append_video(&frame.data, frame.pts_ms, frame.keyframe) {
            Ok(()) => {},
            Err(_) => {
                return Err(MediaError::Mux);
            },
        }
        proof {
            assert(scaled[i as int] == scaled_video_append(frames@[i as int]));
            assert(old(m).video_frames() + scaled.take(i + 1) =~= (old(m).video_frames()
                + scaled.take(i as int)).push(scaled[i as int]));
        }
        i = i + 1;
    }
    proof {
        assert(scaled.take(n as int) =~= scaled);
    }
    Ok(())
}

} // verus!

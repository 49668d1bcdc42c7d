//! The container muxer: one audio track and one video track over a webm
//! segment writer, with the writer's call order pinned down as an event
//! log.  All audio frames go in before any video frame, and the segment
//! is finalized exactly once.

use vstd::prelude::*;

use crate::MediaError;

verus! {

/// The live writer state: the webm segment over an in-memory cursor and
/// its two tracks.  The tracks belong to this segment, which outlives
/// them, so frame appends cannot hit a dropped segment.  Verus cannot
/// declare the writer's type (its parameter is bound by `std::io` traits),
/// so the whole handle is opaque and trusted.
#[verifier::external_body]
struct MuxHandle {
    segment: webm::mux::Segment<webm::mux::Writer<std::io::Cursor<Vec<u8>>>>,
    audio: webm::mux::AudioTrack,
    video: webm::mux::VideoTrack,
}

/// Relies on `webm::mux::Writer::new`, `Segment::new`,
/// `Segment::add_audio_track_opt` (Opus) and `Segment::add_video_track_opt`
/// (VP8), in that order, with automatic track numbers: `None` when the
/// writer rejects the segment or either track.
#[verifier::external_body]
fn open_mux_handle(width: u32, height: u32, sample_rate: i32, channels: i32) -> Option<MuxHandle> {
    let writer = webm::mux::Writer::new(std::io::Cursor::new(Vec::new()));
    let mut segment = webm::mux::Segment::new(writer)?;
    let audio =
        segment.add_audio_track_opt(sample_rate, channels, None, webm::mux::AudioCodecId::Opus)?;
    let video = segment.add_video_track_opt(width, height, None, webm::mux::VideoCodecId::VP8)?;
    Some(MuxHandle { segment, audio, video })
}

/// Relies on `webm::mux::VideoTrack::set_color`: `false` when the writer
/// rejects the colour metadata.
#[verifier::external_body]
fn handle_set_color(
    h: &mut MuxHandle,
    bit_depth: u8,
    subsampling_horizontal: bool,
    subsampling_vertical: bool,
    full_range: bool,
) -> bool {
    h.video.set_color(bit_depth, (subsampling_horizontal, subsampling_vertical), full_range)
}

/// Relies on `webm::mux::Track::add_frame` on the handle's audio track;
/// the handle owns the segment, so the track's segment is alive.  Returns
/// `false` when the writer rejects the frame.
#[verifier::external_body]
fn handle_add_audio_frame(h: &mut MuxHandle, data: &Vec<u8>, timestamp_ns: u64, keyframe: bool) -> bool {
    webm::mux::Track::add_frame(&mut h.audio, data.as_slice(), timestamp_ns, keyframe)
}

/// Relies on `webm::mux::Track::add_frame` on the handle's video track;
/// the handle owns the segment, so the track's segment is alive.  Returns
/// `false` when the writer rejects the frame.
#[verifier::external_body]
fn handle_add_video_frame(h: &mut MuxHandle, data: &Vec<u8>, timestamp_ns: u64, keyframe: bool) -> bool {
    webm::mux::Track::add_frame(&mut h.video, data.as_slice(), timestamp_ns, keyframe)
}

/// Relies on `webm::mux::Segment::try_finalize` and `Writer::unwrap`:
/// the written bytes on success, `None` when the writer rejects the
/// finalize.  The tracks hold only weak references, so the segment's
/// state is exclusively ours and the call returns.
#[verifier::external_body]
fn handle_finalize(h: MuxHandle, duration: u64) -> Option<Vec<u8>> {
    let MuxHandle { segment, audio: _, video: _ } = h;
    match segment.try_finalize(Some(duration)) {
        Ok(w) => Some(w.unwrap().into_inner()),
        Err(_) => None,
    }
}

/// One call the container writer observed, in order, carrying exactly
/// what was handed over.
pub enum MuxEvent {
    AudioTrackAdded,
    VideoTrackAdded,
    ColorSet {
        bit_depth: u8,
        subsampling_horizontal: bool,
        subsampling_vertical: bool,
        full_range: bool,
    },
    AudioFrame { data: Seq<u8>, timestamp_ns: u64, keyframe: bool },
    VideoFrame { data: Seq<u8>, timestamp_ns: u64, keyframe: bool },
    Finalized { duration: u64 },
}

/// An in-progress mux: exactly one audio and one video track, each
/// append-only, audio strictly before video, the video track's colour
/// metadata set once before any frame, finalized at most once.
pub struct Muxer {
    handle: Option<MuxHandle>,
    color: Ghost<(u8, bool, bool, bool)>,
    audio_log: Ghost<Seq<(Seq<u8>, u64)>>,
    video_log: Ghost<Seq<(Seq<u8>, u64, bool)>>,
    done: Ghost<Option<u64>>,
}

impl Muxer {
    /// Whether the mux has been finalized.
    pub closed spec fn finalized(&self) -> bool {
        self.done@ is Some
    }

    /// The writer state is live exactly until finalization.
    pub closed spec fn wf(&self) -> bool {
        (self.handle is Some) <==> (self.done@ is None)
    }

    /// The colour metadata the video track was given at creation: bit
    /// depth, horizontal and vertical chroma subsampling, full range.
    pub closed spec fn color_metadata(&self) -> (u8, bool, bool, bool) {
        self.color@
    }

    /// The audio frames appended so far, in order: each one's payload
    /// bytes, handed to the writer verbatim, and its timestamp.
    pub closed spec fn audio_frames(&self) -> Seq<(Seq<u8>, u64)> {
        self.audio_log@
    }

    /// The video frames appended so far, in order: each one's payload
    /// bytes, handed to the writer verbatim, its scaled timestamp, and
    /// its keyframe flag.
    pub closed spec fn video_frames(&self) -> Seq<(Seq<u8>, u64, bool)> {
        self.video_log@
    }

    /// The declared duration the mux was finalized with, once it was.
    pub closed spec fn finalized_duration(&self) -> Option<u64> {
        self.done@
    }

    /// The full sequence of calls the writer has observed: both tracks
    /// created up front, audio first; the colour metadata set once,
    /// before any frame; then every audio append in input order, its
    /// bytes verbatim and never flagged as a keyframe; then every video
    /// append in production order, its bytes verbatim with its own flag;
    /// then, once finalized, exactly one finalize call.
    pub closed spec fn events(&self) -> Seq<MuxEvent> {
        seq![
            MuxEvent::AudioTrackAdded,
            MuxEvent::VideoTrackAdded,
            MuxEvent::ColorSet {
                bit_depth: self.color@.0,
                subsampling_horizontal: self.color@.1,
                subsampling_vertical: self.color@.2,
                full_range: self.color@.3,
            },
        ]
            + self.audio_log@.map_values(
            |e: (Seq<u8>, u64)| MuxEvent::AudioFrame {
                data: e.0,
                timestamp_ns: e.1,
                keyframe: false,
            },
        ) + self.video_log@.map_values(
            |e: (Seq<u8>, u64, bool)| MuxEvent::VideoFrame {
                data: e.0,
                timestamp_ns: e.1,
                keyframe: e.2,
            },
        ) + match self.done@ {
            Some(d) => seq![MuxEvent::Finalized { duration: d }],
            None => Seq::<MuxEvent>::empty(),
        }
    }

    /// Opens a mux for the given video dimensions and audio parameters:
    /// creates the segment over an in-memory writer, adds the audio
    /// track, adds the video track, and sets the video track's colour
    /// metadata (8-bit, chroma subsampled in both axes, limited range)
    /// exactly once, before any frame can be appended.  Segment or track
    /// rejection is a `Mux` error; colour rejection is an `Encode` error.
    pub fn open(width: u32, height: u32, sample_rate: i32, channels: i32) -> (r: Result<
        Muxer,
        MediaError,
    >)
        ensures
            r is Ok ==> {
                &&& r->Ok_0.wf()
                &&& !r->Ok_0.finalized()
                &&& r->Ok_0.color_metadata() == (8u8, true, true, false)
                &&& r->Ok_0.audio_frames() == Seq::<(Seq<u8>, u64)>::empty()
                &&& r->Ok_0.video_frames() == Seq::<(Seq<u8>, u64, bool)>::empty()
            },
            r is Err ==> (r->Err_0 == MediaError::Mux || r->Err_0 == MediaError::Encode),
    {
        let mut handle = match open_mux_handle(width, height, sample_rate, channels) {
            Some(h) => h,
            None => {
                return Err(MediaError::Mux);
            },
        };
        if !handle_set_color(&mut handle, 8, true, true, false) {
            return Err(MediaError::Encode);
        }
        Ok(
            Muxer {
                handle: Some(handle),
                color: Ghost((8u8, true, true, false)),
                audio_log: Ghost(Seq::<(Seq<u8>, u64)>::empty()),
                video_log: Ghost(Seq::<(Seq<u8>, u64, bool)>::empty()),
                done: Ghost(None),
            },
        )
    }

    /// Appends one audio frame: the payload bytes handed to the writer
    /// verbatim at `timestamp_ns`, never marked as a keyframe.  Audio
    /// must all be appended before any video frame.  An append on a
    /// finalized mux is rejected and changes nothing; a writer rejection
    /// changes no event.
    pub fn append_audio(&mut self, data: &Vec<u8>, timestamp_ns: u64) -> (r: Result<
        (),
        MediaError,
    >)
        requires
            old(self).wf(),
            old(self).video_frames().len() == 0,
        ensures
            final(self).wf(),
            old(self).finalized() ==> r == Err::<(), _>(MediaError::Mux) && final(self).events()
                == old(self).events(),
            !old(self).finalized() ==> {
                &&& !final(self).finalized()
                &&& final(self).video_frames() == old(self).video_frames()
                &&& final(self).color_metadata() == old(self).color_metadata()
                &&& r is Ok ==> final(self).audio_frames() == old(self).audio_frames().push(
                    (data@, timestamp_ns),
                )
                &&& r is Err ==> r->Err_0 == MediaError::Mux && final(self).audio_frames() == old(self).audio_frames()
            },
    {
        match &mut self.handle {
            Some(h) => {
                if handle_add_audio_frame(h, data, timestamp_ns, false) {
                    proof {
                        self.audio_log@ = self.audio_log@.push((data@, timestamp_ns));
                    }
                    Ok(())
                } else {
                    Err(MediaError::Mux)
                }
            },
            None => Err(MediaError::Mux),
        }
    }

    /// Appends one video frame: the payload bytes handed to the writer
    /// verbatim, the presentation time `pts_ms` (the encoder's 1/1000
    /// timebase) scaled here to nanoseconds, and the frame's own keyframe
    /// flag.  An append on a finalized mux is rejected and changes
    /// nothing; a writer rejection changes no event.
    pub fn append_video(&mut self, data: &Vec<u8>, pts_ms: i64, keyframe: bool) -> (r: Result<
        (),
        MediaError,
    >)
        requires
            old(self).wf(),
            0 <= pts_ms,
            pts_ms * 1000000 <= u64::MAX,
        ensures
            final(self).wf(),
            old(self).finalized() ==> r == Err::<(), _>(MediaError::Mux) && final(self).events()
                == old(self).events(),
            !old(self).finalized() ==> {
                &&& !final(self).finalized()
                &&& final(self).audio_frames() == old(self).audio_frames()
                &&& final(self).color_metadata() == old(self).color_metadata()
                &&& r is Ok ==> final(self).video_frames() == old(self).video_frames().push(
                    (data@, (pts_ms * 1000000) as u64, keyframe),
                )
                &&& r is Err ==> r->Err_0 == MediaError::Mux && final(self).video_frames() == old(self).video_frames()
            },
    {
        let timestamp_ns: u64 = (pts_ms as u64) * 1000000;
        match &mut self.handle {
            Some(h) => {
                if handle_add_video_frame(h, data, timestamp_ns, keyframe) {
                    proof {
                        self.video_log@ = self.video_log@.push((data@, timestamp_ns, keyframe));
                    }
                    Ok(())
                } else {
                    Err(MediaError::Mux)
                }
            },
            None => Err(MediaError::Mux),
        }
    }

    /// Finalizes the mux with the declared total duration and returns the
    /// container bytes.  Finalization is terminal: afterwards every
    /// append and any second finalize is rejected.
    pub fn finalize(&mut self, duration: u64) -> (r: Result<Vec<u8>, MediaError>)
        requires
            old(self).wf(),
        ensures
            final(self).wf(),
            old(self).finalized() ==> r is Err && r->Err_0 == MediaError::Mux && final(self).events() == old(self).events(),
            !old(self).finalized() ==> {
                &&& final(self).audio_frames() == old(self).audio_frames()
                &&& final(self).video_frames() == old(self).video_frames()
                &&& final(self).color_metadata() == old(self).color_metadata()
                &&& r is Ok ==> final(self).events() == old(self).events().push(
                    MuxEvent::Finalized { duration },
                ) && final(self).finalized()
                &&& r is Err ==> r->Err_0 == MediaError::Mux && final(self).finalized()
            },
    {
        let handle = self.handle.take();
        match handle {
            Some(h) => {
                proof {
                    self.done@ = Some(duration);
                }
                match handle_finalize(h, duration) {
                    Some(bytes) => {
                        proof {
                            assert(self.events() =~= old(self).events().push(
                                MuxEvent::Finalized { duration },
                            ));
                        }
                        Ok(bytes)
                    },
                    None => Err(MediaError::Mux),
                }
            },
            None => Err(MediaError::Mux),
        }
    }
}

/// The order the writer observes, for any muxer state: the audio track
/// is created first, then the video track; the colour metadata is set
/// exactly once, before any frame; every audio append comes before every
/// video append and is never flagged as a keyframe; and a finalize, if
/// any, comes last and is unique.
pub proof fn lemma_mux_event_order(m: Muxer)
    ensures
        m.events()[0] == MuxEvent::AudioTrackAdded,
        m.events()[1] == MuxEvent::VideoTrackAdded,
        m.events()[2] is ColorSet,
        forall|i: int|
            0 <= i < m.events().len() && m.events()[i] is ColorSet ==> i == 2,
        forall|i: int|
            0 <= i < m.events().len() && (m.events()[i] is AudioFrame || m.events()[i]
                is VideoFrame) ==> 2 < i,
        forall|i: int|
            0 <= i < m.events().len() && m.events()[i] is AudioFrame ==> !m.events()[i]->AudioFrame_keyframe,
        forall|i: int, j: int|
            0 <= i < j < m.events().len() && m.events()[j] is AudioFrame ==> !(m.events()[i]
                is VideoFrame),
        forall|i: int|
            0 <= i < m.events().len() && m.events()[i] is Finalized ==> i == m.events().len() - 1
                && m.finalized(),
{
    let e = m.events();
    let na = m.audio_log@.len() as int;
    let nv = m.video_log@.len() as int;
    assert forall|i: int|
        0 <= i < e.len() && (e[i] is ColorSet || e[i] is AudioFrame || e[i] is VideoFrame
            || e[i] is Finalized) implies (e[i] is ColorSet ==> i == 2) && (e[i] is AudioFrame
        ==> 3 <= i < 3 + na && !e[i]->AudioFrame_keyframe) && (e[i] is VideoFrame ==> 3 + na <= i
        < 3 + na + nv) && (e[i] is Finalized ==> i == e.len() - 1 && m.finalized()) by {
        if 3 <= i < 3 + na {
            assert(e[i] == m.audio_log@.map_values(
                |t: (Seq<u8>, u64)| MuxEvent::AudioFrame {
                    data: t.0,
                    timestamp_ns: t.1,
                    keyframe: false,
                },
            )[i - 3]);
        } else if 3 + na <= i < 3 + na + nv {
            assert(e[i] == m.video_log@.map_values(
                |tv: (Seq<u8>, u64, bool)| MuxEvent::VideoFrame {
                    data: tv.0,
                    timestamp_ns: tv.1,
                    keyframe: tv.2,
                },
            )[i - 3 - na]);
        }
    }
}

/// How the event log decomposes over the muxer's parts: both track
/// creations first, audio first; the one colour-metadata call; then the
/// audio appends in order; then the video appends in order; then the
/// finalize call, once there was one.
pub proof fn lemma_events_shape(m: Muxer)
    ensures
        m.events() == seq![
            MuxEvent::AudioTrackAdded,
            MuxEvent::VideoTrackAdded,
            MuxEvent::ColorSet {
                bit_depth: m.color_metadata().0,
                subsampling_horizontal: m.color_metadata().1,
                subsampling_vertical: m.color_metadata().2,
                full_range: m.color_metadata().3,
            },
        ] + m.audio_frames().map_values(
            |e: (Seq<u8>, u64)| MuxEvent::AudioFrame {
                data: e.0,
                timestamp_ns: e.1,
                keyframe: false,
            },
        ) + m.video_frames().map_values(
            |e: (Seq<u8>, u64, bool)| MuxEvent::VideoFrame {
                data: e.0,
                timestamp_ns: e.1,
                keyframe: e.2,
            },
        ) + (match m.finalized_duration() {
            Some(d) => seq![MuxEvent::Finalized { duration: d }],
            None => Seq::<MuxEvent>::empty(),
        }),
        m.finalized() <==> m.finalized_duration() is Some,
{
}

/// The writer observes at most one finalize call: two positions of the
/// event log that both hold one are the same position.
pub proof fn lemma_finalize_at_most_once(m: Muxer, i: int, j: int)
    requires
        0 <= i < m.events().len(),
        0 <= j < m.events().len(),
        m.events()[i] is Finalized,
        m.events()[j] is Finalized,
    ensures
        i == j,
{
    lemma_mux_event_order(m);
}

} // verus!

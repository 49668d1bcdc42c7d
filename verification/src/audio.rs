//! The audio repacketizer: reads the compressed-audio stream's packets in
//! order, copies each parseable packet into the audio track at the running
//! clock, and advances the clock by the packet's duration.  Packets whose
//! sample count could not be determined are skipped and leave the clock
//! untouched.

use vstd::prelude::*;

use crate::MediaError;
use crate::mux::Muxer;

verus! {

/// The container's clock resolution, in time units per second.
pub const TIME_UNITS_PER_SEC: u64 = 100000000;

/// The audio stream's fixed sample rate.
pub const SAMPLE_RATE: u64 = 48000;

/// How far one decoded sample advances the running clock.
pub const TIME_UNITS_PER_SAMPLE: u64 = TIME_UNITS_PER_SEC / SAMPLE_RATE;

/// One compressed-audio packet: its raw bytes, copied verbatim into the
/// audio track, and its decoded sample count when the probe could
/// determine one.
pub struct AudioPacket {
    pub data: Vec<u8>,
    pub samples: Option<u64>,
}

/// How far one packet advances the clock: its sample count times the
/// per-sample step, and nothing for a skipped packet.
pub open spec fn packet_advance(samples: Option<u64>) -> int {
    match samples {
        Some(n) => n * (TIME_UNITS_PER_SAMPLE as int),
        None => 0,
    }
}

/// The running clock after the first `i` packets of `s`.
pub open spec fn spec_clock_after(s: Seq<Option<u64>>, i: int) -> int
    decreases i,
{
    if i <= 0 {
        0
    } else {
        spec_clock_after(s, i - 1) + packet_advance(s[i - 1])
    }
}

/// The audio-track appends a packet sequence produces, in order: each
/// parseable packet's bytes, verbatim, paired with the clock value
/// before that packet.
pub open spec fn spec_audio_appends(packets: Seq<AudioPacket>) -> Seq<(Seq<u8>, int)>
    decreases packets.len(),
{
    if packets.len() == 0 {
        Seq::<(Seq<u8>, int)>::empty()
    } else {
        let front = spec_audio_appends(packets.drop_last());
        if packets.last().samples is Some {
            front.push(
                (
                    packets.last().data@,
                    spec_clock_after(
                        packets.map_values(|p: AudioPacket| p.samples),
                        packets.len() - 1,
                    ),
                ),
            )
        } else {
            front
        }
    }
}

/// One packet's exact effect on the clock: a parsed packet advances it by
/// `samples * (time units per second / sample rate)`, a skipped packet
/// leaves it unchanged.
pub proof fn lemma_clock_step(s: Seq<Option<u64>>, i: int)
    requires
        0 <= i < s.len(),
    ensures
        s[i] is Some ==> spec_clock_after(s, i + 1) == spec_clock_after(s, i) + s[i]->Some_0
            * (TIME_UNITS_PER_SAMPLE as int),
        s[i] is None ==> spec_clock_after(s, i + 1) == spec_clock_after(s, i),
{
}

/// The running clock is monotonically non-decreasing across any packet
/// sequence.
pub proof fn lemma_clock_monotonic(s: Seq<Option<u64>>, i: int, j: int)
    requires
        0 <= i <= j <= s.len(),
    ensures
        spec_clock_after(s, i) <= spec_clock_after(s, j),
    decreases j - i,
{
    if i < j {
        lemma_clock_monotonic(s, i, j - 1);
        assert(packet_advance(s[j - 1]) >= 0) by {
            match s[j - 1] {
                Some(n) => {
                    assert(n * (TIME_UNITS_PER_SAMPLE as int) >= 0) by (nonlinear_arith);
                },
                None => {},
            }
        }
    }
}

/// The clock after `i` packets reads only the first `i` packets.
proof fn lemma_clock_after_take(s: Seq<Option<u64>>, k: int, i: int)
    requires
        0 <= i <= k <= s.len(),
    ensures
        spec_clock_after(s.take(k), i) == spec_clock_after(s, i),
    decreases i,
{
    if i > 0 {
        lemma_clock_after_take(s, k, i - 1);
    }
}

/// Extending the packet sequence by one extends the append sequence by
/// the new packet's bytes and stamp, or not at all when it is skipped.
proof fn lemma_appends_extend(packets: Seq<AudioPacket>, i: int)
    requires
        0 <= i < packets.len(),
    ensures
        packets[i].samples is Some ==> spec_audio_appends(packets.take(i + 1))
            == spec_audio_appends(packets.take(i)).push(
            (
                packets[i].data@,
                spec_clock_after(packets.map_values(|p: AudioPacket| p.samples), i),
            ),
        ),
        packets[i].samples is None ==> spec_audio_appends(packets.take(i + 1))
            == spec_audio_appends(packets.take(i)),
{
    let t = packets.take(i + 1);
    let s = packets.map_values(|p: AudioPacket| p.samples);
    assert(t.drop_last() =~= packets.take(i));
    assert(t.last() == packets[i]);
    assert(t.map_values(|p: AudioPacket| p.samples) =~= s.take(i + 1));
    lemma_clock_after_take(s, i + 1, i);
}

/// Copies `packets` into the muxer's audio track in order: each packet
/// with a known sample count is appended at the running clock, which then
/// advances by that packet's duration; the others are skipped.  Returns
/// the final clock value.  Fails with `Stream` when the clock would
/// outgrow its 64 bits, and with `Mux` when the writer rejects a frame.
pub fn repacketize_audio(m: &mut Muxer, packets: &Vec<AudioPacket>) -> (r: Result<
    u64,
    MediaError,
>)
    requires
        old(m).wf(),
        !old(m).finalized(),
        old(m).video_frames().len() == 0,
    ensures
        final(m).wf(),
        !final(m).finalized(),
        final(m).video_frames() == old(m).video_frames(),
        final(m).color_metadata() == old(m).color_metadata(),
        r is Ok ==> {
            let s = packets@.map_values(|p: AudioPacket| p.samples);
            &&& spec_clock_after(s, s.len() as int) <= u64::MAX
            &&& r->Ok_0 == spec_clock_after(s, s.len() as int)
            &&& final(m).audio_frames() == old(m).audio_frames() + spec_audio_appends(
                packets@,
            ).map_values(|e: (Seq<u8>, int)| (e.0, e.1 as u64))
        },
        r is Err ==> (r->Err_0 == MediaError::Mux || r->Err_0 == MediaError::Stream),
        r == Err::<u64, _>(MediaError::Stream) ==> {
            let s = packets@.map_values(|p: AudioPacket| p.samples);
            spec_clock_after(s, s.len() as int) > u64::MAX
        },
{
    let ghost s = packets@.map_values(|p: AudioPacket| p.samples);
    let mut clock: u64 = 0;
    let mut i: usize = 0;
    let n = packets.len();
    proof {
        assert(spec_audio_appends(packets@.take(0)) =~= Seq::<(Seq<u8>, int)>::empty());
        assert(old(m).audio_frames() + spec_audio_appends(packets@.take(0)).map_values(
            |e: (Seq<u8>, int)| (e.0, e.1 as u64),
        ) =~= old(m).audio_frames());
    }
    while i < n
        invariant
            old(m).wf(),
            !old(m).finalized(),
            old(m).video_frames().len() == 0,
            m.wf(),
            !m.finalized(),
            m.video_frames() == old(m).video_frames(),
            m.color_metadata() == old(m).color_metadata(),
            n == packets@.len(),
            s == packets@.map_values(|p: AudioPacket| p.samples),
            0 <= i <= n,
            clock == spec_clock_after(s, i as int),
            m.audio_frames() == old(m).audio_frames() + spec_audio_appends(
                packets@.take(i as int),
            ).map_values(|e: (Seq<u8>, int)| (e.0, e.1 as u64)),
        decreases n - i,
    {
        let packet = &packets[i];
        proof {
            assert(s[i as int] == packet.samples);
            lemma_appends_extend(packets@, i as int);
        }
        match packet.samples {
            Some(count) => {
                match m.append_audio(&packet.data, clock) {
                    Ok(()) => {},
                    Err(_) => {
                        return Err(MediaError::Mux);
                    },
                }
                proof {
                    assert(spec_audio_appends(packets@.take(i + 1)).map_values(
                        |e: (Seq<u8>, int)| (e.0, e.1 as u64),
                    ) =~= spec_audio_appends(packets@.take(i as int)).map_values(
                        |e: (Seq<u8>, int)| (e.0, e.1 as u64),
                    ).push((packet.data@, clock)));
                    assert(old(m).audio_frames() + spec_audio_appends(packets@.take(i + 1)).map_values(
                        |e: (Seq<u8>, int)| (e.0, e.1 as u64),
                    ) =~= (old(m).audio_frames() + spec_audio_appends(packets@.take(i as int)).map_values(
                        |e: (Seq<u8>, int)| (e.0, e.1 as u64),
                    )).push((packet.data@, clock)));
                }
                let advance = match count.checked_mul(TIME_UNITS_PER_SAMPLE) {
                    Some(a) => a,
                    None => {
                        proof {
                            lemma_clock_monotonic(s, i + 1, s.len() as int);
                        }
                        return Err(MediaError::Stream);
                    },
                };
                clock = match clock.checked_add(advance) {
                    Some(c) => c,
                    None => {
                        proof {
                            lemma_clock_monotonic(s, i + 1, s.len() as int);
                        }
                        return Err(MediaError::Stream);
                    },
                };
            },
            None => {},
        }
        i = i + 1;
    }
    proof {
        assert(packets@.take(n as int) =~= packets@);
    }
    Ok(clock)
}

/// What the ogg container holds: the codec packets readable from the
/// front of the byte stream, in stream order, and whether the stream then
/// ends cleanly rather than in a parse error.
pub uninterp spec fn ogg_stream(bytes: Seq<u8>) -> (Seq<Seq<u8>>, bool);

/// The packets of the stream.
pub open spec fn ogg_packets(bytes: Seq<u8>) -> Seq<Seq<u8>> {
    ogg_stream(bytes).0
}

/// Whether the stream ends cleanly after its packets.
pub open spec fn ogg_clean(bytes: Seq<u8>) -> bool {
    ogg_stream(bytes).1
}

/// The packet reader itself; opaque because Verus cannot declare its
/// type, whose parameter is bound by `std::io` traits.
#[verifier::external_body]
struct OggInner {
    reader: ogg::PacketReader<std::io::Cursor<Vec<u8>>>,
}

/// An ogg packet reader over an in-memory byte stream, tracking how many
/// packets have been read.
pub struct OggReader {
    inner: OggInner,
    bytes: Ghost<Seq<u8>>,
    pos: Ghost<int>,
    ended: Ghost<bool>,
}

impl OggReader {
    /// The bytes the reader was opened over.
    pub closed spec fn stream_bytes(&self) -> Seq<u8> {
        self.bytes@
    }

    /// How many packets have been read so far.
    pub closed spec fn packets_read(&self) -> int {
        self.pos@
    }

    /// Whether the reader has reported the stream's end or an error.
    pub closed spec fn ended(&self) -> bool {
        self.ended@
    }

    /// The reader stands somewhere within the stream's packets.
    pub closed spec fn wf(&self) -> bool {
        0 <= self.pos@ <= ogg_packets(self.bytes@).len()
    }
}

/// Relies on `ogg::PacketReader::new` over a cursor of the bytes.
#[verifier::external_body]
fn ogg_inner_new(bytes: Vec<u8>) -> OggInner {
    OggInner { reader: ogg::PacketReader::new(std::io::Cursor::new(bytes)) }
}

/// Opens a packet reader at the start of the stream.
pub fn ogg_open(bytes: Vec<u8>) -> (r: OggReader)
    ensures
        r.wf(),
        r.stream_bytes() == bytes@,
        r.packets_read() == 0,
        !r.ended(),
{
    let ghost b = bytes@;
    OggReader { inner: ogg_inner_new(bytes), bytes: Ghost(b), pos: Ghost(0), ended: Ghost(false) }
}

/// Relies on `ogg::PacketReader::read_packet`: it yields the stream's
/// packets in order, each read depending on the bytes and the packets
/// already read alone; after the last packet it reports the stream's end,
/// or a parse error when the remaining bytes are not a valid container.
/// The reader is only ever built over the bytes its ghost view records.
#[verifier::external_body]
fn ogg_read_step(r: &mut OggReader) -> (res: Result<Option<Vec<u8>>, MediaError>)
    requires
        old(r).wf(),
        !old(r).ended(),
    ensures
        final(r).wf(),
        final(r).stream_bytes() == old(r).stream_bytes(),
        old(r).packets_read() < ogg_stream(old(r).stream_bytes()).0.len() ==> {
            &&& res is Ok
            &&& res->Ok_0 is Some
            &&& res->Ok_0->Some_0@ == ogg_stream(old(r).stream_bytes()).0[old(r).packets_read()]
            &&& final(r).packets_read() == old(r).packets_read() + 1
            &&& !final(r).ended()
        },
        old(r).packets_read() == ogg_stream(old(r).stream_bytes()).0.len() ==> {
            &&& final(r).packets_read() == old(r).packets_read()
            &&& final(r).ended()
            &&& ogg_stream(old(r).stream_bytes()).1 ==> res == Ok::<Option<Vec<u8>>, MediaError>(None)
            &&& !ogg_stream(old(r).stream_bytes()).1 ==> res == Err::<Option<Vec<u8>>, MediaError>(MediaError::Stream)
        },
{
    match r.inner.reader.read_packet() {
        Ok(Some(p)) => Ok(Some(p.data)),
        Ok(None) => Ok(None),
        Err(_) => Err(MediaError::Stream),
    }
}

/// Reads every packet of the stream, in order.  Succeeds exactly when the
/// whole byte stream is a valid ogg container; any parse failure aborts
/// with a `Stream` error, as no partial recovery is attempted.
pub fn read_all_ogg_packets(bytes: Vec<u8>) -> (r: Result<Vec<Vec<u8>>, MediaError>)
    ensures
        r is Ok <==> ogg_clean(bytes@),
        r is Ok ==> r->Ok_0@.map_values(|p: Vec<u8>| p@) == ogg_packets(bytes@),
        r is Err ==> r == Err::<Vec<Vec<u8>>, _>(MediaError::Stream),
{
    let ghost b = bytes@;
    let mut reader = ogg_open(bytes);
    let mut out: Vec<Vec<u8>> = Vec::new();
    proof {
        assert(out@.map_values(|p: Vec<u8>| p@) =~= ogg_packets(b).take(0));
    }
    loop
        invariant
            b == bytes@,
            reader.wf(),
            !reader.ended(),
            reader.stream_bytes() == b,
            0 <= reader.packets_read() <= ogg_packets(b).len(),
            out@.map_values(|p: Vec<u8>| p@) == ogg_packets(b).take(reader.packets_read()),
        decreases ogg_packets(b).len() - reader.packets_read(),
    {
        let ghost pos = reader.packets_read();
        match ogg_read_step(&mut reader) {
            Ok(Some(packet)) => {
                proof {
                    assert(pos < ogg_packets(b).len());
                    assert(ogg_packets(b).take(pos + 1) =~= ogg_packets(b).take(pos).push(
                        ogg_packets(b)[pos],
                    ));
                    assert((out@ + seq![packet]).map_values(|p: Vec<u8>| p@)
                        =~= out@.map_values(|p: Vec<u8>| p@).push(packet@));
                }
                out.push(packet);
            },
            Ok(None) => {
                proof {
                    assert(ogg_packets(b).take(pos) =~= ogg_packets(b));
                }
                return Ok(out);
            },
            Err(_) => {
                return Err(MediaError::Stream);
            },
        }
    }
}

} // verus!

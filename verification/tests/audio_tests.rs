//! The ogg packet reader against real ogg streams, and the clock's units.

use soundcloud_embedder::audio::read_all_ogg_packets;
use soundcloud_embedder::audio::TIME_UNITS_PER_SAMPLE;
use soundcloud_embedder::MediaError;

fn write_ogg_stream(packets: &[&[u8]]) -> Vec<u8> {
    let mut out = std::io::Cursor::new(Vec::new());
    {
        let mut writer = ogg::PacketWriter::new(&mut out);
        let n = packets.len();
        for (i, p) in packets.iter().enumerate() {
            let info = if i + 1 == n {
                ogg::PacketWriteEndInfo::EndStream
            } else {
                ogg::PacketWriteEndInfo::NormalPacket
            };
            writer.write_packet(p.to_vec(), 0x5eed, info, (i as u64 + 1) * 960).unwrap();
        }
    }
    out.into_inner()
}

#[test]
fn clock_step_is_time_units_over_sample_rate() {
    assert_eq!(TIME_UNITS_PER_SAMPLE, 100000000 / 48000);
    assert_eq!(TIME_UNITS_PER_SAMPLE, 2083);
}

#[test]
fn ogg_round_trip_keeps_packets_in_order() {
    let bytes = write_ogg_stream(&[b"first", b"second", b"third"]);
    let packets = read_all_ogg_packets(bytes).expect("a written stream reads back");
    assert_eq!(packets.len(), 3);
    assert_eq!(packets[0], b"first");
    assert_eq!(packets[1], b"second");
    assert_eq!(packets[2], b"third");
}

#[test]
fn empty_input_is_a_stream_error() {
    // the reader requires at least one page's capture pattern
    assert_eq!(read_all_ogg_packets(Vec::new()), Err(MediaError::Stream));
}

#[test]
fn garbage_is_a_stream_error() {
    let garbage = vec![0x4fu8, 0x67, 0x67, 0x53, 1, 2, 3, 4, 5, 6, 7, 8, 9, 10];
    assert_eq!(read_all_ogg_packets(garbage), Err(MediaError::Stream));
}

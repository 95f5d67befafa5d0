use zygote::error::Error;
use zygote::fd::SideChannel;
use zygote::pipe::frame::ByteOrder;
use zygote::pipe::stream::Segment;
use zygote::pipe::{Pipe, Stage};

const STRING_ID: [u8; 16] = [1, 2, 3, 4, 5, 6, 7, 8, 9, 10, 11, 12, 13, 14, 15, 16];
const BYTES_ID: [u8; 16] = [16, 15, 14, 13, 12, 11, 10, 9, 8, 7, 6, 5, 4, 3, 2, 1];

/// Reads each segment whole, as the peer's socket would hand it over.
fn deliver(pipe: &mut Pipe, segments: Vec<Segment>) {
    for segment in segments {
        match segment {
            Segment::Data(bytes) => {
                assert_eq!(pipe.wanted(), bytes.len() as u64);
                pipe.feed(bytes);
            }
            Segment::Rights(count, fds) => {
                assert_eq!(pipe.wanted(), 1);
                pipe.collect_fds(fds);
                pipe.feed(vec![count]);
            }
        }
    }
}

fn stage_all(channel: &mut SideChannel, fds: &[i32]) {
    for fd in fds {
        channel.push_fd(*fd);
    }
}

#[test]
fn basic() {
    let (s, mut d) = Pipe::pair();
    let mut channel = SideChannel::new();

    let bytes = rmp_serde::to_vec_named("hello world!").unwrap();
    let segments = s.send(&STRING_ID, bytes, &mut channel);
    deliver(&mut d, segments);
    assert_eq!(d.stage(), Stage::Complete);
    assert_eq!(d.queued(), d.announced());

    let payload = d.recv(&STRING_ID, "alloc::string::String", &mut channel).unwrap();
    let msg: String = rmp_serde::from_slice(&payload).unwrap();

    assert_eq!(msg, "hello world!");
    assert_eq!(channel.end_transfer(), Ok(()));
}

#[test]
fn validate_type() {
    let (s, mut d) = Pipe::pair();
    let mut channel = SideChannel::new();

    let bytes = rmp_serde::to_vec_named("hello world!").unwrap();
    let segments = s.send(&STRING_ID, bytes, &mut channel);
    deliver(&mut d, segments);

    let refused = d.recv(&BYTES_ID, "alloc::vec::Vec<u8>", &mut channel).unwrap_err();
    assert!(matches!(refused.error, Error::Decode(_)));
    assert_eq!(
        refused.error.to_string(),
        "decode error: uncategorized error: Invalid type id for alloc::vec::Vec<u8>"
    );
    assert!(refused.fds.is_empty());
    assert_eq!(d.stage(), Stage::TypeId);
}

#[test]
fn frame_layout_little_endian() {
    let pipe = Pipe::new(ByteOrder::Little);
    let mut channel = SideChannel::new();
    stage_all(&mut channel, &[7, 9]);

    let segments = pipe.send(&STRING_ID, vec![0xaa, 0xbb, 0xcc], &mut channel);

    assert_eq!(segments.len(), 4);
    assert!(matches!(&segments[0], Segment::Data(b) if b[..] == STRING_ID));
    assert!(matches!(&segments[1], Segment::Data(b) if b[..] == [3, 0, 0, 0, 0, 0, 0, 0]));
    assert!(matches!(&segments[2], Segment::Data(b) if b[..] == [0xaa, 0xbb, 0xcc]));
    assert!(matches!(&segments[3], Segment::Rights(2, fds) if fds[..] == [7, 9]));
    assert_eq!(channel.pending(), 0);
    assert_eq!(channel.end_transfer(), Ok(()));
}

#[test]
fn frame_layout_big_endian() {
    let pipe = Pipe::new(ByteOrder::Big);
    let mut channel = SideChannel::new();

    let segments = pipe.send(&BYTES_ID, vec![0u8; 258], &mut channel);

    assert_eq!(segments.len(), 4);
    assert!(matches!(&segments[1], Segment::Data(b) if b[..] == [0, 0, 0, 0, 0, 0, 1, 2]));
    assert!(matches!(&segments[2], Segment::Data(b) if b.len() == 258));
    assert!(matches!(&segments[3], Segment::Rights(0, fds) if fds.is_empty()));
}

#[test]
fn length_is_written_in_native_order() {
    let native = ByteOrder::native();
    let value: u64 = 0x0102_0304_0506_0708;
    assert_eq!(native.encode_length(value), value.to_ne_bytes().to_vec());
    assert_eq!(native.decode_length(&value.to_ne_bytes()), value);
    assert_eq!(ByteOrder::Little.encode_length(value), value.to_le_bytes().to_vec());
    assert_eq!(ByteOrder::Big.encode_length(value), value.to_be_bytes().to_vec());
    assert_eq!(ByteOrder::Big.decode_length(&value.to_be_bytes()), value);
}

#[test]
fn empty_payload_round_trip() {
    let (s, mut d) = Pipe::pair();
    let mut channel = SideChannel::new();

    let segments = s.send(&BYTES_ID, vec![], &mut channel);
    deliver(&mut d, segments);

    assert_eq!(d.stage(), Stage::Complete);
    let frame = d.recv_delayed();
    assert_eq!(frame.type_id(), BYTES_ID);
    let payload = frame.deserialize(&BYTES_ID, "bytes", &mut channel).unwrap();
    assert!(payload.is_empty());
    assert_eq!(channel.pending(), 0);
}

fn round_trip_fds(count: usize) -> (Vec<(u8, usize)>, Vec<i32>) {
    let (s, mut d) = Pipe::pair();
    let mut channel = SideChannel::new();
    let fds: Vec<i32> = (0..count as i32).map(|i| 1000 + i).collect();
    stage_all(&mut channel, &fds);

    let segments = s.send(&BYTES_ID, vec![1, 2, 3], &mut channel);
    assert_eq!(channel.pending(), 0);
    let mut chunks: Vec<(u8, usize)> = vec![];
    for segment in &segments[3..] {
        match segment {
            Segment::Rights(count, fds) => chunks.push((*count, fds.len())),
            Segment::Data(_) => panic!("data after the payload"),
        }
    }
    deliver(&mut d, segments);

    assert_eq!(d.stage(), Stage::Complete);
    assert_eq!(d.announced(), count);
    assert_eq!(d.queued(), count);
    let payload = d.recv(&BYTES_ID, "bytes", &mut channel).unwrap();
    assert_eq!(payload, vec![1, 2, 3]);
    let mut received: Vec<i32> = vec![];
    for index in 0..count {
        received.push(channel.take_fd(index).unwrap());
    }
    assert_eq!(received, fds);
    assert_eq!(channel.end_transfer(), Ok(()));
    (chunks, received)
}

#[test]
fn one_descriptor() {
    let (chunks, received) = round_trip_fds(1);
    assert_eq!(chunks, vec![(1, 1)]);
    assert_eq!(received, vec![1000]);
}

#[test]
fn many_descriptors_in_one_chunk() {
    let (chunks, _) = round_trip_fds(100);
    assert_eq!(chunks, vec![(100, 100)]);
}

#[test]
fn a_full_chunk_is_the_last() {
    let (chunks, _) = round_trip_fds(253);
    assert_eq!(chunks, vec![(253, 253)]);
}

#[test]
fn one_more_than_a_chunk() {
    let (chunks, _) = round_trip_fds(254);
    assert_eq!(chunks, vec![(255, 253), (1, 1)]);
}

#[test]
fn too_many_descriptors_for_one_chunk() {
    let (chunks, received) = round_trip_fds(300);
    assert_eq!(chunks, vec![(255, 253), (47, 47)]);
    assert_eq!(received[299], 1299);
}

#[test]
fn two_full_chunks() {
    let (chunks, _) = round_trip_fds(506);
    assert_eq!(chunks, vec![(255, 253), (253, 253)]);
}

#[test]
fn three_chunks() {
    let (chunks, _) = round_trip_fds(507);
    assert_eq!(chunks, vec![(255, 253), (255, 253), (1, 1)]);
}

#[test]
fn frames_follow_each_other() {
    let (s, mut d) = Pipe::pair();
    let mut channel = SideChannel::new();
    let mut stream: Vec<Segment> = vec![];
    stream.extend(s.send(&STRING_ID, vec![1], &mut channel));
    stage_all(&mut channel, &[5]);
    stream.extend(s.send(&BYTES_ID, vec![2, 2], &mut channel));
    stream.extend(s.send(&STRING_ID, vec![], &mut channel));

    let mut frames: Vec<([u8; 16], Vec<u8>, Vec<i32>)> = vec![];
    for segment in stream {
        deliver(&mut d, vec![segment]);
        if d.stage() == Stage::Complete {
            let mut type_id = [0u8; 16];
            let mut buffer: Vec<u8> = vec![];
            let mut fds: Vec<i32> = vec![];
            d.recv_parts_into(&mut type_id, &mut buffer, &mut fds);
            frames.push((type_id, buffer, fds));
        }
    }

    assert_eq!(
        frames,
        vec![
            (STRING_ID, vec![1], vec![]),
            (BYTES_ID, vec![2, 2], vec![5]),
            (STRING_ID, vec![], vec![]),
        ]
    );
    assert_eq!(d.stage(), Stage::TypeId);
    assert_eq!(d.queued(), 0);
}

#[test]
fn stages_follow_the_frame() {
    let mut pipe = Pipe::new(ByteOrder::Little);
    assert_eq!(pipe.stage(), Stage::TypeId);
    assert_eq!(pipe.wanted(), 16);
    pipe.feed(STRING_ID.to_vec());
    assert_eq!(pipe.stage(), Stage::Length);
    assert_eq!(pipe.wanted(), 8);
    pipe.feed(vec![5, 0, 0, 0, 0, 0, 0, 0]);
    assert_eq!(pipe.stage(), Stage::Payload);
    assert_eq!(pipe.wanted(), 5);
    pipe.feed(vec![1, 2, 3, 4, 5]);
    assert_eq!(pipe.stage(), Stage::Count);
    assert_eq!(pipe.wanted(), 1);
    pipe.feed(vec![255]);
    assert_eq!(pipe.stage(), Stage::Count);
    assert_eq!(pipe.announced(), 253);
    pipe.feed(vec![254]);
    assert_eq!(pipe.stage(), Stage::Complete);
    assert_eq!(pipe.announced(), 507);
    assert_eq!(pipe.wanted(), 0);
}

#[test]
fn descriptors_stick_to_the_pipe_until_taken() {
    let mut pipe = Pipe::new(ByteOrder::Little);
    pipe.collect_fds(vec![3, 4]);
    pipe.collect_fds(vec![]);
    pipe.collect_fds(vec![5]);
    assert_eq!(pipe.queued(), 3);
    assert_eq!(pipe.take_fds(), vec![3, 4, 5]);
    assert_eq!(pipe.queued(), 0);
    assert!(pipe.take_fds().is_empty());
}

#[test]
fn a_refused_frame_hands_its_descriptors_back() {
    let (s, mut d) = Pipe::pair();
    let mut channel = SideChannel::new();
    stage_all(&mut channel, &[21, 22, 23]);
    let segments = s.send(&STRING_ID, vec![1], &mut channel);
    deliver(&mut d, segments);

    let frame = d.recv_delayed();
    let refused = frame.deserialize(&BYTES_ID, "bytes", &mut channel).unwrap_err();

    assert_eq!(refused.fds, vec![21, 22, 23]);
    assert_eq!(channel.pending(), 0);
    assert_eq!(d.queued(), 0);
}

#[test]
fn the_probe_tells_the_byte_order() {
    assert_eq!(ByteOrder::from_probe(1), ByteOrder::Little);
    assert_eq!(ByteOrder::from_probe(256), ByteOrder::Big);
    assert_eq!(ByteOrder::from_probe(u16::from_le_bytes([1, 0])), ByteOrder::Little);
    assert_eq!(ByteOrder::from_probe(u16::from_be_bytes([1, 0])), ByteOrder::Big);
    assert_eq!(ByteOrder::native(), ByteOrder::from_probe(u16::from_ne_bytes([1, 0])));
}

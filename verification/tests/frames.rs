use stblib::stbchat::error::CommunicationError;
use stblib::stbchat::net::{decode_frame, encode_frame, IncomingPacketStream, OutgoingPacketStream};

#[test]
fn frame_has_big_endian_length_prefix() {
    let frame = encode_frame(&[7u8; 300]).unwrap();
    assert_eq!(frame.len(), 302);
    assert_eq!(frame[0], 1);
    assert_eq!(frame[1], 44);
    assert_eq!(&frame[2..], &[7u8; 300][..]);
}

#[test]
fn frame_of_exactly_65535_bytes_is_accepted() {
    let payload = vec![1u8; 65535];
    let frame = encode_frame(&payload).unwrap();
    assert_eq!(frame.len(), 65537);
    assert_eq!(frame[0], 255);
    assert_eq!(frame[1], 255);
}

#[test]
fn frame_of_65536_bytes_is_refused() {
    let payload = vec![1u8; 65536];
    assert_eq!(encode_frame(&payload), Err(CommunicationError::PacketTooLarge(65536)));
}

#[test]
fn bare_prefix_is_an_incomplete_frame() {
    assert_eq!(decode_frame(&[0, 5]), Err(CommunicationError::FrameIncomplete));
    assert_eq!(decode_frame(&[0]), Err(CommunicationError::FrameIncomplete));
    assert_eq!(decode_frame(&[]), Err(CommunicationError::FrameIncomplete));
    assert_eq!(decode_frame(&[0, 2, 9]), Err(CommunicationError::FrameIncomplete));
}

#[test]
fn frame_round_trip() {
    let payload = vec![1u8, 2, 3, 4, 5];
    let frame = encode_frame(&payload).unwrap();
    assert_eq!(decode_frame(&frame), Ok((payload, 7)));
}

#[test]
fn two_writes_decode_as_two_frames() {
    let mut out = OutgoingPacketStream::wrap(Vec::new());
    out.write(b"first").unwrap();
    out.write(b"second!").unwrap();
    let bytes = out.unwrap();
    assert_eq!(bytes.len(), 2 + 5 + 2 + 7);
    let mut input = IncomingPacketStream::wrap(bytes);
    assert_eq!(input.read(), Ok(b"first".to_vec()));
    assert_eq!(input.read(), Ok(b"second!".to_vec()));
    assert_eq!(input.read(), Err(CommunicationError::FrameIncomplete));
    assert_eq!(input.unwrap(), Vec::<u8>::new());
}

#[test]
fn refused_write_leaves_the_stream_unchanged() {
    let mut out = OutgoingPacketStream::wrap(vec![9u8]);
    assert_eq!(out.write(&vec![0u8; 70000]), Err(CommunicationError::PacketTooLarge(70000)));
    out.inner_mut().push(8);
    assert_eq!(out.unwrap(), vec![9u8, 8]);
}

#[test]
fn failed_read_takes_nothing() {
    let mut input = IncomingPacketStream::wrap(vec![0, 1, 42, 0, 9, 1]);
    assert_eq!(input.read(), Ok(vec![42u8]));
    assert_eq!(input.read(), Err(CommunicationError::FrameIncomplete));
    assert_eq!(input.unwrap(), vec![0u8, 9, 1]);
}

#[test]
fn communication_error_messages() {
    assert_eq!(
        CommunicationError::PacketTooLarge(65536).message(),
        "Packet size too large, expected <=65535, got 65536"
    );
    assert_eq!(
        CommunicationError::PacketTooLarge(0).message(),
        "Packet size too large, expected <=65535, got 0"
    );
    assert_eq!(CommunicationError::UnknownTag.message(), "Unknown packet type");
    assert_eq!(
        CommunicationError::FrameIncomplete.message(),
        "Stream closed before the frame was complete"
    );
}

#[test]
fn decode_length_is_big_endian() {
    assert_eq!(stblib::stbchat::net::decode_length(0, 0), 0);
    assert_eq!(stblib::stbchat::net::decode_length(0, 255), 255);
    assert_eq!(stblib::stbchat::net::decode_length(1, 0), 256);
    assert_eq!(stblib::stbchat::net::decode_length(255, 255), 65535);
    assert_eq!(stblib::stbchat::net::decode_length(0x12, 0x34), 0x1234);
}

#[test]
fn empty_payload_is_a_whole_frame() {
    assert_eq!(encode_frame(&[]), Ok(vec![0u8, 0]));
    assert_eq!(decode_frame(&[0, 0]), Ok((vec![], 2)));
    assert_eq!(decode_frame(&[0, 0, 7]), Ok((vec![], 2)));
}

#[test]
fn fed_bytes_follow_what_is_unread() {
    let mut input = IncomingPacketStream::wrap(vec![0, 3, 1]);
    assert_eq!(input.read(), Err(CommunicationError::FrameIncomplete));
    input.feed(&[2]);
    assert_eq!(input.read(), Err(CommunicationError::FrameIncomplete));
    input.feed(&[3, 0, 1, 9, 0]);
    assert_eq!(input.read(), Ok(vec![1u8, 2, 3]));
    assert_eq!(input.read(), Ok(vec![9u8]));
    assert_eq!(input.read(), Err(CommunicationError::FrameIncomplete));
    input.feed(&[0]);
    assert_eq!(input.read(), Ok(vec![]));
    assert_eq!(input.unwrap(), Vec::<u8>::new());
}

#[test]
fn taken_bytes_leave_the_stream_empty() {
    let mut out = OutgoingPacketStream::wrap(Vec::new());
    out.write(&[5, 6]).unwrap();
    assert_eq!(out.take_bytes(), vec![0u8, 2, 5, 6]);
    assert_eq!(out.take_bytes(), Vec::<u8>::new());
    out.write(&[7]).unwrap();
    assert_eq!(out.unwrap(), vec![0u8, 1, 7]);
}

#[test]
fn frame_keeps_length_and_payload_together() {
    let frame = stblib::stbchat::net::Frame::new(vec![1, 2, 3]).unwrap();
    assert_eq!(frame.length(), 3);
    assert_eq!(frame.payload(), &vec![1u8, 2, 3]);
    assert_eq!(frame.to_bytes(), vec![0u8, 3, 1, 2, 3]);
    let (back, used) = stblib::stbchat::net::Frame::from_bytes(&[0, 3, 1, 2, 3, 4]).unwrap();
    assert_eq!(used, 5);
    assert_eq!(back.into_payload(), vec![1u8, 2, 3]);
    assert!(matches!(
        stblib::stbchat::net::Frame::new(vec![0; 65536]),
        Err(CommunicationError::PacketTooLarge(65536))
    ));
    assert!(matches!(
        stblib::stbchat::net::Frame::from_bytes(&[0, 3, 1, 2]),
        Err(CommunicationError::FrameIncomplete)
    ));
}

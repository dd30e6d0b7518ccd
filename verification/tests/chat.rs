use p2p_rust::utils::behaviour::{handle_chat_event, pong_response, ChatAction, ChatEvent};
use p2p_rust::utils::chat::{
    ChatCodec, ChatMessage, ChatProtocol, ChatRequest, ChatResponse, Message, PingMessage,
    PongMessage, RequestMessage, ResponseMessage,
};
use p2p_rust::utils::frame::{
    decode_frame, decode_frame_length, decode_u32_be, encode_frame,
    encode_length_prefix, encode_u32_be, FrameError, LENGTH_PREFIX_LEN,
};

#[test]
fn test_chat_codec_roundtrip() {
    let mut codec = ChatCodec;
    let request = ChatRequest(b"Hello world".to_vec());

    let write_buffer = codec.write_request(&ChatProtocol, request.clone());

    let (received, used) = codec.read_request(&ChatProtocol, &write_buffer).unwrap();
    assert_eq!(received.0, request.0);
    assert_eq!(used, write_buffer.len());
}

#[test]
fn request_frame_is_big_endian_length_then_payload() {
    let mut codec = ChatCodec;
    let bytes = codec.write_request(&ChatProtocol, ChatRequest(b"Hello world".to_vec()));
    let mut expected = vec![0u8, 0, 0, 11];
    expected.extend_from_slice(b"Hello world");
    assert_eq!(bytes, expected);
}

#[test]
fn response_frame_is_big_endian_length_then_payload() {
    let mut codec = ChatCodec;
    let bytes = codec.write_response(&ChatProtocol, ChatResponse(vec![7u8; 300]));
    assert_eq!(bytes.len(), 304);
    assert_eq!(&bytes[..4], &[0u8, 0, 1, 44]);
    assert!(bytes[4..].iter().all(|b| *b == 7));
}

#[test]
fn response_roundtrip_with_trailing_bytes() {
    let mut codec = ChatCodec;
    let mut bytes = codec.write_response(&ChatProtocol, ChatResponse(b"PONG".to_vec()));
    bytes.extend_from_slice(&[9, 9, 9]);
    let (response, used) = codec.read_response(&ChatProtocol, &bytes).unwrap();
    assert_eq!(response.0, b"PONG".to_vec());
    assert_eq!(used, 8);
}

#[test]
fn empty_request_is_refused() {
    let mut codec = ChatCodec;
    let bytes = codec.write_request(&ChatProtocol, ChatRequest(Vec::new()));
    assert_eq!(bytes, vec![0u8, 0, 0, 0]);
    let res = codec.read_request(&ChatProtocol, &bytes);
    assert!(matches!(res, Err(FrameError::EmptyMessage)));
}

#[test]
fn empty_response_is_refused() {
    let mut codec = ChatCodec;
    let bytes = codec.write_response(&ChatProtocol, ChatResponse(Vec::new()));
    assert_eq!(bytes, vec![0u8, 0, 0, 0]);
    let res = codec.read_response(&ChatProtocol, &bytes);
    assert!(matches!(res, Err(FrameError::EmptyMessage)));
}

#[test]
fn request_and_response_reads_agree() {
    let mut codec = ChatCodec;
    for buf in [vec![0u8, 0, 0, 0, 1], vec![0u8, 0, 0, 2, 5], vec![0u8, 0, 0, 2, 5, 6, 7], vec![0u8]] {
        let req = codec.read_request(&ChatProtocol, &buf);
        let res = codec.read_response(&ChatProtocol, &buf);
        match (req, res) {
            (Ok((q, n)), Ok((r, m))) => {
                assert_eq!(q.0, r.0);
                assert_eq!(n, m);
            }
            (Err(e), Err(f)) => assert_eq!(e, f),
            _ => panic!("request and response reads disagree"),
        }
    }
}

#[test]
fn short_length_field_is_unexpected_eof() {
    let mut codec = ChatCodec;
    assert!(matches!(
        codec.read_request(&ChatProtocol, &[0, 0, 1]),
        Err(FrameError::UnexpectedEof)
    ));
    assert!(matches!(
        codec.read_response(&ChatProtocol, &[]),
        Err(FrameError::UnexpectedEof)
    ));
}

#[test]
fn short_payload_is_unexpected_eof() {
    let mut codec = ChatCodec;
    let buf = [0u8, 0, 0, 5, 1, 2, 3, 4];
    assert!(matches!(
        codec.read_request(&ChatProtocol, &buf),
        Err(FrameError::UnexpectedEof)
    ));
    assert!(matches!(
        codec.read_response(&ChatProtocol, &buf),
        Err(FrameError::UnexpectedEof)
    ));
}

#[test]
fn read_takes_exactly_one_frame() {
    let buf = [0u8, 0, 0, 2, 10, 20, 0, 0, 0, 1, 30];
    let (first, used) = decode_frame(&buf).unwrap();
    assert_eq!(first, vec![10u8, 20]);
    assert_eq!(used, 6);
    let (second, used2) = decode_frame(&buf[used..]).unwrap();
    assert_eq!(second, vec![30u8]);
    assert_eq!(used2, 5);
}

#[test]
fn decoded_frame_reencodes_to_its_bytes() {
    let buf = [0u8, 0, 0, 3, 1, 2, 3, 99];
    let (payload, used) = decode_frame(&buf).unwrap();
    assert_eq!(encode_frame(&payload), buf[..used].to_vec());
}

#[test]
fn length_prefix_helpers() {
    assert_eq!(encode_u32_be(0x0102_0304), [1, 2, 3, 4]);
    assert_eq!(decode_u32_be([1, 2, 3, 4]), 0x0102_0304);
    assert_eq!(decode_u32_be(encode_u32_be(u32::MAX)), u32::MAX);
    assert_eq!(encode_length_prefix(258), [0, 0, 1, 2]);
    assert!(matches!(
        decode_frame_length([0, 0, 0, 0]),
        Err(FrameError::EmptyMessage)
    ));
    assert_eq!(decode_frame_length([0, 0, 1, 0]).unwrap(), 256);
    assert_eq!(decode_frame_length([255, 255, 255, 255]).unwrap(), u32::MAX as usize);
}

#[test]
fn length_field_wraps_above_u32() {
    if usize::BITS == 64 {
        let len = (u32::MAX as u64 + 1 + 5) as usize;
        assert_eq!(encode_length_prefix(len), [0, 0, 0, 5]);
    }
}

#[test]
fn protocol_name_is_chat_request_v1() {
    assert_eq!(ChatProtocol.protocol_name(), "/p2p/chat/request/1.0.0");
}

#[test]
fn every_request_is_answered_with_pong() {
    assert_eq!(pong_response().0, b"PONG".to_vec());
    for payload in [Vec::new(), b"hello".to_vec(), vec![0u8; 1000]] {
        match handle_chat_event(ChatEvent::Request(ChatRequest(payload))) {
            ChatAction::Respond(response) => assert_eq!(response.0, b"PONG".to_vec()),
            ChatAction::Ignore => panic!("a request must be answered"),
        }
    }
}

#[test]
fn responses_and_other_events_are_ignored() {
    assert!(matches!(
        handle_chat_event(ChatEvent::Response(ChatResponse(b"PONG".to_vec()))),
        ChatAction::Ignore
    ));
    assert!(matches!(handle_chat_event(ChatEvent::Other), ChatAction::Ignore));
}

#[test]
fn messages_keep_their_number() {
    assert_eq!(PingMessage::new(1).id(), 1);
    assert_eq!(PongMessage::new(2).id(), 2);
    assert_eq!(ChatMessage::new(3).id(), 3);
    assert_eq!(RequestMessage::new(4).id(), 4);
    assert_eq!(ResponseMessage::new(u64::MAX).id(), u64::MAX);
    let m = Message::Ping(PingMessage::new(7));
    assert_eq!(m, Message::Ping(PingMessage::new(7)));
    assert_ne!(m, Message::Pong(PongMessage::new(7)));
}

use bytes::BytesMut;
use fectl::buffer::held;
use fectl::codec::MasterTransportCodec;
use fectl::types::{MasterRequest, MasterResponse};
use serde_json::Value;

fn parse(bytes: &[u8]) -> Result<MasterRequest, serde_json::Error> {
    let value: Value = serde_json::from_slice(bytes)?;
    Ok(match value["cmd"].as_str() {
        Some("Start") => MasterRequest::Start(value["data"].as_str().unwrap_or("").to_string()),
        _ => MasterRequest::Ping,
    })
}

#[test]
fn empty_buffer_holds_no_frame() {
    let mut codec = MasterTransportCodec;
    let mut src = BytesMut::new();
    assert!(codec.decode_frame(&mut src).is_none());
    assert_eq!(src.len(), 0);
}

#[test]
fn frame_is_length_then_body() {
    let mut codec = MasterTransportCodec;
    let mut dst = BytesMut::new();
    codec.encode_frame(b"abc", &mut dst);
    assert_eq!(&dst[..], &[0u8, 3, b'a', b'b', b'c'][..]);
    codec.encode_frame(&[7u8; 0x0102], &mut dst);
    assert_eq!(&dst[5..8], &[1u8, 2, 7][..]);
    assert_eq!(dst.len(), 5 + 2 + 0x0102);
}

#[test]
fn frame_is_appended() {
    let mut codec = MasterTransportCodec;
    let mut dst = BytesMut::from(&b"xy"[..]);
    codec.encode_frame(b"", &mut dst);
    assert_eq!(&dst[..], &[b'x', b'y', 0, 0][..]);
}

#[test]
fn decode_gives_back_what_was_encoded() {
    let mut codec = MasterTransportCodec;
    for len in [0usize, 1, 2, 30, 31, 32, 255, 256, 257, 65534, 65535] {
        let message: Vec<u8> = (0..len).map(|i| (i % 251) as u8).collect();
        let mut buf = BytesMut::new();
        codec.encode_frame(&message, &mut buf);
        buf.extend_from_slice(b"more");
        let body = codec.decode_frame(&mut buf).unwrap();
        assert_eq!(&body[..], &message[..]);
        assert_eq!(&buf[..], &b"more"[..]);
    }
}

#[test]
fn message_too_long_for_the_header_is_cut() {
    let mut codec = MasterTransportCodec;
    let message: Vec<u8> = (0..65536 + 3).map(|i| (i % 251) as u8).collect();
    let mut buf = BytesMut::new();
    codec.encode_frame(&message, &mut buf);
    assert_eq!(&buf[..2], &[0u8, 3][..]);
    assert_eq!(buf.len(), 2 + message.len());
    let body = codec.decode_frame(&mut buf).unwrap();
    assert_eq!(&body[..], &message[..3]);
    assert_eq!(&buf[..], &message[3..]);
}

#[test]
fn partial_frame_stays_until_complete() {
    let mut codec = MasterTransportCodec;
    let mut whole = BytesMut::new();
    codec.encode_frame(b"hello", &mut whole);
    let mut src = BytesMut::new();
    for i in 0..whole.len() - 1 {
        src.extend_from_slice(&whole[i..i + 1]);
        assert!(codec.decode_frame(&mut src).is_none());
        assert_eq!(&src[..], &whole[..i + 1]);
    }
    src.extend_from_slice(&whole[whole.len() - 1..]);
    assert_eq!(&codec.decode_frame(&mut src).unwrap()[..], &b"hello"[..]);
    assert_eq!(src.len(), 0);
}

#[test]
fn stream_of_messages_is_read_in_order() {
    let mut codec = MasterTransportCodec;
    let messages: [&[u8]; 4] = [b"one", b"", b"three", b"4"];
    let mut buf = BytesMut::new();
    for message in messages {
        codec.encode_frame(message, &mut buf);
    }
    for message in messages {
        assert_eq!(&codec.decode_frame(&mut buf).unwrap()[..], message);
    }
    assert!(codec.decode_frame(&mut buf).is_none());
    assert_eq!(buf.len(), 0);
}

#[test]
fn stream_may_arrive_in_any_pieces() {
    let mut codec = MasterTransportCodec;
    let messages: [&[u8]; 3] = [b"first", b"second", b"third"];
    let mut whole = BytesMut::new();
    for message in messages {
        codec.encode_frame(message, &mut whole);
    }
    for size in 1..whole.len() + 1 {
        let mut src = BytesMut::new();
        let mut seen: Vec<Vec<u8>> = Vec::new();
        for piece in whole.chunks(size) {
            src.extend_from_slice(piece);
            while let Some(body) = codec.decode_frame(&mut src) {
                seen.push(body.to_vec());
            }
        }
        assert_eq!(seen, messages.iter().map(|m| m.to_vec()).collect::<Vec<_>>());
    }
}

#[test]
fn request_is_parsed_from_the_body() {
    let mut codec = MasterTransportCodec;
    let mut buf = BytesMut::new();
    codec.encode_frame(br#"{"cmd":"Start","data":"web"}"#, &mut buf);
    codec.encode_frame(br#"{"cmd":"Ping"}"#, &mut buf);
    let first = codec.decode(&mut buf, parse).unwrap();
    assert_eq!(first, Some(MasterRequest::Start("web".to_string())));
    let second = codec.decode(&mut buf, parse).unwrap();
    assert_eq!(second, Some(MasterRequest::Ping));
    assert_eq!(codec.decode(&mut buf, parse).unwrap(), None);
}

#[test]
fn bad_request_is_an_error_and_is_gone() {
    let mut codec = MasterTransportCodec;
    let mut buf = BytesMut::new();
    codec.encode_frame(b"{", &mut buf);
    codec.encode_frame(br#"{"cmd":"Ping"}"#, &mut buf);
    assert!(codec.decode(&mut buf, parse).is_err());
    assert_eq!(codec.decode(&mut buf, parse).unwrap(), Some(MasterRequest::Ping));
}

#[test]
fn nothing_is_parsed_before_the_frame_is_there() {
    let mut codec = MasterTransportCodec;
    let mut src = BytesMut::from(&[0u8, 2, b'{'][..]);
    let r: Result<Option<MasterRequest>, ()> = codec.decode(&mut src, |_bytes: &[u8]| Err(()));
    assert_eq!(r, Ok(None));
    assert_eq!(&src[..], &[0u8, 2, b'{'][..]);
}

#[test]
fn response_is_framed_as_utf8() {
    let mut codec = MasterTransportCodec;
    let mut dst = BytesMut::new();
    let msg: MasterResponse<String, Vec<String>> =
        MasterResponse::ServiceStatus("\u{e9}".to_string());
    codec.encode(msg, &mut dst, |m: &MasterResponse<String, Vec<String>>| match m {
        MasterResponse::ServiceStatus(s) => serde_json::to_string(s).unwrap(),
        _ => String::new(),
    });
    assert_eq!(&dst[..], &[0u8, 4, b'"', 0xc3, 0xa9, b'"'][..]);
}

#[test]
fn held_is_the_number_of_bytes() {
    let mut buf = BytesMut::new();
    assert_eq!(held(&buf), 0);
    buf.extend_from_slice(&[1u8; 70]);
    assert_eq!(held(&buf), 70);
}

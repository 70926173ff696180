use reef::base64;
use reef::proto::{
    decode_frame, encode_frame, frame_length, parsed_envelope, parsed_frame, read_envelope,
    Envelope, Frame, FrameErrorKind, FrameReader, Notification, Payload, ReadFileResponse, Request,
    Response, MAX_FRAME_SIZE,
};
use serde_json::Value;

fn object(fields: Vec<(&str, Value)>) -> Value {
    let mut map = serde_json::Map::new();
    for (k, v) in fields {
        map.insert(k.to_string(), v);
    }
    Value::Object(map)
}

fn text(s: &str) -> Value {
    Value::String(s.to_string())
}

fn envelope_json(env: &Envelope) -> Value {
    match &env.body {
        Request::ReadFile { path, max_bytes } => object(vec![
            ("id", Value::from(env.id)),
            (
                "body",
                object(vec![
                    ("op", text("read_file")),
                    (
                        "args",
                        object(vec![
                            ("path", text(path)),
                            ("max_bytes", Value::from(*max_bytes)),
                        ]),
                    ),
                ]),
            ),
        ]),
        other => panic!("unexpected body: {other:?}"),
    }
}

fn envelope_of(bytes: &[u8]) -> Result<Envelope, String> {
    let v: Value = serde_json::from_slice(bytes).map_err(|e| e.to_string())?;
    let id = v.get("id").and_then(Value::as_u64).ok_or("missing id")?;
    let body = v.get("body").ok_or("missing body")?;
    let args = body.get("args").ok_or("missing args")?;
    match body.get("op").and_then(Value::as_str) {
        Some("read_file") => Ok(Envelope {
            id,
            body: Request::ReadFile {
                path: args.get("path").and_then(Value::as_str).ok_or("path")?.to_string(),
                max_bytes: args.get("max_bytes").and_then(Value::as_u64).ok_or("max_bytes")?,
            },
        }),
        other => Err(format!("unknown op {other:?}")),
    }
}

fn frame_of(bytes: &[u8]) -> Result<Frame, String> {
    let v: Value = serde_json::from_slice(bytes).map_err(|e| e.to_string())?;
    match v.get("kind").and_then(Value::as_str) {
        Some("notification") => match v.get("event").and_then(Value::as_str) {
            Some("fs_changed") => Ok(Frame::Notification(Notification::FsChanged)),
            other => Err(format!("unknown event {other:?}")),
        },
        Some("response") => Ok(Frame::Response(Response::Success {
            id: v.get("id").and_then(Value::as_u64).ok_or("missing id")?,
            result: Payload::Done,
        })),
        other => Err(format!("unknown kind {other:?}")),
    }
}

#[test]
fn envelope_roundtrip() {
    let env = Envelope {
        id: 42,
        body: Request::ReadFile { path: "src/main.rs".to_string(), max_bytes: 1024 },
    };
    let mut buf: Vec<u8> = Vec::new();
    let body = serde_json::to_vec(&envelope_json(&env)).unwrap();
    encode_frame(&mut buf, &body).unwrap();
    let mut reader = FrameReader::new(buf);
    let bytes = read_envelope(&mut reader).unwrap();
    let got = parsed_envelope(envelope_of(&bytes)).unwrap();
    assert_eq!(got.id, 42);
    match got.body {
        Request::ReadFile { path, max_bytes } => {
            assert_eq!(path, "src/main.rs");
            assert_eq!(max_bytes, 1024);
        }
        other => panic!("unexpected body: {other:?}"),
    }
}

#[test]
fn response_frame_roundtrip() {
    let result = object(vec![("ok", Value::Bool(true))]);
    let frame = object(vec![
        ("kind", text("response")),
        ("status", text("ok")),
        ("id", Value::from(7)),
        ("result", result.clone()),
    ]);
    let mut buf: Vec<u8> = Vec::new();
    encode_frame(&mut buf, &serde_json::to_vec(&frame).unwrap()).unwrap();
    let mut reader = FrameReader::new(buf);
    let bytes = decode_frame(&mut reader).unwrap();
    let back: Value = serde_json::from_slice(&bytes).unwrap();
    assert_eq!(back.get("result"), Some(&result));
    match parsed_frame(frame_of(&bytes)).unwrap() {
        Frame::Response(Response::Success { id, .. }) => assert_eq!(id, 7),
        other => panic!("unexpected frame: {other:?}"),
    }
}

#[test]
fn notification_frame_roundtrip() {
    let note = object(vec![("kind", text("notification")), ("event", text("fs_changed"))]);
    let mut buf: Vec<u8> = Vec::new();
    encode_frame(&mut buf, &serde_json::to_vec(&note).unwrap()).unwrap();
    let mut reader = FrameReader::new(buf);
    let bytes = decode_frame(&mut reader).unwrap();
    let got = parsed_frame(frame_of(&bytes)).unwrap();
    assert!(matches!(got, Frame::Notification(Notification::FsChanged)));
}

#[test]
fn truncated_length_prefix_is_unexpected_eof() {
    let mut reader = FrameReader::new(vec![0u8, 0, 1]);
    let err = decode_frame(&mut reader).unwrap_err();
    assert_eq!(err.kind(), FrameErrorKind::UnexpectedEof);
}

#[test]
fn oversized_length_rejected_as_invalid_data() {
    let mut buf: Vec<u8> = Vec::new();
    buf.extend_from_slice(&(MAX_FRAME_SIZE + 1).to_be_bytes());
    let mut reader = FrameReader::new(buf);
    let err = decode_frame(&mut reader).unwrap_err();
    assert_eq!(err.kind(), FrameErrorKind::InvalidData);
}

#[test]
fn truncated_body_is_unexpected_eof() {
    let mut buf: Vec<u8> = Vec::new();
    buf.extend_from_slice(&10u32.to_be_bytes());
    buf.extend_from_slice(b"oops");
    let mut reader = FrameReader::new(buf);
    let err = decode_frame(&mut reader).unwrap_err();
    assert_eq!(err.kind(), FrameErrorKind::UnexpectedEof);
}

#[test]
fn base64_roundtrip_all_lengths() {
    for n in 0..=64usize {
        let bytes: Vec<u8> = (0..n).map(|i| (i * 7) as u8).collect();
        let dto = ReadFileResponse { is_file: true, bytes: bytes.clone(), size: n as u64 };
        let json = serde_json::to_vec(&object(vec![
            ("is_file", Value::Bool(dto.is_file)),
            ("bytes", Value::String(base64::encode(&dto.bytes))),
            ("size", Value::from(dto.size)),
        ]))
        .unwrap();
        let decoded: Value = serde_json::from_slice(&json).unwrap();
        let back = base64::decode(decoded.get("bytes").and_then(Value::as_str).unwrap()).unwrap();
        assert_eq!(back, bytes, "n={n}");
    }
}

#[test]
fn frame_carries_its_length_first() {
    let mut buf: Vec<u8> = vec![9];
    encode_frame(&mut buf, b"hi").unwrap();
    assert_eq!(buf, vec![9, 0, 0, 0, 2, b'h', b'i']);
    assert_eq!(frame_length(&[0, 0, 1, 2]).unwrap(), 258);
}

#[test]
fn largest_frame_is_accepted_and_one_more_is_not() {
    let limit = MAX_FRAME_SIZE.to_be_bytes();
    assert_eq!(frame_length(&limit).unwrap(), MAX_FRAME_SIZE);
    let over = (MAX_FRAME_SIZE + 1).to_be_bytes();
    let err = frame_length(&over).unwrap_err();
    assert_eq!(err.kind(), FrameErrorKind::InvalidData);
    assert_eq!(
        err.message,
        format!("frame length {} exceeds MAX_FRAME_SIZE {}", MAX_FRAME_SIZE + 1, MAX_FRAME_SIZE)
    );
}

#[test]
fn two_frames_are_read_one_after_the_other() {
    let mut buf: Vec<u8> = Vec::new();
    encode_frame(&mut buf, b"one").unwrap();
    encode_frame(&mut buf, b"").unwrap();
    encode_frame(&mut buf, b"three").unwrap();
    let mut reader = FrameReader::new(buf);
    assert_eq!(decode_frame(&mut reader).unwrap(), b"one".to_vec());
    assert_eq!(decode_frame(&mut reader).unwrap(), Vec::<u8>::new());
    assert_eq!(read_envelope(&mut reader).unwrap(), b"three".to_vec());
    assert_eq!(decode_frame(&mut reader).unwrap_err().kind(), FrameErrorKind::UnexpectedEof);
}

#[test]
fn body_that_does_not_parse_is_invalid_data() {
    let err = parsed_frame(Err("bad".to_string())).unwrap_err();
    assert_eq!(err.kind(), FrameErrorKind::InvalidData);
    assert_eq!(err.message, "frame decode: bad");
    let err = parsed_envelope(Err("bad".to_string())).unwrap_err();
    assert_eq!(err.kind(), FrameErrorKind::InvalidData);
    assert_eq!(err.message, "envelope decode: bad");
}

#[test]
fn base64_known_values() {
    assert_eq!(base64::encode(b""), "");
    assert_eq!(base64::encode(b"f"), "Zg==");
    assert_eq!(base64::encode(b"fo"), "Zm8=");
    assert_eq!(base64::encode(b"foo"), "Zm9v");
    assert_eq!(base64::encode(b"foobar"), "Zm9vYmFy");
    assert_eq!(base64::encode(&[0xfb, 0xff, 0xfe]), "+//+");
    assert_eq!(base64::decode("Zm9vYg==").unwrap(), b"foob".to_vec());
}

#[test]
fn base64_rejects_bad_input() {
    assert_eq!(base64::decode("abc").unwrap_err(), "base64 length 3 not a multiple of 4");
    assert_eq!(base64::decode("Zg=v").unwrap_err(), "base64: non-pad after pad");
    assert_eq!(base64::decode("ab*d").unwrap_err(), "invalid base64 char 0x2a");
}

#[test]
fn response_id_is_that_of_either_kind() {
    let ok = Response::Success { id: 3, result: Payload::Done };
    assert_eq!(ok.id(), 3);
    let err = Response::Failure {
        id: 4,
        code: reef::proto::ErrorCode::Io,
        message: "x".to_string(),
    };
    assert_eq!(err.id(), 4);
}

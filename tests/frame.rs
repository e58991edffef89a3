use to_concentrate::connection::{Connection, ReceiveFrameError};
use to_concentrate::frame::{Frame, ParseFrameError};

fn raw_frame(payload: &[u8]) -> Vec<u8> {
    let mut raw = vec![b'+'];
    raw.extend_from_slice(&(payload.len() as u64).to_be_bytes());
    raw.extend_from_slice(payload);
    raw
}

#[test]
fn frame_parse() {
    let inner = br#"
            {
                "type": "Response",
                "method": "Query",
                "stage": "Preparation",
                "total": {
                    "secs": 20,
                    "nanos": 0
                },
                "remaining": {
                    "secs": 15,
                    "nanos": 0
                },
                "past": {
                    "secs": 5,
                    "nanos": 0
                }
            }
        "#;
    let mut raw = raw_frame(inner);
    raw.extend_from_slice(b"whatever");

    let (actual, offset) = Frame::parse(&raw).unwrap();
    assert_eq!(actual, Frame::new(inner.to_vec()));
    assert_eq!(offset, 9 + inner.len());
    assert_eq!(&raw[offset..], b"whatever");
}

#[test]
fn frame_parse_error_incomplete() {
    let raw: Vec<u8> = Vec::new();
    assert!(matches!(Frame::parse(&raw), Err(ParseFrameError::Incomplete)));

    let mut raw = vec![b'+'];
    raw.extend_from_slice(&10u64.to_be_bytes());
    assert!(matches!(Frame::parse(&raw), Err(ParseFrameError::Incomplete)));

    let mut raw = vec![b'+'];
    raw.extend_from_slice(&20u64.to_be_bytes());
    raw.extend_from_slice(b"not enough");
    assert!(matches!(Frame::parse(&raw), Err(ParseFrameError::Incomplete)));
}

#[test]
fn frame_parse_error_invalid_start() {
    let raw = b"?".to_vec();
    assert!(matches!(Frame::parse(&raw), Err(ParseFrameError::InvalidStart)));
}

#[test]
fn frame_parse_error_invalid_length() {
    let mut raw = vec![b'+'];
    raw.extend_from_slice(&0u64.to_be_bytes());
    assert!(matches!(Frame::parse(&raw), Err(ParseFrameError::InvalidLength)));
}

#[test]
fn frame_header_shorter_than_nine_bytes_is_incomplete() {
    let raw = vec![b'+', 0, 0, 0];
    assert!(matches!(Frame::parse(&raw), Err(ParseFrameError::Incomplete)));
}

#[test]
fn frame_wrong_start_in_long_buffer() {
    let mut raw = raw_frame(b"payload");
    raw[0] = b'-';
    assert!(matches!(Frame::parse(&raw), Err(ParseFrameError::InvalidStart)));
}

#[test]
fn frame_write_then_parse() {
    let frame = Frame::new(b"{\"type\":\"Request\",\"method\":\"Pause\"}".to_vec());
    let mut out = Vec::new();
    frame.write(&mut out);
    assert_eq!(out, raw_frame(frame.data()));
    let (back, offset) = Frame::parse(&out).unwrap();
    assert_eq!(back, frame);
    assert_eq!(offset, out.len());
}

#[test]
fn frame_length_is_big_endian() {
    let payload = vec![7u8; 300];
    let mut out = Vec::new();
    Frame::new(payload.clone()).write(&mut out);
    assert_eq!(&out[..9], &[b'+', 0, 0, 0, 0, 0, 0, 1, 44]);
    assert_eq!(&out[9..], &payload[..]);
}

fn new_frame() -> (Frame, Vec<u8>) {
    let frame = Frame::new(br#"{"type":"Response","method":"Skip"}"#.to_vec());
    let mut buffer = Vec::with_capacity(256);
    frame.write(&mut buffer);
    (frame, buffer)
}

#[test]
fn connection_send() {
    let (frame, expected) = new_frame();
    let connection = Connection::new();
    assert_eq!(connection.send(&frame), expected);
}

#[test]
fn connection_receive() {
    let (expected, buffer) = new_frame();
    let mut connection = Connection::new();
    for _ in 0..64 {
        connection.fill(&buffer).unwrap();
    }
    for _ in 0..64 {
        assert_eq!(connection.receive().unwrap(), Some(expected.clone()));
    }
    assert_eq!(connection.receive().unwrap(), None);
}

#[test]
fn connection_receive_in_pieces() {
    let (expected, buffer) = new_frame();
    let mut connection = Connection::new();
    for (i, byte) in buffer[..buffer.len() - 1].iter().enumerate() {
        connection.fill(&[*byte]).unwrap();
        assert_eq!(connection.receive().unwrap(), None);
        assert_eq!(connection.len(), i + 1);
    }
    connection.fill(&buffer[buffer.len() - 1..]).unwrap();
    connection.fill(b"+").unwrap();
    assert_eq!(connection.receive().unwrap(), Some(expected));
    assert_eq!(connection.len(), 1);
}

#[test]
fn connection_receive_error_invalid_start() {
    let mut connection = Connection::new();
    connection.fill(b"?whatever").unwrap();
    assert_eq!(
        connection.receive(),
        Err(ReceiveFrameError::Parse { source: ParseFrameError::InvalidStart })
    );
}

#[test]
fn connection_receive_error_closed() {
    let (expected, buffer) = new_frame();
    let mut connection = Connection::new();
    connection.fill(&buffer).unwrap();
    assert_eq!(connection.receive().unwrap(), Some(expected));
    assert_eq!(connection.receive().unwrap(), None);
    assert_eq!(connection.fill(&[]), Err(ReceiveFrameError::Closed));
}

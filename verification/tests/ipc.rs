use bincode::config::standard;
use portty::ipc::frame::{read_message, write_message, FrameError};
use portty::ipc::protocol::{
    DaemonRequest, DaemonResponse, Request, Response, SessionRequest, SessionResponse,
};

type TestMessage = (u32, String, Vec<i64>);

fn encode(msg: &TestMessage) -> Vec<u8> {
    bincode::encode_to_vec(msg, standard()).unwrap()
}

fn decode(bytes: &[u8]) -> TestMessage {
    let (msg, _): (TestMessage, usize) = bincode::decode_from_slice(bytes, standard()).unwrap();
    msg
}

#[test]
fn test_write_read_roundtrip() {
    let message: TestMessage = (42, "hello".into(), vec![1, 2, 3]);

    let buf = write_message(&encode(&message)).unwrap();
    let (payload, used) = read_message(&buf).unwrap();

    assert_eq!(used, buf.len());
    assert_eq!(decode(&payload), message);
}

#[test]
fn test_message_format() {
    let msg: TestMessage = (1, "x".into(), vec![]);

    let buf = write_message(&encode(&msg)).unwrap();

    // First 4 bytes should be length prefix (little-endian u32)
    let len = u32::from_le_bytes([buf[0], buf[1], buf[2], buf[3]]) as usize;
    assert_eq!(len, buf.len() - 4, "Length prefix should match payload size");
}

#[test]
fn test_multiple_messages() {
    let msg1: TestMessage = (1, "a".into(), vec![]);
    let msg2: TestMessage = (2, "b".into(), vec![10, 20]);

    let mut buf = write_message(&encode(&msg1)).unwrap();
    buf.extend(write_message(&encode(&msg2)).unwrap());

    let (first, used) = read_message(&buf).unwrap();
    let (second, _) = read_message(&buf[used..]).unwrap();

    assert_eq!(decode(&first), msg1);
    assert_eq!(decode(&second), msg2);
}

#[test]
fn test_empty_string() {
    let msg: TestMessage = (0, String::new(), vec![]);

    let buf = write_message(&encode(&msg)).unwrap();
    let (payload, _) = read_message(&buf).unwrap();

    assert_eq!(decode(&payload).1, "");
}

#[test]
fn test_large_values() {
    let msg: TestMessage = (u32::MAX, "test".repeat(1000), (0..100).collect());

    let buf = write_message(&encode(&msg)).unwrap();
    let (payload, _) = read_message(&buf).unwrap();

    assert_eq!(decode(&payload), msg);
}

#[test]
fn test_read_incomplete_length() {
    // Only 2 bytes when we need 4
    let buf = vec![0u8, 1u8];
    let result = read_message(&buf);

    assert!(result.is_err());
}

#[test]
fn test_read_incomplete_payload() {
    // Length says 100 but only 2 bytes of payload
    let mut buf = vec![100u8, 0, 0, 0]; // length = 100
    buf.extend_from_slice(&[1, 2]); // only 2 bytes

    let result = read_message(&buf);

    assert!(result.is_err());
}

#[test]
fn test_ipc_error_display() {
    let io_err = FrameError::IncompleteLength;
    assert!(io_err.to_string().contains("IO error"));
}

#[test]
fn frame_bytes_are_exact() {
    assert_eq!(write_message(&[]).unwrap(), vec![0, 0, 0, 0]);
    assert_eq!(
        write_message(&[7, 8, 9]).unwrap(),
        vec![3, 0, 0, 0, 7, 8, 9]
    );
    let long = vec![0xabu8; 258];
    let framed = write_message(&long).unwrap();
    assert_eq!(&framed[..4], &[2, 1, 0, 0]);
    assert_eq!(read_message(&[1, 0, 0, 0, 5, 6]).unwrap(), (vec![5], 5));
    assert_eq!(read_message(&[1, 0, 0]), Err(FrameError::IncompleteLength));
    assert_eq!(
        read_message(&[2, 0, 0, 0, 5]),
        Err(FrameError::IncompletePayload)
    );
}

#[test]
fn test_session_to_daemon_request_conversion() {
    let session_req: SessionRequest = Request::Select(vec!["file:///a".into()]);
    let daemon_req: DaemonRequest = session_req.into();

    match daemon_req {
        Request::Select(v) => assert_eq!(v, vec!["file:///a"]),
        _ => panic!("Expected Select variant"),
    }
}

#[test]
fn test_session_to_daemon_response_conversion() {
    let session_resp: SessionResponse = Response::Okay;
    let daemon_resp: DaemonResponse = session_resp.into();

    assert!(matches!(daemon_resp, Response::Okay));
}

#[test]
fn conversions_keep_every_base_variant() {
    let resp: DaemonResponse = SessionResponse::Error("bad".into()).into();
    assert!(matches!(resp, Response::Error(e) if e == "bad"));
    let resp: DaemonResponse = SessionResponse::Selection(vec!["a".into()]).into();
    assert!(matches!(resp, Response::Selection(v) if v == vec!["a".to_string()]));
    let req: DaemonRequest = SessionRequest::Deselect(vec!["z".into()]).into();
    assert!(matches!(req, Request::Deselect(v) if v == vec!["z".to_string()]));
    let req: DaemonRequest = SessionRequest::Reset.into();
    assert!(matches!(req, Request::Reset));
    let req: DaemonRequest = SessionRequest::GetOptions.into();
    assert!(matches!(req, Request::GetOptions));
}

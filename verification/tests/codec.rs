use portty::codec::{read_request, read_response, write_request, write_response, IpcError, LineReader};
use portty::protocol::{Request, Response, SessionInfo};

#[test]
fn request_roundtrip() {
    let cases = vec![
        Request::Submit { session_id: None },
        Request::Submit {
            session_id: Some("abc".into()),
        },
        Request::List,
    ];

    for req in cases {
        let mut buf = String::new();
        write_request(&mut buf, &req).unwrap();

        let mut reader = LineReader::new(&buf);
        let decoded = read_request(&mut reader).unwrap();
        assert_eq!(decoded, req);
    }
}

#[test]
fn response_ok_roundtrip() {
    let mut buf = String::new();
    write_response(&mut buf, &Response::Okay).unwrap();

    let mut reader = LineReader::new(&buf);
    let decoded = read_response(&mut reader).unwrap();
    assert_eq!(decoded, Response::Okay);
}

#[test]
fn response_error_roundtrip() {
    let resp = Response::Error("something went wrong".into());
    let mut buf = String::new();
    write_response(&mut buf, &resp).unwrap();

    let mut reader = LineReader::new(&buf);
    let decoded = read_response(&mut reader).unwrap();
    assert_eq!(decoded, resp);
}

#[test]
fn codec_response_sessions_roundtrip() {
    let resp = Response::Sessions(vec![
        SessionInfo {
            id: "s1".into(),
            portal: "file-chooser".into(),
            operation: "open-file".into(),
            title: Some("Pick".into()),
            created: 12345,
            dir: "/tmp/a".into(),
        },
        SessionInfo {
            id: "s2".into(),
            portal: "screenshot".into(),
            operation: "screenshot".into(),
            title: None,
            created: 67890,
            dir: "/tmp/b".into(),
        },
    ]);

    let mut buf = String::new();
    write_response(&mut buf, &resp).unwrap();

    let mut reader = LineReader::new(&buf);
    let decoded = read_response(&mut reader).unwrap();
    assert_eq!(decoded, resp);
}

#[test]
fn eof_returns_error() {
    let mut reader = LineReader::new("");
    assert!(read_request(&mut reader).is_err());
    assert!(read_response(&mut reader).is_err());
}

#[test]
fn sequential_messages() {
    let req1 = Request::Submit { session_id: None };
    let req2 = Request::List;

    let mut buf = String::new();
    write_request(&mut buf, &req1).unwrap();
    write_request(&mut buf, &req2).unwrap();

    let mut reader = LineReader::new(&buf);
    assert_eq!(read_request(&mut reader).unwrap(), req1);
    assert_eq!(read_request(&mut reader).unwrap(), req2);
}

#[test]
fn empty_session_list_reads_as_ok() {
    let mut buf = String::new();
    write_response(&mut buf, &Response::Sessions(vec![])).unwrap();
    assert_eq!(buf, "ok\n");
    let mut reader = LineReader::new(&buf);
    assert_eq!(read_response(&mut reader).unwrap(), Response::Okay);
}

#[test]
fn response_reader_stops_after_terminator() {
    let mut reader = LineReader::new("a\tb\tc\t7\t/d\tT\r\nok\nerror: late\n");
    let first = read_response(&mut reader).unwrap();
    match first {
        Response::Sessions(v) => {
            assert_eq!(v.len(), 1);
            assert_eq!(v[0].created, 7);
            assert_eq!(v[0].title.as_deref(), Some("T"));
        }
        other => panic!("unexpected {other:?}"),
    }
    assert_eq!(
        read_response(&mut reader).unwrap(),
        Response::Error("late".into())
    );
    assert!(matches!(read_response(&mut reader), Err(IpcError::Io(_))));
}

#[test]
fn response_errors_carry_their_kind() {
    let mut reader = LineReader::new("not a session line\nok\n");
    match read_response(&mut reader) {
        Err(IpcError::Protocol(m)) => {
            assert_eq!(m, "expected at least 5 tab-separated fields, got 1")
        }
        other => panic!("unexpected {other:?}"),
    }
    let mut reader = LineReader::new("a\tb\tc\t1\td\n");
    match read_response(&mut reader) {
        Err(e @ IpcError::Io(_)) => assert_eq!(
            e.to_string(),
            "IO error: connection closed while reading response"
        ),
        other => panic!("unexpected {other:?}"),
    }
    let mut reader = LineReader::new("bogus\n");
    match read_request(&mut reader) {
        Err(e) => assert_eq!(e.to_string(), "protocol error: unknown command: bogus"),
        other => panic!("unexpected {other:?}"),
    }
}

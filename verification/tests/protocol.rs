use portty::protocol::{sanitize_field, Request, Response, SessionInfo};

#[test]
fn request_encode_decode_roundtrip() {
    let cases = vec![
        Request::Submit { session_id: None },
        Request::Submit {
            session_id: Some("abc".into()),
        },
        Request::Cancel { session_id: None },
        Request::Cancel {
            session_id: Some("xyz".into()),
        },
        Request::Verify { session_id: None },
        Request::Verify {
            session_id: Some("s1".into()),
        },
        Request::Reset { session_id: None },
        Request::Reset {
            session_id: Some("s2".into()),
        },
        Request::List,
    ];

    for req in cases {
        let encoded = req.encode();
        assert!(encoded.ends_with('\n'));
        let decoded = Request::decode(&encoded).unwrap();
        assert_eq!(decoded, req);
    }
}

#[test]
fn response_ok_encode() {
    assert_eq!(Response::Okay.encode(), "ok\n");
}

#[test]
fn response_error_encode() {
    assert_eq!(
        Response::Error("bad thing".into()).encode(),
        "error: bad thing\n"
    );
}

#[test]
fn protocol_response_sessions_roundtrip() {
    let info = SessionInfo {
        id: "sess-1".into(),
        portal: "file-chooser".into(),
        operation: "open-file".into(),
        title: Some("Pick a file".into()),
        created: 1234567890,
        dir: "/tmp/test".into(),
    };
    let resp = Response::Sessions(vec![info.clone()]);
    let encoded = resp.encode();

    // Should have session line + ok
    let lines: Vec<&str> = encoded.lines().collect();
    assert_eq!(lines.len(), 2);
    assert_eq!(lines[1], "ok");

    let decoded = SessionInfo::decode_line(lines[0]).unwrap();
    assert_eq!(decoded, info);
}

#[test]
fn session_info_no_title() {
    let info = SessionInfo {
        id: "s1".into(),
        portal: "screenshot".into(),
        operation: "screenshot".into(),
        title: None,
        created: 999,
        dir: "/tmp/x".into(),
    };
    let resp = Response::Sessions(vec![info.clone()]);
    let encoded = resp.encode();
    let lines: Vec<&str> = encoded.lines().collect();

    let decoded = SessionInfo::decode_line(lines[0]).unwrap();
    assert_eq!(decoded, info);
}

#[test]
fn decode_unknown_command() {
    assert!(Request::decode("foobar").is_err());
}

#[test]
fn decode_session_info_too_few_fields() {
    assert!(SessionInfo::decode_line("a\tb\tc").is_err());
}

#[test]
fn sanitize_title_with_tabs_and_newlines() {
    let info = SessionInfo {
        id: "s1".into(),
        portal: "file-chooser".into(),
        operation: "open-file".into(),
        title: Some("evil\ttitle\nhere".into()),
        created: 100,
        dir: "/tmp/x".into(),
    };
    let resp = Response::Sessions(vec![info]);
    let encoded = resp.encode();
    // Should produce exactly 2 lines: one session + ok
    let lines: Vec<&str> = encoded.lines().collect();
    assert_eq!(lines.len(), 2);
    assert_eq!(lines[1], "ok");
    // Tabs/newlines in title should be replaced with spaces
    let decoded = SessionInfo::decode_line(lines[0]).unwrap();
    assert_eq!(decoded.title.as_deref(), Some("evil title here"));
}

#[test]
fn sanitize_error_with_newline() {
    let resp = Response::Error("line1\nline2".into());
    let encoded = resp.encode();
    // Should be a single line
    assert_eq!(encoded.lines().count(), 1);
    assert_eq!(encoded, "error: line1 line2\n");
}

#[test]
fn request_encode_exact_lines() {
    assert_eq!(Request::List.encode(), "list\n");
    assert_eq!(
        Request::Reset {
            session_id: Some("a1".into())
        }
        .encode(),
        "reset a1\n"
    );
    assert_eq!(Request::Verify { session_id: None }.encode(), "verify\n");
}

#[test]
fn request_decode_keeps_rest_of_line_as_id() {
    assert_eq!(
        Request::decode("  cancel  two words \n").unwrap(),
        Request::Cancel {
            session_id: Some(" two words".into())
        }
    );
    assert_eq!(
        Request::decode("frobnicate now").unwrap_err(),
        "unknown command: frobnicate"
    );
}

#[test]
fn decode_line_error_messages() {
    assert_eq!(
        SessionInfo::decode_line("a\tb\tc").unwrap_err(),
        "expected at least 5 tab-separated fields, got 3"
    );
    assert_eq!(
        SessionInfo::decode_line("a\tb\tc\tx1\td").unwrap_err(),
        "invalid created timestamp: invalid digit found in string"
    );
    assert_eq!(
        SessionInfo::decode_line("a\tb\tc\t\td").unwrap_err(),
        "invalid created timestamp: cannot parse integer from empty string"
    );
    assert_eq!(
        SessionInfo::decode_line("a\tb\tc\t18446744073709551616\td").unwrap_err(),
        "invalid created timestamp: number too large to fit in target type"
    );
    let top = SessionInfo::decode_line("a\tb\tc\t+18446744073709551615\td").unwrap();
    assert_eq!(top.created, u64::MAX);
    assert_eq!(top.title, None);
}

#[test]
fn sanitize_field_replaces_each_break() {
    assert_eq!(sanitize_field("a\tb\nc\rd"), "a b c d");
    assert_eq!(sanitize_field("plain"), "plain");
}

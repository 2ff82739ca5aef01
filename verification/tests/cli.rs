use portty::cli::{
    cmd_list, cmd_show_queue, daemon_output, detect_context, parse_items, pick_session,
    print_command, run_command, run_daemon_command, run_session_command, session_output, to_uri,
    CliError, Command, Context, DaemonAction, Routed,
};
use portty::ipc::protocol::{
    DaemonExtension, DaemonResponseExtension, QueueStatusInfo, Request, Response, SessionInfo,
};
use portty::ipc::queue::{QueuedCommand, Submission};
use portty::portal_type::PortalType;

#[test]
fn uri_passthrough() {
    let cases = [
        "file:///home/user/test.txt",
        "http://example.com/file.txt",
        "https://example.com/file.txt",
    ];
    for uri in cases {
        assert_eq!(to_uri(uri, Ok("/work")).unwrap(), uri);
    }
}

#[test]
fn absolute_path_to_file_uri() {
    assert_eq!(
        to_uri("/home/user/test.txt", Ok("/work")).unwrap(),
        "file:///home/user/test.txt"
    );
}

#[test]
fn path_encoding() {
    assert_eq!(
        to_uri("/home/user/my file.txt", Ok("/work")).unwrap(),
        "file:///home/user/my%20file.txt"
    );
    assert!(to_uri("/path/with#hash", Ok("/work")).unwrap().contains("%23"));
    assert!(to_uri("/path/with?query", Ok("/work")).unwrap().contains("%3F"));
}

#[test]
fn relative_path_resolved() {
    let result = to_uri("relative/path.txt", Ok("/work/dir")).unwrap();
    assert!(result.starts_with("file://"));
    assert!(result.ends_with("relative/path.txt"));
}

#[test]
fn parse_items_converts_all() {
    let items = vec!["/a.txt".to_string(), "/b.txt".to_string()];
    let result = parse_items(&items, false, &[], Ok("/work")).unwrap();
    assert_eq!(result, vec!["file:///a.txt", "file:///b.txt"]);
}

#[test]
fn to_uri_exact_encodings() {
    assert_eq!(
        to_uri("rel/x y", Ok("/work/dir")).unwrap(),
        "file:///work/dir/rel/x%20y"
    );
    assert_eq!(
        to_uri("/a\"b<c>d`e{f}g\u{7f}", Ok("/")).unwrap(),
        "file:///a%22b%3Cc%3Ed%60e%7Bf%7Dg%7F"
    );
    assert_eq!(to_uri("/caf\u{e9}", Ok("/")).unwrap(), "file:///caf%C3%A9");
    assert_eq!(to_uri("/tab\there", Ok("/")).unwrap(), "file:///tab%09here");
    assert_eq!(to_uri("/100%", Ok("/")).unwrap(), "file:///100%");
}

#[test]
fn to_uri_without_working_directory() {
    match to_uri("rel", Err("gone")) {
        Err(e @ CliError::InvalidPath(_)) => assert_eq!(
            e.to_string(),
            "invalid path: failed to get current directory: gone"
        ),
        other => panic!("unexpected {other:?}"),
    }
    assert_eq!(to_uri("/abs", Err("gone")).unwrap(), "file:///abs");
    assert!(parse_items(&["/a".to_string(), "b".to_string()], false, &[], Err("gone")).is_err());
}

#[test]
fn percent_encoding_reads_back() {
    let path = "/home/u/with space#and?more/\u{4e2d}\u{6587}";
    let uri = to_uri(path, Ok("/")).unwrap();
    let encoded = uri.strip_prefix("file://").unwrap();
    let decoded = percent_encoding::percent_decode_str(encoded)
        .decode_utf8()
        .unwrap();
    assert_eq!(decoded, path);
}

#[test]
fn context_follows_the_environment() {
    assert!(matches!(detect_context(None), Context::Daemon));
    match detect_context(Some("/tmp/s/sock")) {
        Context::Session { socket_path } => assert_eq!(socket_path, "/tmp/s/sock"),
        other => panic!("unexpected {other:?}"),
    }
}

#[test]
fn session_commands_map_to_requests() {
    let sel = Command::Select {
        items: vec!["/a".into()],
        stdin: false,
    };
    match run_session_command(&sel, &[], Ok("/")).unwrap() {
        Request::Select(v) => assert_eq!(v, vec!["file:///a"]),
        other => panic!("unexpected {other:?}"),
    }
    let none = Command::Select {
        items: vec![],
        stdin: false,
    };
    assert!(matches!(
        run_session_command(&none, &[], Ok("/")).unwrap(),
        Request::GetSelection
    ));
    assert!(matches!(
        run_session_command(&Command::Reset, &[], Ok("/")).unwrap(),
        Request::Reset
    ));
    assert!(matches!(
        run_session_command(&Command::Submit { portal: None }, &[], Ok("/")).unwrap(),
        Request::Submit
    ));
}

#[test]
fn daemon_commands_queue() {
    let sel = Command::Select {
        items: vec!["/a b".into()],
        stdin: false,
    };
    match run_daemon_command(&sel, &[], Ok("/")) {
        DaemonAction::Send { request, done } => {
            assert_eq!(done, "Queued select");
            match request {
                Request::Extended(DaemonExtension::QueuePush(QueuedCommand::Select(v))) => {
                    assert_eq!(v, vec!["file:///a%20b"])
                }
                other => panic!("unexpected {other:?}"),
            }
        }
        other => panic!("unexpected {other:?}"),
    }
    match run_daemon_command(
        &Command::Submit {
            portal: Some("screenshot".into()),
        },
        &[],
        Ok("/"),
    ) {
        DaemonAction::Send { request, done } => {
            assert_eq!(done, "Submitted for [screenshot]");
            assert!(matches!(
                request,
                Request::Extended(DaemonExtension::QueueSubmit {
                    portal: Some(PortalType::Screenshot)
                })
            ));
        }
        other => panic!("unexpected {other:?}"),
    }
    match run_daemon_command(&Command::Submit { portal: None }, &[], Ok("/")) {
        DaemonAction::Send { done, .. } => assert_eq!(done, "Submitted for [any]"),
        other => panic!("unexpected {other:?}"),
    }
    match run_daemon_command(
        &Command::Submit {
            portal: Some("printer".into()),
        },
        &[],
        Ok("/"),
    ) {
        DaemonAction::Fail(out) => {
            assert_eq!(out.code, 1);
            assert_eq!(
                out.stderr,
                vec!["Error: invalid portal type: unknown portal type: printer"]
            );
        }
        other => panic!("unexpected {other:?}"),
    }
    assert!(matches!(
        run_daemon_command(
            &Command::Select {
                items: vec![],
                stdin: false
            },
            &[],
            Ok("/")
        ),
        DaemonAction::ShowSelection
    ));
}

#[test]
fn outputs_for_answers() {
    let ok = daemon_output("Queued clear", Ok(Response::Okay));
    assert_eq!((ok.code, ok.stdout.clone()), (0, vec!["Queued clear".to_string()]));
    let err = daemon_output("x", Ok(Response::Error("nope".into())));
    assert_eq!(err.code, 1);
    assert_eq!(err.stderr, vec!["Error: nope"]);
    let sel = session_output(Ok(Response::Selection(vec!["a".into(), "b".into()])));
    assert_eq!(sel.code, 0);
    assert_eq!(sel.stdout, vec!["a", "b"]);
    let failed = session_output(Err(CliError::Connection("refused".into())));
    assert_eq!(failed.code, 1);
    assert_eq!(failed.stderr, vec!["connection failed: refused"]);
}

fn info(id: &str, title: Option<&str>) -> SessionInfo {
    SessionInfo {
        id: id.into(),
        portal: PortalType::FileChooser,
        title: title.map(String::from),
        created: 1,
        socket_path: "/s".into(),
    }
}

#[test]
fn listing_sessions() {
    let none = cmd_list(Ok(Response::Extended(DaemonResponseExtension::Sessions(
        vec![],
    ))));
    assert_eq!(none.stdout, vec!["No active sessions"]);
    let two = cmd_list(Ok(Response::Extended(DaemonResponseExtension::Sessions(
        vec![info("a1", Some("Pick")), info("b2", None)],
    ))));
    assert_eq!(two.code, 0);
    assert_eq!(two.stdout, vec!["a1 [file-chooser] Pick", "b2 [file-chooser] "]);
}

#[test]
fn picking_the_session() {
    let (one, lines) = pick_session(false, Response::Extended(DaemonResponseExtension::Sessions(
        vec![info("only", None)],
    )));
    assert_eq!(one.unwrap().id, "only");
    assert!(lines.is_empty());
    let (many, lines) = pick_session(false, Response::Extended(DaemonResponseExtension::Sessions(
        vec![info("a", None), info("b", Some("T"))],
    )));
    assert_eq!(many.unwrap_err().to_string(), "multiple sessions active");
    assert_eq!(
        lines,
        vec![
            "Multiple sessions active, choose with --session:",
            "  a [file-chooser] ",
            "  b [file-chooser] T"
        ]
    );
    let (none, _) = pick_session(false, Response::Extended(DaemonResponseExtension::Sessions(
        vec![],
    )));
    assert_eq!(none.unwrap_err().to_string(), "no active sessions");
    let (named, lines) =
        pick_session(true, Response::Extended(DaemonResponseExtension::Session(info("s9", None))));
    assert_eq!(named.unwrap().id, "s9");
    assert!(lines.is_empty());
    let (listed, _) = pick_session(
        true,
        Response::Extended(DaemonResponseExtension::Sessions(vec![info("s9", None)])),
    );
    assert_eq!(listed.unwrap_err().to_string(), "unexpected response");
    let (single, _) =
        pick_session(false, Response::Extended(DaemonResponseExtension::Session(info("s9", None))));
    assert_eq!(single.unwrap_err().to_string(), "unexpected response");
    let (refused, _) = pick_session(true, Response::Error("unknown session".into()));
    assert_eq!(refused.unwrap_err().to_string(), "unknown session");
}

#[test]
fn printing_commands() {
    assert_eq!(
        print_command(2, &QueuedCommand::Select(vec!["x".into(), "y".into()]), "  "),
        vec!["  2. select 2 item(s)", "    x", "    y"]
    );
    assert_eq!(
        print_command(0, &QueuedCommand::Deselect(vec!["x".into()]), " "),
        vec![" deselect 1 item(s)", "   x"]
    );
    assert_eq!(print_command(0, &QueuedCommand::Clear, ""), vec!["clear"]);
    assert_eq!(print_command(7, &QueuedCommand::Clear, ">"), vec![">7. clear"]);
}

#[test]
fn showing_the_queue() {
    let empty = cmd_show_queue(Ok(Response::Extended(DaemonResponseExtension::QueueStatus(
        QueueStatusInfo {
            pending_count: 0,
            pending: vec![],
            submissions_count: 0,
            submissions: vec![],
        },
    ))));
    assert_eq!(empty.code, 0);
    assert_eq!(empty.stdout, vec!["Queue is empty"]);

    let full = cmd_show_queue(Ok(Response::Extended(DaemonResponseExtension::QueueStatus(
        QueueStatusInfo {
            pending_count: 2,
            pending: vec![QueuedCommand::Select(vec!["a".into()]), QueuedCommand::Clear],
            submissions_count: 2,
            submissions: vec![
                Submission {
                    commands: vec![QueuedCommand::Deselect(vec!["b".into(), "c".into()])],
                    created: 5,
                    portal: Some(PortalType::Screenshot),
                },
                Submission { commands: vec![], created: 6, portal: None },
            ],
        },
    ))));
    assert_eq!(full.code, 0);
    assert!(full.stderr.is_empty());
    assert_eq!(
        full.stdout,
        vec![
            "Pending commands (2):",
            "  1. select 1 item(s)",
            "    a",
            "  2. clear",
            "Submissions (2):",
            "  1. [screenshot] 1 command(s)",
            "       deselect 2 item(s)",
            "         b",
            "         c",
            "  2. [any] 0 command(s)",
        ]
    );

    let only_pending = cmd_show_queue(Ok(Response::Extended(
        DaemonResponseExtension::QueueStatus(QueueStatusInfo {
            pending_count: 1,
            pending: vec![QueuedCommand::Clear],
            submissions_count: 0,
            submissions: vec![],
        }),
    )));
    assert_eq!(only_pending.stdout, vec!["Pending commands (1):", "  1. clear"]);

    let refused = cmd_show_queue(Ok(Response::Error("no".into())));
    assert_eq!(refused.code, 1);
    assert_eq!(refused.stderr, vec!["Error: no"]);
}

#[test]
fn routing_by_context() {
    let inside = Context::Session { socket_path: "/run/s.sock".into() };
    match run_command(&inside, &Command::Submit { portal: None }, &[], Ok("/home/u")) {
        Routed::ToSession(path, Request::Submit) => assert_eq!(path, "/run/s.sock"),
        _ => panic!("a submit inside a session goes to the session"),
    }
    match run_command(
        &inside,
        &Command::Select { items: vec!["a".into()], stdin: false },
        &[],
        Ok("/home/u"),
    ) {
        Routed::ToSession(_, Request::Select(uris)) => {
            assert_eq!(uris, vec!["file:///home/u/a"])
        }
        _ => panic!("a select inside a session goes to the session"),
    }
    match run_command(
        &inside,
        &Command::Select { items: vec!["a".into()], stdin: false },
        &[],
        Err("gone"),
    ) {
        Routed::Fail(o) => {
            assert_eq!(o.code, 1);
            assert_eq!(o.stderr.len(), 1);
            assert!(o.stderr[0].starts_with("Error: "));
        }
        _ => panic!("without a working directory a relative path fails"),
    }
    match run_command(&Context::Daemon, &Command::Clear, &[], Ok("/")) {
        Routed::ToDaemon(DaemonAction::Send {
            request: Request::Extended(DaemonExtension::QueuePush(QueuedCommand::Clear)),
            done,
        }) => assert_eq!(done, "Queued clear"),
        _ => panic!("a clear outside a session is queued"),
    }
}

#[test]
fn select_reads_standard_input_when_told() {
    let lines = vec!["x".to_string(), String::new(), "/y z".to_string()];
    let from_stdin = Command::Select { items: vec!["ignored".into()], stdin: true };
    match run_session_command(&from_stdin, &lines, Ok("/w")).unwrap() {
        Request::Select(uris) => assert_eq!(uris, vec!["file:///w/x", "file:///y%20z"]),
        _ => panic!("a select with items selects"),
    }
    match run_daemon_command(&from_stdin, &lines, Ok("/w")) {
        DaemonAction::Send {
            request: Request::Extended(DaemonExtension::QueuePush(QueuedCommand::Select(uris))),
            done,
        } => {
            assert_eq!(uris, vec!["file:///w/x", "file:///y%20z"]);
            assert_eq!(done, "Queued select");
        }
        _ => panic!("a select with items is queued"),
    }
    let from_args = Command::Select { items: vec!["a".into()], stdin: false };
    match run_session_command(&from_args, &lines, Ok("/w")).unwrap() {
        Request::Select(uris) => assert_eq!(uris, vec!["file:///w/a"]),
        _ => panic!("a select with items selects"),
    }
    let nothing = vec![String::new()];
    assert!(matches!(
        run_session_command(&from_stdin, &nothing, Ok("/w")).unwrap(),
        Request::GetSelection
    ));
    assert_eq!(
        parse_items(&["a".to_string()], true, &lines, Ok("/w")).unwrap(),
        vec!["file:///w/x", "file:///y%20z"]
    );
    let deselect = Command::Deselect { items: vec!["a".into()] };
    match run_session_command(&deselect, &lines, Ok("/w")).unwrap() {
        Request::Deselect(uris) => assert_eq!(uris, vec!["file:///w/a"]),
        _ => panic!("a deselect deselects its items"),
    }
}

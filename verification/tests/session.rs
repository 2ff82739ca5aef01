use portty::daemon::portal::file_chooser::{
    build_save_files_uris, convert_filters, open_file, queued_result, save_file, save_files,
    session_reply, TtyFileChooser,
};
use portty::daemon::portal::screenshot::{
    pick_color, pick_color_reply, screenshot, screenshot_reply, PickedColor, TtyScreenshot,
};
use portty::daemon::portal::{
    create_failed, queued_submission_result, run_session, spawn_failed, SessionError,
};
use portty::daemon::config::Config;
use portty::daemon::dbus::screenshot::{
    reply_for, Reply, ResponseCode, ScreenshotError, ScreenshotOptions, ScreenshotPortal,
    ScreenshotResult,
};
use portty::daemon::session::{
    default_commands, drain_pending_to, outcome, parse_exec, pop_queued_submission,
    queue_dir_name, session_dir, session_env, truncate_pending_after, workspace_files,
    SelectionState, SessionId, SessionIds, SessionResult, Signal,
};
use portty::ipc::context::PortalContext;
use portty::ipc::file_chooser::{Filter, FilterPattern, SelectionMode, SessionOptions};
use portty::ipc::protocol::{Request, Response};
use portty::ipc::queue::{QueuedCommand, Submission};
use portty::ipc::screenshot::{ScreenshotMode, ScreenshotSessionOptions};
use portty::portal::file_chooser::PathKind;
use portty::portal::Probes;
use portty::types::file_chooser::{
    FileChooserError, FileFilter, OpenFileOptions, SaveFileOptions, SaveFilesOptions,
};
use std::sync::Arc;

fn strings(items: &[&str]) -> Vec<String> {
    items.iter().map(|s| s.to_string()).collect()
}

#[test]
fn zero_entries_on_submit_is_cancelled() {
    assert!(matches!(outcome(Signal::Submit, ""), SessionResult::Cancelled));
    assert!(matches!(outcome(Signal::Submit, "\n\n"), SessionResult::Cancelled));
    assert!(matches!(outcome(Signal::ChildExited, ""), SessionResult::Cancelled));
}

#[test]
fn outcome_by_signal() {
    match outcome(Signal::Submit, "a\nb\n") {
        SessionResult::Success { entries } => assert_eq!(entries, vec!["a", "b"]),
        other => panic!("unexpected {other:?}"),
    }
    match outcome(Signal::ChildExited, "only") {
        SessionResult::Success { entries } => assert_eq!(entries, vec!["only"]),
        other => panic!("unexpected {other:?}"),
    }
    assert!(matches!(outcome(Signal::Cancel, "a\n"), SessionResult::Cancelled));
    assert!(matches!(outcome(Signal::Disconnected, "a\n"), SessionResult::Cancelled));
    assert!(Signal::Submit.must_kill());
    assert!(Signal::Cancel.must_kill());
    assert!(!Signal::ChildExited.must_kill());
    assert!(!Signal::Disconnected.must_kill());
}

#[test]
fn workspace_has_its_files() {
    let custom = vec![
        ("sel".to_string(), "my-picker".to_string()),
        ("extra".to_string(), "echo hi".to_string()),
    ];
    let files = workspace_files(
        "file-chooser",
        "open-file",
        "{\n  \"title\": \"T\"\n}",
        &strings(&["a", "b"]),
        &custom,
    );
    let listed: Vec<(&str, bool)> = files.iter().map(|f| (f.path.as_str(), f.executable)).collect();
    assert_eq!(
        listed,
        vec![
            ("portal", false),
            ("options.json", false),
            ("submission", false),
            ("bin/desel", true),
            ("bin/reset", true),
            ("bin/submit", true),
            ("bin/cancel", true),
            ("bin/info", true),
            ("bin/sel", true),
            ("bin/extra", true),
        ]
    );
    assert_eq!(files[0].content, "file-chooser\nopen-file");
    assert_eq!(files[1].content, "{\n  \"title\": \"T\"\n}");
    assert_eq!(files[2].content, "a\nb\n");
    assert_eq!(files[3].content, "#!/bin/sh\nexec portty edit --remove \"$@\"\n");
    assert_eq!(files[5].content, "#!/bin/sh\nexec portty submit \"$@\"\n");
    assert_eq!(files[8].content, "#!/bin/sh\nmy-picker\n");
    assert_eq!(files[9].content, "#!/bin/sh\necho hi\n");
    let plain = workspace_files("screenshot", "pick-color", "{}", &[], &[]);
    assert_eq!(plain.len(), 9);
    assert_eq!(plain[2].content, "");
    assert_eq!(plain[3].path, "bin/sel");
    assert_eq!(plain[3].content, "#!/bin/sh\nexec portty edit \"$@\"\n");
    assert_eq!(default_commands("any").len(), 6);
}

#[test]
fn exec_line_is_split_at_white_space() {
    let (program, args) = parse_exec("  foot  -e   sh -c 'x y' ").unwrap();
    assert_eq!(program, "foot");
    assert_eq!(args, vec!["-e", "sh", "-c", "'x", "y'"]);
    let (program, args) = parse_exec("kitty").unwrap();
    assert_eq!(program, "kitty");
    assert!(args.is_empty());
    assert_eq!(parse_exec(" \t ").unwrap_err(), "empty exec command");
    assert_eq!(parse_exec("").unwrap_err(), "empty exec command");
}

#[test]
fn environment_of_the_terminal() {
    let env = session_env("id1", "/tmp/portty/1/id1", "file-chooser", "open-file", Some("/usr/bin:/bin"));
    assert_eq!(
        env,
        vec![
            ("PORTTY_SESSION".to_string(), "id1".to_string()),
            ("PORTTY_DIR".to_string(), "/tmp/portty/1/id1".to_string()),
            ("PORTTY_PORTAL".to_string(), "file-chooser".to_string()),
            ("PORTTY_OPERATION".to_string(), "open-file".to_string()),
            ("PATH".to_string(), "/tmp/portty/1/id1/bin:/usr/bin:/bin".to_string()),
        ]
    );
    let env = session_env("i", "/d", "p", "o", None);
    assert_eq!(env[4], ("PATH".to_string(), "/d/bin".to_string()));
}

#[test]
fn session_ids() {
    assert_eq!(SessionId::from_parts(0x1f, 0).as_str(), "1f-0");
    assert_eq!(SessionId::from_parts(0, 255).as_str(), "0-ff");
    assert_eq!(
        SessionId::from_parts(u128::MAX, u64::MAX).as_str(),
        "ffffffffffffffffffffffffffffffff-ffffffffffffffff"
    );
    let a = SessionId::new(1);
    let b = SessionId::new(2);
    assert_ne!(a, b);
    assert!(a.as_str().ends_with("-1"));
    assert_eq!(session_dir("/tmp/portty/7", &SessionId("abc".into())), "/tmp/portty/7/abc");
}

#[test]
fn pending_entries_drain_into_the_session() {
    let d = drain_pending_to("x\n\ny\n", "a\n");
    assert_eq!(d.submission, "a\nx\ny\n");
    assert_eq!(d.count, 2);
    let none = drain_pending_to("", "a\n");
    assert_eq!((none.submission.as_str(), none.count), ("a\n", 0));
    assert!(truncate_pending_after(true));
    assert!(!truncate_pending_after(false));
}

#[test]
fn queued_submissions_are_taken_oldest_first() {
    assert_eq!(queue_dir_name(1700000000123, None), "1700000000123-any");
    assert_eq!(queue_dir_name(5, Some("file-chooser")), "5-file-chooser");
    let names = strings(&[
        "1700000000300-any",
        "1700000000100-screenshot",
        "1700000000200-file-chooser",
        "stray",
        "1700000000250-any",
    ]);
    assert_eq!(pop_queued_submission(&names, "file-chooser"), Some(2));
    assert_eq!(pop_queued_submission(&names, "screenshot"), Some(1));
    assert_eq!(pop_queued_submission(&names, "printer"), Some(4));
    assert_eq!(pop_queued_submission(&strings(&["7-screenshot"]), "file-chooser"), None);
    assert_eq!(pop_queued_submission(&[], "file-chooser"), None);
    let older_specific = strings(&["100-file-chooser", "200-any"]);
    assert_eq!(pop_queued_submission(&older_specific, "file-chooser"), Some(0));
    let older_any = strings(&["200-file-chooser", "100-any"]);
    assert_eq!(pop_queued_submission(&older_any, "file-chooser"), Some(1));
}

#[test]
fn queued_submission_short_circuit() {
    let probes = Probes { first_entry: PathKind::Other, fractions_ok: false };
    let ctx = PortalContext::FileChooser(SessionOptions {
        current_folder: Some("/home/u".into()),
        ..SessionOptions::default()
    });
    assert!(matches!(
        queued_submission_result("file-chooser", "open-file", &[], &ctx, &probes),
        Err(SessionError::Cancelled)
    ));
    assert_eq!(
        queued_submission_result("file-chooser", "open-file", &strings(&["x"]), &ctx, &probes)
            .unwrap(),
        vec!["file:///home/u/x"]
    );
    match queued_submission_result("file-chooser", "open-file", &strings(&["x", "y"]), &ctx, &probes)
    {
        Err(SessionError::Other(m)) => assert_eq!(
            m,
            "queued submission invalid: Single-pick mode expects 1 entry, got 2"
        ),
        other => panic!("unexpected {other:?}"),
    }
}

#[test]
fn end_of_session_for_the_portal() {
    let probes = Probes { first_entry: PathKind::Other, fractions_ok: false };
    let ctx = PortalContext::FileChooser(SessionOptions {
        current_folder: Some("/home/u".into()),
        ..SessionOptions::default()
    });
    let ok = run_session(
        "file-chooser",
        "open-file",
        Ok(SessionResult::Success { entries: strings(&["a.txt"]) }),
        &ctx,
        &probes,
    );
    assert_eq!(ok.unwrap(), vec!["file:///home/u/a.txt"]);
    assert!(matches!(
        run_session("file-chooser", "open-file", Ok(SessionResult::Cancelled), &ctx, &probes),
        Err(SessionError::Cancelled)
    ));
    match run_session("file-chooser", "open-file", Err("boom".into()), &ctx, &probes) {
        Err(SessionError::Other(m)) => assert_eq!(m, "session failed: boom"),
        other => panic!("unexpected {other:?}"),
    }
    match run_session(
        "file-chooser",
        "save-file",
        Ok(SessionResult::Success { entries: strings(&["a", "b"]) }),
        &ctx,
        &probes,
    ) {
        Err(SessionError::Other(m)) => {
            assert_eq!(m, "submission invalid: Save mode expects 1 entry, got 2")
        }
        other => panic!("unexpected {other:?}"),
    }
    assert!(matches!(create_failed("x"), SessionError::Other(m) if m == "failed to create session: x"));
    assert!(matches!(spawn_failed("y"), SessionError::Other(m) if m == "failed to spawn: y"));
    let fc: FileChooserError = SessionError::Other("m".into()).into();
    assert!(matches!(fc, FileChooserError::Other(m) if m == "m"));
    let sc: ScreenshotError = SessionError::Cancelled.into();
    assert!(matches!(sc, ScreenshotError::Cancelled));
}

#[test]
fn selection_state_answers_requests() {
    let mut s = SelectionState::new(SessionOptions::default());
    s.initial = strings(&["i"]);
    assert!(matches!(s.handle_request(Request::Select(strings(&["a", "b", "a"]))), Response::Okay));
    assert!(matches!(s.handle_request(Request::Select(strings(&["b", "c"]))), Response::Okay));
    assert_eq!(s.selection, vec!["a", "b", "c"]);
    s.handle_request(Request::Deselect(strings(&["b", "zz"])));
    match s.handle_request(Request::GetSelection) {
        Response::Selection(v) => assert_eq!(v, vec!["a", "c"]),
        other => panic!("unexpected {other:?}"),
    }
    assert!(matches!(s.handle_request(Request::GetOptions), Response::Options(_)));
    assert!(!s.headless_done());
    s.handle_request(Request::Reset);
    assert_eq!(s.selection, vec!["i"]);
    s.handle_request(Request::Submit);
    assert!(s.headless_done());
    match s.clone().finish() {
        SessionResult::Success { entries } => assert_eq!(entries, vec!["i"]),
        other => panic!("unexpected {other:?}"),
    }
    s.handle_request(Request::Cancel);
    assert!(matches!(s.clone().finish(), SessionResult::Cancelled));
    let mut t = SelectionState::new(SessionOptions::default());
    t.apply_pending(vec![
        QueuedCommand::Select(strings(&["x", "y"])),
        QueuedCommand::Deselect(strings(&["x"])),
    ]);
    assert_eq!(t.selection, vec!["y"]);
    t.handle_request(Request::Clear);
    t.handle_request(Request::Submit);
    assert!(matches!(t.finish(), SessionResult::Cancelled));
}

#[test]
fn queued_commands_become_a_result() {
    let sub = Submission {
        commands: vec![
            QueuedCommand::Select(strings(&["a", "b"])),
            QueuedCommand::Deselect(strings(&["a"])),
            QueuedCommand::Select(strings(&["c"])),
        ],
        created: 1,
        portal: None,
    };
    assert_eq!(queued_result(&sub).unwrap().into_uris(), vec!["b", "c"]);
    let cleared = Submission {
        commands: vec![QueuedCommand::Select(strings(&["a"])), QueuedCommand::Clear],
        created: 1,
        portal: None,
    };
    assert!(matches!(queued_result(&cleared), Err(FileChooserError::Cancelled)));
    assert_eq!(
        session_reply(Ok(strings(&["u1", "u2"]))).unwrap().into_uris(),
        vec!["u1", "u2"]
    );
    assert!(matches!(
        session_reply(Err(SessionError::Cancelled)),
        Err(FileChooserError::Cancelled)
    ));
}

#[test]
fn save_files_uris_from_selected_folder() {
    assert_eq!(
        build_save_files_uris(
            &strings(&["file:///target/dir"]),
            &strings(&["a.txt", "b.txt"]),
            PathKind::Directory
        ),
        vec!["file:///target/dir/a.txt", "file:///target/dir/b.txt"]
    );
    assert_eq!(
        build_save_files_uris(&strings(&["/plain/", "ignored"]), &strings(&["x"]), PathKind::Other),
        vec!["file:///plain/x"]
    );
    assert!(build_save_files_uris(&[], &strings(&["a"]), PathKind::File).is_empty());
}

#[test]
fn save_files_uris_beside_a_selected_file() {
    assert_eq!(
        build_save_files_uris(&strings(&["/d/report.txt"]), &strings(&["a"]), PathKind::File),
        vec!["file:///d/a"]
    );
    assert_eq!(
        build_save_files_uris(
            &strings(&["file:///d/sub/report.txt"]),
            &strings(&["a", "b"]),
            PathKind::File
        ),
        vec!["file:///d/sub/a", "file:///d/sub/b"]
    );
    assert_eq!(
        build_save_files_uris(&strings(&["/"]), &strings(&["a"]), PathKind::File),
        vec!["file:///a"]
    );
}

#[test]
fn identifiers_from_one_source_differ() {
    let mut ids = SessionIds::new();
    let a = ids.fresh().unwrap();
    let b = ids.fresh().unwrap();
    let c = ids.fresh().unwrap();
    assert!(a.as_str().ends_with("-0"));
    assert!(b.as_str().ends_with("-1"));
    assert!(c.as_str().ends_with("-2"));
    assert_ne!(a, b);
    assert_ne!(b, c);
}

#[test]
fn selection_never_repeats_an_entry() {
    let mut state = SelectionState::new(SessionOptions::default());
    state.handle_request(Request::Select(strings(&["a", "b", "a"])));
    state.handle_request(Request::Select(strings(&["b", "c"])));
    assert_eq!(state.selection, vec!["a", "b", "c"]);
    state.handle_request(Request::Deselect(strings(&["b"])));
    assert_eq!(state.selection, vec!["a", "c"]);
}

#[test]
fn session_answers_with_its_own_options() {
    let options = SessionOptions {
        title: "Pick".into(),
        mode: SelectionMode::Pick { multiple: true, directory: false },
        current_folder: Some("/h".into()),
        candidates: vec!["n".into()],
        filters: vec![Filter {
            name: "Text".into(),
            patterns: vec![
                FilterPattern::Glob("*.txt".into()),
                FilterPattern::MimeType("text/plain".into()),
            ],
        }],
        current_filter: Some(0),
    };
    let mut state = SelectionState::new(options);
    match state.handle_request(Request::GetOptions) {
        Response::Options(o) => {
            assert_eq!(o.title, "Pick");
            assert_eq!(o.mode, SelectionMode::Pick { multiple: true, directory: false });
            assert_eq!(o.current_folder.as_deref(), Some("/h"));
            assert_eq!(o.candidates, vec!["n"]);
            assert_eq!(o.filters.len(), 1);
            assert_eq!(o.filters[0].name, "Text");
            assert!(matches!(&o.filters[0].patterns[0], FilterPattern::Glob(g) if g == "*.txt"));
            assert!(matches!(
                &o.filters[0].patterns[1],
                FilterPattern::MimeType(m) if m == "text/plain"
            ));
            assert_eq!(o.current_filter, Some(0));
        }
        _ => panic!("the options are asked for"),
    }
}

#[test]
fn requests_become_session_options() {
    let filters = vec![FileFilter::new("Images").glob("*.png").mime_type("image/png")];
    let open = OpenFileOptions {
        multiple: Some(true),
        current_folder: Some(b"/home/u".to_vec()),
        filters: filters.clone(),
        ..OpenFileOptions::default()
    };
    let o = open_file("Pick".into(), &open);
    assert_eq!(o.title, "Pick");
    assert_eq!(o.mode, SelectionMode::Pick { multiple: true, directory: false });
    assert_eq!(o.current_folder.as_deref(), Some("/home/u"));
    assert!(o.candidates.is_empty());
    assert_eq!(o.filters.len(), 1);
    assert_eq!(o.filters[0].name, "Images");
    assert!(matches!(&o.filters[0].patterns[0], FilterPattern::Glob(g) if g == "*.png"));
    assert!(matches!(&o.filters[0].patterns[1], FilterPattern::MimeType(m) if m == "image/png"));
    assert_eq!(convert_filters(&filters)[0].patterns.len(), 2);

    let save = SaveFileOptions {
        current_name: Some("report.pdf".into()),
        ..SaveFileOptions::default()
    };
    let o = save_file("Save".into(), &save);
    assert_eq!(o.mode, SelectionMode::Save);
    assert_eq!(o.candidates, vec!["report.pdf"]);
    assert!(save_file("Save".into(), &SaveFileOptions::default()).candidates.is_empty());

    let many = SaveFilesOptions {
        files: vec![b"a.txt\0".to_vec(), b"b.txt".to_vec(), vec![0xff, 0]],
        ..SaveFilesOptions::default()
    };
    let o = save_files("All".into(), &many);
    assert_eq!(o.mode, SelectionMode::SaveMultiple);
    assert_eq!(o.candidates, vec!["a.txt", "b.txt", "\u{fffd}"]);
}

#[test]
fn screenshot_requests_and_replies() {
    let o = screenshot(
        "app".into(),
        &ScreenshotOptions { modal: Some(true), interactive: None, permission_store_checked: None },
    );
    assert_eq!(o.mode, ScreenshotMode::Screenshot { interactive: false });
    assert!(o.modal);
    assert_eq!(o.app_id, "app");
    let p = pick_color("app".into());
    assert_eq!(p.mode, ScreenshotMode::PickColor);
    assert!(!p.modal);

    assert_eq!(screenshot_reply(Ok(strings(&["file:///s.png", "x"]))).unwrap().uri, "file:///s.png");
    assert!(matches!(
        screenshot_reply(Ok(vec![])),
        Err(ScreenshotError::Other(m)) if m == "no URI returned from session"
    ));
    assert!(matches!(
        screenshot_reply(Err(SessionError::Cancelled)),
        Err(ScreenshotError::Cancelled)
    ));
    assert!(matches!(
        pick_color_reply(Ok(strings(&["file://#FF8000"]))),
        Ok(PickedColor::Channels(255, 128, 0))
    ));
    assert!(matches!(
        pick_color_reply(Ok(strings(&["0.5 0.25 1"]))),
        Ok(PickedColor::Fractions(t)) if t == "0.5 0.25 1"
    ));
    assert!(matches!(
        pick_color_reply(Ok(strings(&["red"]))),
        Err(ScreenshotError::Other(m))
            if m == "invalid color format: 'red' (expected #rrggbb, 'R G B' floats, or rgb(r,g,b))"
    ));
    assert!(matches!(
        pick_color_reply(Ok(vec![])),
        Err(ScreenshotError::Other(m)) if m == "no color returned from session"
    ));
}

#[test]
fn bus_replies() {
    let ok = reply_for(Ok(ScreenshotResult::new("u")), false, ScreenshotResult::default());
    assert!(matches!(ok, Reply::Answer(ResponseCode::Success, r) if r.uri == "u"));
    let aborted = reply_for(Ok(ScreenshotResult::new("u")), true, ScreenshotResult::default());
    assert!(matches!(aborted, Reply::Answer(ResponseCode::Cancelled, r) if r.uri.is_empty()));
    let cancelled = reply_for(Err(ScreenshotError::Cancelled), false, 0u8);
    assert!(matches!(cancelled, Reply::Answer(ResponseCode::Cancelled, 0)));
    let failed = reply_for(Err(ScreenshotError::Other("bad".into())), false, 0u8);
    assert!(matches!(failed, Reply::Failed(m) if m == "bad"));
    assert_eq!(u32::from(ResponseCode::Success), 0);
    assert_eq!(u32::from(ResponseCode::Cancelled), 1);
    assert_eq!(u32::from(ResponseCode::Other), 2);
    let o = ScreenshotOptions { modal: None, interactive: Some(true), permission_store_checked: None };
    assert_eq!((o.modal(), o.interactive()), (None, Some(true)));
}

#[test]
fn handlers_hold_what_they_are_given() {
    let config = Arc::new(Config::with_exec(Some("foot".into())));
    let fc = TtyFileChooser::new(Arc::clone(&config), 7u8);
    assert_eq!(fc.state, 7);
    assert_eq!(fc.config.program.as_deref(), Some("foot"));
    let sc = TtyScreenshot::new(config, "state");
    assert_eq!(sc.state, "state");
    let portal = ScreenshotPortal::new(sc);
    assert_eq!(portal.handler.state, "state");
    let opts = ScreenshotSessionOptions { mode: ScreenshotMode::PickColor, app_id: "a".into(), modal: true };
    assert_eq!(
        opts.env(),
        vec![
            ("PORTTY_MODE".to_string(), "PickColor".to_string()),
            ("PORTTY_APP_ID".to_string(), "a".to_string()),
            ("PORTTY_MODAL".to_string(), "true".to_string()),
        ]
    );
}

#[test]
fn identifiers_differ_by_their_counts() {
    let a = SessionId::from_parts(17, 1);
    let b = SessionId::from_parts(17, 2);
    let c = SessionId::from_parts(0x1, 0x71);
    let d = SessionId::from_parts(0x17, 0x1);
    assert_eq!(a.as_str(), "11-1");
    assert_ne!(a, b);
    assert_ne!(c, d);
    let now = SessionId::new(9);
    let (time, count) = now.as_str().split_once('-').unwrap();
    assert_eq!(count, "9");
    assert!(u128::from_str_radix(time, 16).unwrap() > 0);
}

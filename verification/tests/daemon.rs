use portty::daemon::config::{Config, FileChooserExt, FileChooserOp, NoExt, PortalConfig, RootExt, ScreenshotExt, ScreenshotOp};
use portty::daemon::daemon_socket::{
    apply_to_session, handle_daemon_extension, handle_request, requeue_failed, verify_session,
    ApplyStep, DaemonError, DaemonState, ExtensionStep, Plan, RegisteredSession, SessionRegistry,
};
use portty::ipc::context::PortalContext;
use portty::portal::file_chooser::{PathKind, SelectionMode, SessionOptions};
use portty::portal::Probes;
use portty::daemon::server::Daemon;
use portty::ipc::protocol::{
    DaemonExtension, DaemonResponseExtension, Request as IpcRequest, Response as IpcResponse,
    SessionResponse,
};
use portty::ipc::queue::QueuedCommand;
use portty::portal_type::PortalType;
use portty::protocol::{Request, Response};

fn session(id: &str, created: u64, portal: PortalType) -> RegisteredSession {
    RegisteredSession {
        id: id.into(),
        portal,
        operation: "open-file".into(),
        title: Some("Title".into()),
        created,
        dir: format!("/tmp/portty/1/{id}"),
        initial_entries: vec!["init".into()],
    }
}

#[test]
fn registry_keeps_one_record_per_id() {
    let mut reg = SessionRegistry::new();
    assert!(reg.is_empty());
    reg.register(session("a", 5, PortalType::FileChooser));
    reg.register(session("b", 3, PortalType::Screenshot));
    reg.register(session("a", 9, PortalType::Screenshot));
    assert_eq!(reg.len(), 2);
    assert_eq!(reg.get("a").unwrap().created, 9);
    let ids: Vec<&str> = reg.iter().iter().map(|s| s.id.as_str()).collect();
    assert_eq!(ids, vec!["a", "b"]);
    reg.unregister("a");
    assert!(reg.get("a").is_none());
    assert_eq!(reg.len(), 1);
    reg.unregister("missing");
    assert_eq!(reg.len(), 1);
}

#[test]
fn earliest_session_wins() {
    let mut reg = SessionRegistry::new();
    assert!(reg.first_created().is_none());
    reg.register(session("m", 7, PortalType::FileChooser));
    reg.register(session("z", 4, PortalType::FileChooser));
    reg.register(session("k", 4, PortalType::FileChooser));
    reg.register(session("q", 9, PortalType::FileChooser));
    assert_eq!(reg.first_created().unwrap().id, "k");
}

#[test]
fn control_requests_with_a_session() {
    let mut reg = SessionRegistry::new();
    reg.register(session("s1", 10, PortalType::FileChooser));
    reg.register(session("s0", 20, PortalType::Screenshot));
    match handle_request(&Request::Submit { session_id: None }, &reg, true) {
        Plan::Submit { id, dir } => {
            assert_eq!(id, "s1");
            assert_eq!(dir, "/tmp/portty/1/s1");
        }
        other => panic!("unexpected {other:?}"),
    }
    match handle_request(
        &Request::Cancel {
            session_id: Some("s0".into()),
        },
        &reg,
        false,
    ) {
        Plan::Cancel { id } => assert_eq!(id, "s0"),
        other => panic!("unexpected {other:?}"),
    }
    match handle_request(&Request::Verify { session_id: None }, &reg, false) {
        Plan::Verify {
            id,
            portal,
            operation,
            ..
        } => {
            assert_eq!(id, "s1");
            assert_eq!(portal, PortalType::FileChooser);
            assert_eq!(operation, "open-file");
        }
        other => panic!("unexpected {other:?}"),
    }
    match handle_request(&Request::Reset { session_id: None }, &reg, false) {
        Plan::Reset { id, entries, .. } => {
            assert_eq!(id, "s1");
            assert_eq!(entries, vec!["init"]);
        }
        other => panic!("unexpected {other:?}"),
    }
    match handle_request(
        &Request::Reset {
            session_id: Some("gone".into()),
        },
        &reg,
        false,
    ) {
        Plan::Respond(Response::Error(m)) => assert_eq!(m, "Session not found: gone"),
        other => panic!("unexpected {other:?}"),
    }
    match handle_request(&Request::List, &reg, false) {
        Plan::Respond(resp) => assert_eq!(
            resp.encode(),
            "s1\tfile-chooser\topen-file\t10\t/tmp/portty/1/s1\tTitle\n\
             s0\tscreenshot\topen-file\t20\t/tmp/portty/1/s0\tTitle\nok\n"
        ),
        other => panic!("unexpected {other:?}"),
    }
}

#[test]
fn control_requests_without_a_session() {
    let reg = SessionRegistry::new();
    assert!(matches!(
        handle_request(&Request::Submit { session_id: None }, &reg, false),
        Plan::QueuePending
    ));
    match handle_request(&Request::Submit { session_id: None }, &reg, true) {
        Plan::Respond(Response::Error(m)) => assert_eq!(m, "No pending entries"),
        other => panic!("unexpected {other:?}"),
    }
    assert!(matches!(
        handle_request(&Request::Cancel { session_id: None }, &reg, false),
        Plan::ClearPending
    ));
    match handle_request(&Request::Verify { session_id: None }, &reg, false) {
        Plan::Respond(Response::Error(m)) => assert_eq!(m, "No active session to verify"),
        other => panic!("unexpected {other:?}"),
    }
    match handle_request(&Request::Reset { session_id: None }, &reg, false) {
        Plan::Respond(Response::Error(m)) => assert_eq!(m, "No active session to reset"),
        other => panic!("unexpected {other:?}"),
    }
    match handle_request(&Request::List, &reg, false) {
        Plan::Respond(resp) => assert_eq!(resp.encode(), "ok\n"),
        other => panic!("unexpected {other:?}"),
    }
}

#[test]
fn submit_after_the_session_ended_reaches_nothing() {
    let mut reg = SessionRegistry::new();
    reg.register(session("s1", 10, PortalType::FileChooser));
    reg.unregister("s1");
    match handle_request(
        &Request::Submit {
            session_id: Some("s1".into()),
        },
        &reg,
        false,
    ) {
        Plan::Respond(Response::Error(m)) => assert_eq!(m, "Session not found: s1"),
        other => panic!("unexpected {other:?}"),
    }
}

#[test]
fn extension_requests_work_the_queue() {
    let mut state = DaemonState::new();
    match handle_daemon_extension(DaemonExtension::QueueSubmit { portal: None }, &mut state) {
        ExtensionStep::Respond(IpcResponse::Error(m)) => {
            assert_eq!(m, "No pending entries")
        }
        other => panic!("unexpected {other:?}"),
    }
    assert!(matches!(
        handle_daemon_extension(
            DaemonExtension::QueuePush(QueuedCommand::Select(vec!["a".into()])),
            &mut state
        ),
        ExtensionStep::Respond(IpcResponse::Okay)
    ));
    match handle_daemon_extension(DaemonExtension::QueueStatus, &mut state) {
        ExtensionStep::Respond(IpcResponse::Extended(DaemonResponseExtension::QueueStatus(
            s,
        ))) => {
            assert_eq!((s.pending_count, s.submissions_count), (1, 0));
            assert!(matches!(&s.pending[0], QueuedCommand::Select(v) if v == &vec!["a".to_string()]));
        }
        other => panic!("unexpected {other:?}"),
    }
    assert!(matches!(
        handle_daemon_extension(
            DaemonExtension::QueueSubmit {
                portal: Some(PortalType::Screenshot)
            },
            &mut state
        ),
        ExtensionStep::Respond(IpcResponse::Okay)
    ));
    assert!(state.queue.pending.is_empty());
    assert_eq!(state.queue.submissions.len(), 1);
    assert_eq!(state.queue.submissions[0].portal, Some(PortalType::Screenshot));

    state.sessions.register(session("fc", 1, PortalType::FileChooser));
    state.sessions.register(session("sc", 2, PortalType::Screenshot));
    state.queue.push_command(QueuedCommand::Clear);
    match handle_daemon_extension(
        DaemonExtension::QueueSubmit {
            portal: Some(PortalType::Screenshot),
        },
        &mut state,
    ) {
        ExtensionStep::Apply {
            session_id,
            socket_path,
            commands,
            portal,
        } => {
            assert_eq!(session_id, "sc");
            assert_eq!(socket_path, "/tmp/portty/1/sc/sock");
            assert_eq!(commands.len(), 1);
            assert_eq!(portal, Some(PortalType::Screenshot));
            assert!(state.queue.pending.is_empty());
            requeue_failed(&mut state, commands, portal);
            assert_eq!(state.queue.submissions.len(), 2);
        }
        other => panic!("unexpected {other:?}"),
    }
    match handle_daemon_extension(DaemonExtension::GetSession("nope".into()), &mut state) {
        ExtensionStep::Respond(IpcResponse::Error(m)) => assert_eq!(m, "Session not found: nope"),
        other => panic!("unexpected {other:?}"),
    }
    match handle_daemon_extension(DaemonExtension::ListSessions, &mut state) {
        ExtensionStep::Respond(IpcResponse::Extended(DaemonResponseExtension::Sessions(v))) => {
            assert_eq!(v.len(), 2);
            assert_eq!(v[1].socket_path, "/tmp/portty/1/sc/sock");
        }
        other => panic!("unexpected {other:?}"),
    }
    handle_daemon_extension(DaemonExtension::QueueClearAll, &mut state);
    assert!(state.queue.submissions.is_empty());
}

#[test]
fn applying_commands_step_by_step() {
    let cmds = vec![
        QueuedCommand::Select(vec!["a".into()]),
        QueuedCommand::Clear,
    ];
    assert!(matches!(
        apply_to_session(&cmds, 0, None),
        ApplyStep::Send(IpcRequest::Select(v)) if v == vec!["a".to_string()]
    ));
    let ok: SessionResponse = IpcResponse::Okay;
    assert!(matches!(
        apply_to_session(&cmds, 1, Some(&ok)),
        ApplyStep::Send(IpcRequest::Clear)
    ));
    assert!(matches!(
        apply_to_session(&cmds, 2, Some(&ok)),
        ApplyStep::Send(IpcRequest::Submit)
    ));
    assert!(matches!(apply_to_session(&cmds, 3, Some(&ok)), ApplyStep::Done));
    let err: SessionResponse = IpcResponse::Error("busy".into());
    match apply_to_session(&cmds, 1, Some(&err)) {
        ApplyStep::Failed(e @ DaemonError::SessionError(_)) => {
            assert_eq!(e.to_string(), "session error: busy")
        }
        other => panic!("unexpected {other:?}"),
    }
    let odd: SessionResponse = IpcResponse::Selection(vec![]);
    match apply_to_session(&cmds, 1, Some(&odd)) {
        ApplyStep::Failed(e) => assert_eq!(e.to_string(), "unexpected response from session"),
        other => panic!("unexpected {other:?}"),
    }
}

fn level(program: Option<&str>, bin: &[(&str, &str)]) -> PortalConfig<NoExt> {
    PortalConfig {
        program: program.map(String::from),
        bin: bin.iter().map(|(a, b)| (a.to_string(), b.to_string())).collect(),
        ext: NoExt,
    }
}

fn config() -> Config {
    PortalConfig {
        program: Some("foot".into()),
        bin: vec![("sel".into(), "root-sel".into()), ("x".into(), "root-x".into())],
        ext: RootExt {
            file_chooser: Some(PortalConfig {
                program: Some("kitty -e picker".into()),
                bin: vec![("x".into(), "fc-x".into())],
                ext: FileChooserExt {
                    open_file: Some(level(Some("alacritty"), &[("y", "open-y")])),
                    save_file: Some(level(Some(""), &[])),
                    save_files: None,
                },
            }),
            screenshot: Some(PortalConfig {
                program: None,
                bin: vec![],
                ext: ScreenshotExt {
                    screenshot: None,
                    pick_color: Some(level(None, &[("p", "pick")])),
                },
            }),
        },
    }
}

#[test]
fn exec_resolves_operation_then_portal_then_root() {
    let c = config();
    assert_eq!(c.file_chooser_exec(FileChooserOp::OpenFile), Some("alacritty"));
    assert_eq!(c.file_chooser_exec(FileChooserOp::SaveFiles), Some("kitty -e picker"));
    assert_eq!(c.file_chooser_exec(FileChooserOp::SaveFile), None);
    assert_eq!(c.screenshot_exec(ScreenshotOp::PickColor), Some("foot"));
    assert_eq!(c.screenshot_exec(ScreenshotOp::Screenshot), Some("foot"));
    let bare = Config::with_exec(None);
    assert_eq!(bare.file_chooser_exec(FileChooserOp::OpenFile), None);
    assert_eq!(bare.screenshot_exec(ScreenshotOp::Screenshot), None);
}

#[test]
fn bins_merge_with_inner_levels_last() {
    let c = config();
    let pairs = |v: Vec<(String, String)>| {
        v.into_iter().collect::<std::collections::BTreeMap<String, String>>()
    };
    let open = c.file_chooser_bin(FileChooserOp::OpenFile);
    assert_eq!(
        open,
        vec![
            ("sel".to_string(), "root-sel".to_string()),
            ("x".to_string(), "root-x".to_string()),
            ("x".to_string(), "fc-x".to_string()),
            ("y".to_string(), "open-y".to_string()),
        ]
    );
    let merged = pairs(open);
    assert_eq!(merged["x"], "fc-x");
    assert_eq!(merged.len(), 3);
    assert_eq!(c.screenshot_bin(ScreenshotOp::PickColor).len(), 3);
    assert_eq!(c.screenshot_bin(ScreenshotOp::Screenshot).len(), 2);
    assert_eq!(Config::with_exec(None).file_chooser_bin(FileChooserOp::SaveFile).len(), 0);
}

#[test]
fn operation_names() {
    assert_eq!(FileChooserOp::OpenFile.as_str(), "open-file");
    assert_eq!(FileChooserOp::SaveFile.as_str(), "save-file");
    assert_eq!(FileChooserOp::SaveFiles.as_str(), "save-files");
    assert_eq!(ScreenshotOp::Screenshot.as_str(), "screenshot");
    assert_eq!(ScreenshotOp::PickColor.as_str(), "pick-color");
    assert_eq!(FileChooserOp::OpenFile.display_name(), "Open File");
    assert_eq!(FileChooserOp::SaveFile.display_name(), "Save File");
    assert_eq!(FileChooserOp::SaveFiles.display_name(), "Save Files");
    assert_eq!(ScreenshotOp::Screenshot.display_name(), "Screenshot");
    assert_eq!(ScreenshotOp::PickColor.display_name(), "Pick Color");
    for op in [FileChooserOp::OpenFile, FileChooserOp::SaveFile, FileChooserOp::SaveFiles] {
        assert_eq!(FileChooserOp::from_token(op.as_str()), Some(op));
    }
    for op in [ScreenshotOp::Screenshot, ScreenshotOp::PickColor] {
        assert_eq!(ScreenshotOp::from_token(op.as_str()), Some(op));
    }
    assert_eq!(FileChooserOp::from_token("save-files"), Some(FileChooserOp::SaveFiles));
    assert_eq!(FileChooserOp::from_token("save"), None);
    assert_eq!(ScreenshotOp::from_token("pick-color"), Some(ScreenshotOp::PickColor));
    assert_eq!(ScreenshotOp::from_token("pick"), None);
}

#[test]
fn a_new_daemon_is_empty() {
    let d = Daemon::new(Config::with_exec(Some("foot".into())));
    assert_eq!(d.config.program.as_deref(), Some("foot"));
    assert!(d.state.sessions.is_empty());
    assert!(d.state.queue.pending.is_empty());
    let s = DaemonState::new();
    assert_eq!(s.sessions.len(), 0);
}

#[test]
fn program_and_shims_by_tokens() {
    let c = config();
    let (program, shims) = c.resolve("file-chooser", "open-file");
    assert_eq!(program.as_deref(), Some("alacritty"));
    assert_eq!(shims, c.file_chooser_bin(FileChooserOp::OpenFile));
    let (program, shims) = c.resolve("screenshot", "pick-color");
    assert_eq!(program.as_deref(), Some("foot"));
    assert_eq!(shims.len(), 3);
    let (program, shims) = c.resolve("file-chooser", "print");
    assert_eq!(program.as_deref(), Some("foot"));
    assert_eq!(shims, c.bin);
    let (program, shims) = c.resolve("printer", "open-file");
    assert_eq!(program.as_deref(), Some("foot"));
    assert_eq!(shims, c.bin);
    let (program, _) = c.resolve("file-chooser", "save-file");
    assert_eq!(program, None);
    let (program, shims) = Config::with_exec(Some(String::new())).resolve("x", "y");
    assert_eq!(program, None);
    assert!(shims.is_empty());
}

#[test]
fn the_default_configuration_names_nothing() {
    let c = Config::default();
    assert!(c.program.is_none());
    assert!(c.bin.is_empty());
    assert!(c.ext.file_chooser.is_none());
    assert!(c.ext.screenshot.is_none());
}

#[test]
fn verify_answers_as_the_validator_decides() {
    let options = PortalContext::FileChooser(SessionOptions {
        mode: SelectionMode::Pick { multiple: false, directory: false },
        current_folder: Some("/h".into()),
        ..SessionOptions::default()
    });
    let probes = Probes { first_entry: PathKind::Other, fractions_ok: false };
    let one = vec!["a".to_string()];
    assert_eq!(
        verify_session("file-chooser", "open-file", &one, &options, &probes).encode(),
        "ok\n"
    );
    let two = vec!["a".to_string(), "b".to_string()];
    assert_eq!(
        verify_session("file-chooser", "open-file", &two, &options, &probes).encode(),
        "error: Single-pick mode expects 1 entry, got 2\n"
    );
    assert_eq!(
        verify_session("file-chooser", "open-file", &[], &options, &probes).encode(),
        "error: No entries in submission\n"
    );
}

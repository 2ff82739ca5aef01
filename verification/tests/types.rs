use portty::builtins::{
    cmd_select, dispatch, select_answer, show_selection, socket_path, BuiltinCommand, SelectArgs,
};
use portty::client::{ClientError, DaemonClient};
use portty::codec::IpcError;
use portty::ipc::context::PortalContext;
use portty::ipc::file_chooser::{Filter, FilterPattern, SelectionMode, SessionOptions};
use portty::ipc::protocol::{Request as IpcRequest, Response as IpcResponse};
use portty::ipc::screenshot::{ScreenshotMode, ScreenshotSessionOptions};
use portty::paths::{
    base_dir, daemon_ctl_path, daemon_socket_path, ensure_base_dir, pending_dir, startup_plan,
    submissions_dir, BaseDirCheck, StartupStep,
};
use portty::protocol::{Request, Response, SessionInfo};
use portty::types::file_chooser::{
    reply_for, Choice, FileChooserError, FileChooserPortal, FileChooserResult, FileFilter,
    FilterPattern as PortalPattern, OpenFileOptions, Reply, ResponseCode, SaveFileOptions,
    SaveFilesOptions,
};

#[test]
fn filters_and_choices_build_up() {
    let f = FileFilter::new("Images").glob("*.png").mime_type("image/png").glob("*.jpg");
    assert_eq!(f.name(), "Images");
    let pats = f.patterns();
    assert_eq!(pats.len(), 3);
    assert!(matches!(pats[0], PortalPattern::Glob("*.png")));
    assert!(matches!(pats[1], PortalPattern::MimeType("image/png")));
    assert!(matches!(pats[2], PortalPattern::Glob("*.jpg")));
    let c = Choice::new("enc", "Encoding").option("utf8", "UTF-8").option("l1", "Latin 1").default("utf8");
    assert_eq!(c.id(), "enc");
    assert_eq!(c.label(), "Encoding");
    assert_eq!(c.default_option(), "utf8");
    assert_eq!(
        c.options(),
        &[("utf8".to_string(), "UTF-8".to_string()), ("l1".to_string(), "Latin 1".to_string())]
    );
    assert_eq!(Choice::new("a", "b").default_option(), "");
}

#[test]
fn request_options_hand_out_their_fields() {
    let open = OpenFileOptions {
        accept_label: Some("Open".into()),
        modal: Some(true),
        multiple: Some(false),
        directory: None,
        filters: vec![FileFilter::new("All")],
        current_filter: Some(FileFilter::new("All")),
        choices: vec![Choice::new("c", "C")],
        current_folder: Some(b"/h".to_vec()),
    };
    assert_eq!(open.accept_label(), Some("Open"));
    assert_eq!(open.modal(), Some(true));
    assert_eq!(open.multiple(), Some(false));
    assert_eq!(open.directory(), None);
    assert_eq!(open.filters().len(), 1);
    assert_eq!(open.current_filter().unwrap().name(), "All");
    assert_eq!(open.choices().len(), 1);
    assert_eq!(open.current_folder(), Some(&b"/h"[..]));
    let none = OpenFileOptions::default();
    assert_eq!(none.accept_label(), None);
    assert!(none.filters().is_empty());
    assert!(none.current_filter().is_none());

    let save = SaveFileOptions {
        current_name: Some("n".into()),
        current_file: Some(vec![1, 2]),
        ..SaveFileOptions::default()
    };
    assert_eq!(save.current_name(), Some("n"));
    assert_eq!(save.current_file(), Some(&[1u8, 2][..]));
    assert_eq!(save.current_folder(), None);
    assert_eq!(save.accept_label(), None);
    assert_eq!(save.modal(), None);
    assert!(save.filters().is_empty());
    assert!(save.choices().is_empty());
    assert!(save.current_filter().is_none());

    let files = SaveFilesOptions { files: vec![b"a".to_vec()], ..SaveFilesOptions::default() };
    assert_eq!(files.files(), &[b"a".to_vec()]);
    assert_eq!(files.accept_label(), None);
    assert_eq!(files.modal(), None);
    assert!(files.choices().is_empty());
    assert_eq!(files.current_folder(), None);
}

#[test]
fn results_build_up() {
    let r = FileChooserResult::new()
        .uri("file:///a")
        .uris(vec!["file:///b".to_string(), "file:///c".to_string()])
        .choice("enc", "utf8")
        .choice("nl", "lf")
        .current_filter(FileFilter::new("All"))
        .writable(true);
    let shown = format!("{r:?}");
    assert!(shown.contains("file:///c"));
    assert!(shown.contains("\"nl\", \"lf\""));
    assert!(shown.contains("writable: Some(true)"));
    assert_eq!(r.into_uris(), vec!["file:///a", "file:///b", "file:///c"]);
    assert!(FileChooserResult::default().into_uris().is_empty());
}

#[test]
fn response_codes() {
    assert_eq!(ResponseCode::from(0), ResponseCode::Success);
    assert_eq!(ResponseCode::from(1), ResponseCode::Cancelled);
    assert_eq!(ResponseCode::from(2), ResponseCode::Other);
    assert_eq!(ResponseCode::from(77), ResponseCode::Other);
    for code in [ResponseCode::Success, ResponseCode::Cancelled, ResponseCode::Other] {
        assert_eq!(ResponseCode::from(u32::from(code)), code);
    }
    let ok = reply_for(Ok(FileChooserResult::new().uri("u")), false);
    assert!(matches!(ok, Reply::Answer(ResponseCode::Success, r) if r.clone().into_uris() == vec!["u"]));
    let aborted = reply_for(Ok(FileChooserResult::new().uri("u")), true);
    assert!(matches!(aborted, Reply::Answer(ResponseCode::Cancelled, r) if r.clone().into_uris().is_empty()));
    let cancelled = reply_for(Err(FileChooserError::Cancelled), false);
    assert!(matches!(cancelled, Reply::Answer(ResponseCode::Cancelled, _)));
    let failed = reply_for(Err(FileChooserError::Other("bad".into())), false);
    assert!(matches!(failed, Reply::Failed(m) if m == "bad"));
    assert_eq!(FileChooserPortal::new(5u8).handler, 5);
}

#[test]
fn file_chooser_environment() {
    let opts = SessionOptions {
        title: "Pick".into(),
        mode: SelectionMode::Pick { multiple: true, directory: false },
        current_folder: Some("/home/u".into()),
        candidates: vec!["a.txt".into(), "b.txt".into()],
        filters: vec![
            Filter {
                name: "Images".into(),
                patterns: vec![FilterPattern::Glob("*.png".into()), FilterPattern::MimeType("image/png".into())],
            },
            Filter { name: "None".into(), patterns: vec![] },
        ],
        current_filter: None,
    };
    let env = opts.env();
    let expect: Vec<(String, String)> = [
        ("PORTTY_TITLE", "Pick"),
        ("PORTTY_MODE", "Pick"),
        ("PORTTY_MULTIPLE", "true"),
        ("PORTTY_DIRECTORY", "false"),
        ("PORTTY_FOLDER", "/home/u"),
        ("PORTTY_CANDIDATES", "a.txt\nb.txt"),
        ("PORTTY_FILTERS", "Images: Glob - *.png, Mime - image/png\nNone: "),
    ]
    .iter()
    .map(|(a, b)| (a.to_string(), b.to_string()))
    .collect();
    assert_eq!(env, expect);
    let bare = SessionOptions { mode: SelectionMode::SaveMultiple, ..SessionOptions::default() };
    let env = bare.env();
    assert_eq!(env.len(), 4);
    assert_eq!(env[1].1, "SaveMultiple");
    assert_eq!(env[2].1, "false");
    let ctx = PortalContext::FileChooser(opts);
    assert_eq!(ctx.title(), Some("Pick"));
    assert_eq!(ctx.env().len(), 7);
    assert_eq!(PortalContext::FileChooser(bare).title(), None);
    let sc = ScreenshotSessionOptions {
        mode: ScreenshotMode::Screenshot { interactive: true },
        app_id: "org.app".into(),
        modal: false,
    };
    assert_eq!(
        sc.env(),
        vec![
            ("PORTTY_MODE".to_string(), "Screenshot".to_string()),
            ("PORTTY_INTERACTIVE".to_string(), "true".to_string()),
            ("PORTTY_APP_ID".to_string(), "org.app".to_string()),
            ("PORTTY_MODAL".to_string(), "false".to_string()),
        ]
    );
    assert_eq!(PortalContext::Screenshot(sc).title(), None);
    assert_eq!(SelectionMode::Pick { multiple: true, directory: true }.to_string(), "Pick (multiple, directory)");
    assert_eq!(SelectionMode::default().to_string(), "Pick");
    assert_eq!(ScreenshotMode::Screenshot { interactive: true }.to_string(), "Screenshot (interactive)");
    assert_eq!(FilterPattern::MimeType("a/b".into()).to_string(), "Mime - a/b");
}

#[test]
fn paths_of_the_user() {
    assert_eq!(base_dir(1000), "/tmp/portty/1000");
    assert_eq!(base_dir(0), "/tmp/portty/0");
    assert_eq!(daemon_socket_path(1000), "/tmp/portty/1000/daemon.sock");
    assert_eq!(daemon_ctl_path(1000), "/tmp/portty/1000/daemon.ctl");
    assert_eq!(pending_dir(42), "/tmp/portty/42/pending");
    assert_eq!(submissions_dir(u32::MAX), "/tmp/portty/4294967295/submissions");
    assert_eq!(portty::cli::daemon_socket_path(1000), "/tmp/portty/1000/daemon.sock");
}

#[test]
fn base_directory_policy() {
    assert!(matches!(ensure_base_dir("/tmp/portty/5", 5, 5, 0o40700), BaseDirCheck::Ready));
    assert!(matches!(ensure_base_dir("/tmp/portty/5", 5, 5, 0o40755), BaseDirCheck::FixMode));
    assert!(matches!(ensure_base_dir("/tmp/portty/5", 5, 5, 0o40600), BaseDirCheck::FixMode));
    match ensure_base_dir("/tmp/portty/5", 6, 5, 0o40700) {
        BaseDirCheck::Refuse(m) => {
            assert_eq!(m, "base directory /tmp/portty/5 is owned by uid 6, expected 5")
        }
        other => panic!("unexpected {other:?}"),
    }
    assert_eq!(
        startup_plan(&BaseDirCheck::FixMode),
        vec![StartupStep::SetPrivateMode, StartupStep::BindSocket, StartupStep::MakeFifo, StartupStep::Serve]
    );
    assert_eq!(
        startup_plan(&BaseDirCheck::Ready),
        vec![StartupStep::BindSocket, StartupStep::MakeFifo, StartupStep::Serve]
    );
    assert!(startup_plan(&BaseDirCheck::Refuse("no".into())).is_empty());
}

#[test]
fn client_requests_and_answers() {
    let c = DaemonClient::new(1000);
    assert_eq!(c.socket_path, "/tmp/portty/1000/daemon.sock");
    assert_eq!(c.submit(None), Request::Submit { session_id: None });
    assert_eq!(c.cancel(Some("a")), Request::Cancel { session_id: Some("a".into()) });
    assert_eq!(c.verify(Some("b")), Request::Verify { session_id: Some("b".into()) });
    assert_eq!(c.reset(None), Request::Reset { session_id: None });
    assert_eq!(c.list(), Request::List);
    assert!(DaemonClient::finish(Ok(Response::Okay)).is_ok());
    match DaemonClient::finish(Ok(Response::Error("bad entry".into()))) {
        Err(e @ ClientError::Server(_)) => assert_eq!(e.to_string(), "bad entry"),
        other => panic!("unexpected {other:?}"),
    }
    match DaemonClient::finish(Ok(Response::Sessions(vec![]))) {
        Err(e) => assert_eq!(e.to_string(), "unexpected response from daemon"),
        other => panic!("unexpected {other:?}"),
    }
    match DaemonClient::finish(Err(ClientError::Codec(IpcError::Protocol("p".into())))) {
        Err(e) => assert_eq!(e.to_string(), "IPC error: protocol error: p"),
        other => panic!("unexpected {other:?}"),
    }
    assert!(DaemonClient::finish_list(Ok(Response::Okay)).unwrap().is_empty());
    let info = SessionInfo {
        id: "s".into(),
        portal: "p".into(),
        operation: "o".into(),
        title: None,
        created: 1,
        dir: "/d".into(),
    };
    assert_eq!(
        DaemonClient::finish_list(Ok(Response::Sessions(vec![info.clone()]))).unwrap(),
        vec![info]
    );
    assert!(DaemonClient::finish_list(Ok(Response::Error("e".into()))).is_err());
    assert_eq!(
        c.connection_error(true, "os error 111").to_string(),
        "connection failed: cannot connect to daemon socket (/tmp/portty/1000/daemon.sock): is porttyd running?"
    );
    assert_eq!(
        c.connection_error(false, "permission denied").to_string(),
        "connection failed: permission denied"
    );
}

#[test]
fn builtin_commands() {
    assert_eq!(dispatch("select"), Ok(BuiltinCommand::Select));
    assert_eq!(dispatch("submit"), Ok(BuiltinCommand::Submit));
    assert_eq!(dispatch("cancel"), Ok(BuiltinCommand::Cancel));
    assert_eq!(dispatch("frob"), Err("Unknown file_chooser command: frob".to_string()));
    assert_eq!(socket_path(Some("/s/sock")), Ok("/s/sock".to_string()));
    assert_eq!(
        socket_path(None),
        Err("PORTTY_SOCK not set - are you running inside a portty session?".to_string())
    );
    assert_eq!(portty::builtins::to_uri("https://x/y", "/cwd"), "https://x/y");
    assert_eq!(portty::builtins::to_uri("/abs/p q", "/cwd"), "file:///abs/p q");
    assert_eq!(portty::builtins::to_uri("rel", "/cwd"), "file:///cwd/rel");
    assert_eq!(portty::builtins::to_uri("rel", ""), "file://rel");
    assert_eq!(portty::builtins::to_uri("a:/b", "/c"), "file:///c/a:/b");

    let args = |options, clear, deselect, stdin, files: &[&str]| SelectArgs {
        options,
        clear,
        deselect,
        stdin,
        files: files.iter().map(|s| s.to_string()).collect(),
    };
    assert!(matches!(cmd_select(&args(true, true, false, false, &["a"]), &[], "/c"), IpcRequest::GetOptions));
    assert!(matches!(cmd_select(&args(false, true, false, false, &["a"]), &[], "/c"), IpcRequest::Clear));
    assert!(matches!(cmd_select(&args(false, false, false, false, &[]), &[], "/c"), IpcRequest::GetSelection));
    assert!(matches!(
        cmd_select(&args(false, false, false, false, &["a", "/b"]), &[], "/c"),
        IpcRequest::Select(v) if v == vec!["file:///c/a".to_string(), "file:///b".to_string()]
    ));
    assert!(matches!(
        cmd_select(&args(false, false, true, false, &["a"]), &[], "/c"),
        IpcRequest::Deselect(v) if v == vec!["file:///c/a".to_string()]
    ));
    let lines = vec!["x".to_string(), String::new(), "/y".to_string()];
    assert!(matches!(
        cmd_select(&args(false, false, false, true, &["ignored"]), &lines, "/c"),
        IpcRequest::Select(v) if v == vec!["file:///c/x".to_string(), "file:///y".to_string()]
    ));
    assert_eq!(show_selection(Ok(IpcResponse::Selection(vec![]))), (1, vec![]));
    assert_eq!(
        show_selection(Ok(IpcResponse::Selection(vec!["u".into()]))),
        (0, vec!["u".to_string()])
    );
    assert_eq!(
        show_selection(Ok(IpcResponse::Okay)),
        (1, vec!["Unexpected response".to_string()])
    );
    assert_eq!(
        show_selection(Ok(IpcResponse::Error("e".into()))),
        (1, vec!["Unexpected response".to_string()])
    );
    assert_eq!(
        show_selection(Err("down".into())),
        (1, vec!["Failed to get selection: down".to_string()])
    );
    assert_eq!(select_answer(Ok(IpcResponse::Okay)), (0, vec![]));
    assert_eq!(
        select_answer(Ok(IpcResponse::Error("e".into()))),
        (1, vec!["Error: e".to_string()])
    );
    assert_eq!(
        select_answer(Ok(IpcResponse::Selection(vec![]))),
        (1, vec!["Unexpected response".to_string()])
    );
    assert_eq!(
        select_answer(Err("down".into())),
        (1, vec!["Failed to send request: down".to_string()])
    );
}

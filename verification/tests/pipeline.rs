use portty::ipc::context::PortalContext;
use portty::ipc::screenshot::{ScreenshotMode, ScreenshotSessionOptions};
use portty::portal::file_chooser::{
    add_entries, join, path_to_file_uri, resolve_entries_to_absolute, resolve_path,
    resolve_save_file_to_uri, resolve_to_uri, validate, PathKind, SelectionMode, SessionOptions,
};
use portty::portal::{AddResult, Probes, SessionContext};

fn options(mode: SelectionMode, folder: Option<&str>, candidates: &[&str]) -> SessionOptions {
    SessionOptions {
        title: "T".into(),
        mode,
        current_folder: folder.map(String::from),
        candidates: candidates.iter().map(|s| s.to_string()).collect(),
        filters: vec![],
        current_filter: None,
    }
}

fn pick(multiple: bool) -> SelectionMode {
    SelectionMode::Pick {
        multiple,
        directory: false,
    }
}

fn strings(items: &[&str]) -> Vec<String> {
    items.iter().map(|s| s.to_string()).collect()
}

#[test]
fn happy_path_single_select() {
    let opts = options(pick(false), Some("/home/u"), &[]);
    let got = validate("open-file", &strings(&["a.txt"]), &opts, PathKind::Other).unwrap();
    assert_eq!(got, vec!["file:///home/u/a.txt"]);
}

#[test]
fn multi_select_keeps_insertion_order() {
    let opts = options(pick(true), Some("/home/u"), &[]);
    let (first, text) = add_entries("", &strings(&["a.txt"]), &opts);
    assert_eq!(first, AddResult::Appended(1));
    let (second, text) = add_entries(&text, &strings(&["b.txt"]), &opts);
    assert_eq!(second, AddResult::Appended(1));
    assert_eq!(text, "a.txt\nb.txt\n");
    let entries = portty::files::read_lines(&text);
    let got = validate("open-file", &entries, &opts, PathKind::Other).unwrap();
    assert_eq!(got, vec!["file:///home/u/a.txt", "file:///home/u/b.txt"]);
}

#[test]
fn save_file_with_candidate_in_directory() {
    let opts = options(SelectionMode::Save, Some("/tmp"), &["report.pdf"]);
    let got = validate("save-file", &strings(&["/tmp/out"]), &opts, PathKind::Directory).unwrap();
    assert_eq!(got, vec!["file:///tmp/out/report.pdf"]);
    let got = validate("save-file", &strings(&["/tmp/out"]), &opts, PathKind::Other).unwrap();
    assert_eq!(got, vec!["file:///tmp/out"]);
}

#[test]
fn save_file_directory_without_candidate_passes_through() {
    let opts = options(SelectionMode::Save, Some("/tmp"), &[]);
    let got = validate("save-file", &strings(&["/tmp/out"]), &opts, PathKind::Directory).unwrap();
    assert_eq!(got, vec!["file:///tmp/out"]);
    let empty_name = options(SelectionMode::Save, Some("/tmp"), &[""]);
    let got =
        validate("save-file", &strings(&["out"]), &empty_name, PathKind::Directory).unwrap();
    assert_eq!(got, vec!["file:///tmp/out"]);
}

#[test]
fn file_chooser_arity_errors() {
    let single = options(pick(false), None, &[]);
    assert_eq!(
        validate("open-file", &[], &single, PathKind::Other).unwrap_err(),
        "No entries in submission"
    );
    assert_eq!(
        validate("open-file", &strings(&["/a", "/b"]), &single, PathKind::Other).unwrap_err(),
        "Single-pick mode expects 1 entry, got 2"
    );
    assert_eq!(
        validate("save-file", &strings(&["/a", "/b", "/c"]), &single, PathKind::Other)
            .unwrap_err(),
        "Save mode expects 1 entry, got 3"
    );
    let multi = options(pick(true), None, &[]);
    assert_eq!(
        validate("open-file", &strings(&["/a", "/b"]), &multi, PathKind::Other).unwrap(),
        vec!["file:///a", "file:///b"]
    );
    let save = options(SelectionMode::Save, None, &[]);
    assert_eq!(
        validate("open-file", &strings(&["/a", "/b"]), &save, PathKind::Other).unwrap(),
        vec!["file:///a", "file:///b"]
    );
    assert_eq!(
        validate("other-op", &strings(&["/a", "/b"]), &single, PathKind::Other).unwrap(),
        vec!["file:///a", "file:///b"]
    );
}

#[test]
fn save_files_builds_one_uri_per_candidate() {
    let opts = options(SelectionMode::SaveMultiple, Some("/base"), &["a.txt", "b c.txt"]);
    let got = validate("save-files", &strings(&["dir"]), &opts, PathKind::Directory).unwrap();
    assert_eq!(got, vec!["file:///base/dir/a.txt", "file:///base/dir/b%20c.txt"]);
    let got =
        validate("save-files", &strings(&["/x/y/file.bin"]), &opts, PathKind::File).unwrap();
    assert_eq!(got, vec!["file:///x/y/a.txt", "file:///x/y/b%20c.txt"]);
    let plain = options(SelectionMode::SaveMultiple, Some("/base"), &[]);
    let got = validate("save-files", &strings(&["one", "/two"]), &plain, PathKind::Other).unwrap();
    assert_eq!(got, vec!["file:///base/one", "file:///two"]);
}

#[test]
fn accepted_file_chooser_entries_are_file_uris() {
    let opts = options(pick(true), None, &[]);
    let got = validate(
        "open-file",
        &strings(&["/abs", "rel/path", "file:///already", "file://rel"]),
        &opts,
        PathKind::Other,
    )
    .unwrap();
    assert_eq!(
        got,
        vec!["file:///abs", "file://rel/path", "file:///already", "file://rel"]
    );
    for uri in &got {
        assert!(uri.starts_with("file://"));
    }
}

#[test]
fn paths_resolve_and_encode() {
    assert_eq!(resolve_path("file:///a/b", Some("/f")), "/a/b");
    assert_eq!(resolve_path("c d", Some("/f")), "/f/c d");
    assert_eq!(resolve_path("c", Some("/f/")), "/f/c");
    assert_eq!(resolve_path("c", None), "c");
    assert_eq!(resolve_path("", Some("/f")), "/f/");
    assert_eq!(join("", "x"), "x");
    assert_eq!(join("/a", "/b"), "/b");
    assert_eq!(path_to_file_uri("/home/u/my file#1.txt"), "file:///home/u/my%20file%231.txt");
    assert_eq!(path_to_file_uri("/"), "file:///");
    assert_eq!(path_to_file_uri("/a//b/./c/"), "file:///a/b/c");
    assert_eq!(path_to_file_uri("rel path"), "file://rel path");
    assert_eq!(resolve_to_uri("x%y", Some("/d")), "file:///d/x%25y");
    assert_eq!(
        resolve_save_file_to_uri("d", Some("/r"), Some("n.txt"), PathKind::Directory),
        "file:///r/d/n.txt"
    );
    assert_eq!(
        resolve_save_file_to_uri("d", Some("/r"), None, PathKind::Directory),
        "file:///r/d"
    );
}

#[test]
fn file_uri_round_trip() {
    for path in ["/tmp/with space", "/tmp/h#sh/q?x", "/tmp/100%/caf\u{e9}", "/"] {
        let uri = path_to_file_uri(path);
        let back = url::Url::parse(&uri).unwrap().to_file_path().unwrap();
        assert_eq!(back.to_str().unwrap(), path);
    }
}

#[test]
fn entries_resolve_against_a_directory() {
    let got = resolve_entries_to_absolute(
        &strings(&["/abs", "rel", "file://rel2", "file:///abs2"]),
        Some("/cwd"),
    );
    assert_eq!(got, vec!["/abs", "/cwd/rel", "file:///cwd/rel2", "file:///abs2"]);
    let got = resolve_entries_to_absolute(&strings(&["rel"]), None);
    assert_eq!(got, vec!["rel"]);
}

#[test]
fn single_pick_replaces_the_submission() {
    for mode in [pick(false), SelectionMode::Save, SelectionMode::SaveMultiple] {
        let opts = options(mode, None, &[]);
        let (what, text) = add_entries("old\n", &strings(&["new"]), &opts);
        assert_eq!(what, AddResult::Replaced);
        assert_eq!(text, "new\n");
    }
}

#[test]
fn dispatch_by_portal() {
    let probes = Probes {
        first_entry: PathKind::Other,
        fractions_ok: false,
    };
    let fc = PortalContext::FileChooser(options(pick(false), Some("/h"), &[]));
    let sc = PortalContext::Screenshot(ScreenshotSessionOptions {
        mode: ScreenshotMode::PickColor,
        app_id: "app".into(),
        modal: false,
    });
    assert_eq!(
        portty::portal::validate("file-chooser", "open-file", &strings(&["x"]), &fc, &probes)
            .unwrap(),
        vec!["file:///h/x"]
    );
    assert_eq!(
        portty::portal::validate("file-chooser", "open-file", &strings(&["x"]), &sc, &probes)
            .unwrap_err(),
        "invalid options: expected file-chooser options"
    );
    assert_eq!(
        portty::portal::validate("screenshot", "pick-color", &strings(&["#FF8000"]), &sc, &probes)
            .unwrap(),
        vec!["#ff8000"]
    );
    assert_eq!(
        portty::portal::validate("printer", "print", &strings(&["a", "b"]), &sc, &probes).unwrap(),
        vec!["a", "b"]
    );
    assert_eq!(
        portty::daemon::portal::validate("printer", "print", &[], &sc, &probes).unwrap(),
        Vec::<String>::new()
    );
}

#[test]
fn session_context_reads_its_portal() {
    let from_env = SessionContext::from_session_dir("/s", Some(("screenshot", "pick-color")), None)
        .unwrap();
    assert_eq!(from_env.portal, "screenshot");
    assert_eq!(from_env.operation, "pick-color");
    let from_file =
        SessionContext::from_session_dir("/s", None, Some("file-chooser\nopen-file")).unwrap();
    assert_eq!(from_file.portal, "file-chooser");
    assert_eq!(from_file.operation, "open-file");
    assert_eq!(from_file.submission_path(), "/s/submission");
    let short = SessionContext::from_session_dir("/s", None, Some("file-chooser\n")).unwrap();
    assert_eq!(short.operation, "unknown");
    let empty = SessionContext::from_session_dir("/s", None, Some("")).unwrap();
    assert_eq!(empty.portal, "unknown");
    assert!(SessionContext::from_session_dir("/s", None, None).is_none());

    let probes = Probes {
        first_entry: PathKind::Other,
        fractions_ok: false,
    };
    let fc = PortalContext::FileChooser(options(pick(true), Some("/h"), &[]));
    assert_eq!(
        from_file.validate("a\n\n/b\n", &fc, &probes).unwrap(),
        vec!["file:///h/a", "file:///b"]
    );
    let (what, text) = from_file
        .add_entries("a\n", &strings(&["/c"]), &fc)
        .unwrap();
    assert_eq!(what, AddResult::Appended(1));
    assert_eq!(text, "a\n/c\n");
    let other = SessionContext {
        portal: "printer".into(),
        operation: "print".into(),
        session_dir: "/s".into(),
    };
    let (what, text) = other.add_entries("a\n", &strings(&["b", "c"]), &fc).unwrap();
    assert_eq!(what, AddResult::Appended(2));
    assert_eq!(text, "a\nb\nc\n");
}

#[test]
fn accepted_entries_from_an_absolute_folder_are_rooted() {
    let opts = options(pick(true), Some("/home/u"), &[]);
    let got = validate(
        "open-file",
        &strings(&["a b", "file://c", "/d#e", "file:///f?g"]),
        &opts,
        PathKind::Other,
    )
    .unwrap();
    assert_eq!(got.len(), 4);
    assert!(got.iter().all(|u| u.starts_with("file:///")));
    assert!(got.iter().all(|u| !u.contains(' ') && !u.contains('#') && !u.contains('?')));
    let saved = validate(
        "save-files",
        &strings(&["/d/report.txt"]),
        &options(SelectionMode::SaveMultiple, None, &["a", "b"]),
        PathKind::File,
    )
    .unwrap();
    assert_eq!(saved, vec!["file:///d/a", "file:///d/b"]);
}

#[test]
fn file_uris_name_the_components_of_a_path() {
    assert_eq!(path_to_file_uri("/a//b"), "file:///a/b");
    assert_eq!(path_to_file_uri("/a/./b/"), "file:///a/b");
    assert_eq!(path_to_file_uri("/"), "file:///");
    assert_eq!(path_to_file_uri("/100%41"), "file:///100%2541");
}

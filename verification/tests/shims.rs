use portty::builtins::{
    clear_selection, cmd_cancel, cmd_submit, option_lines, show_session_options,
};
use portty::ipc::file_chooser::{Filter, FilterPattern, SelectionMode, SessionOptions};
use portty::ipc::protocol::Response;

#[test]
fn shims_report_plain_answers() {
    assert_eq!(clear_selection(Ok(Response::Okay)), (0, vec![]));
    assert_eq!(cmd_submit(Ok(Response::Okay)), (0, vec![]));
    assert_eq!(cmd_cancel(Ok(Response::Okay)), (0, vec![]));
    assert_eq!(
        cmd_submit(Ok(Response::Error("nothing selected".into()))),
        (1, vec!["Error: nothing selected".to_string()])
    );
    assert_eq!(
        cmd_cancel(Ok(Response::Selection(vec![]))),
        (1, vec!["Unexpected response".to_string()])
    );
    assert_eq!(
        clear_selection(Err("refused".into())),
        (1, vec!["Failed to clear selection: refused".to_string()])
    );
    assert_eq!(
        cmd_submit(Err("refused".into())),
        (1, vec!["Failed to submit: refused".to_string()])
    );
    assert_eq!(
        cmd_cancel(Err("refused".into())),
        (1, vec!["Failed to cancel: refused".to_string()])
    );
}

#[test]
fn shim_shows_the_options() {
    let plain = SessionOptions {
        title: "Open".into(),
        mode: SelectionMode::Pick { multiple: true, directory: false },
        current_folder: None,
        candidates: vec![],
        filters: vec![],
        current_filter: None,
    };
    assert_eq!(
        option_lines(&plain),
        vec!["Title: Open", "Multiple: true", "Directory: false", "Save mode: false"]
    );

    let save = SessionOptions {
        title: "Save".into(),
        mode: SelectionMode::Save,
        current_folder: Some("/tmp".into()),
        candidates: vec!["report.pdf".into()],
        filters: vec![
            Filter {
                name: "Documents".into(),
                patterns: vec![
                    FilterPattern::Glob("*.pdf".into()),
                    FilterPattern::MimeType("text/plain".into()),
                ],
            },
            Filter { name: "None".into(), patterns: vec![] },
        ],
        current_filter: Some(0),
    };
    let (code, lines) = show_session_options(Ok(Response::Options(save)));
    assert_eq!(code, 0);
    assert_eq!(
        lines,
        vec![
            "Title: Save",
            "Multiple: false",
            "Directory: false",
            "Save mode: true",
            "Current name: report.pdf",
            "Current folder: /tmp",
            "Filters:",
            "  Documents: [Glob - *.pdf, Mime - text/plain]",
            "  None: []",
        ]
    );

    assert_eq!(
        show_session_options(Ok(Response::Okay)),
        (1, vec!["Unexpected response".to_string()])
    );
    assert_eq!(
        show_session_options(Err("refused".into())),
        (1, vec!["Failed to get options: refused".to_string()])
    );
}

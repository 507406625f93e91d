use tinted_report::handler::Handler;
use tinted_report::hook::capture_settings_from_env;
use tinted_report::hook::default_hide_prefixes;
use tinted_report::hook::install;
use tinted_report::hook::verbosity_from_env;
use tinted_report::hook::HookConfig;
use tinted_report::hook::HookState;
use tinted_report::hook::InstallError;
use tinted_report::render::render;
use tinted_report::report::join_errors;
use tinted_report::report::with_note;
use tinted_report::report::with_suggestion;
use tinted_report::report::Report;
use tinted_report::Verbosity;

fn config(tag: &str) -> HookConfig {
    HookConfig {
        capture_backtrace: false,
        capture_span_trace: true,
        hide_prefixes: default_hide_prefixes(),
        color_enabled: false,
        display_env: false,
        panic_message: tag.to_string(),
    }
}

#[test]
fn only_first_install_wins() {
    let mut state = HookState::Uninstalled;
    assert!(install(&mut state, config("first")).is_ok());
    assert_eq!(
        install(&mut state, config("second")).unwrap_err(),
        InstallError::AlreadyInstalled
    );
    assert_eq!(
        install(&mut state, config("third")).unwrap_err(),
        InstallError::AlreadyInstalled
    );
    match state {
        HookState::Installed(c) => assert_eq!(c.panic_message.as_str(), "first"),
        HookState::Uninstalled => panic!("hook should be installed"),
    }
}

#[test]
fn verbosity_resolution_order() {
    assert_eq!(verbosity_from_env(None, None), Verbosity::Minimal);
    assert_eq!(verbosity_from_env(Some("full".to_string()), None), Verbosity::Full);
    assert_eq!(verbosity_from_env(Some("1".to_string()), None), Verbosity::Short);
    assert_eq!(verbosity_from_env(Some("0".to_string()), None), Verbosity::Minimal);
    assert_eq!(verbosity_from_env(None, Some("full".to_string())), Verbosity::Full);
    assert_eq!(verbosity_from_env(None, Some("1".to_string())), Verbosity::Short);
    assert_eq!(
        verbosity_from_env(Some("1".to_string()), Some("full".to_string())),
        Verbosity::Short
    );
}

#[test]
fn span_capture_disabled_only_by_zero() {
    let s = capture_settings_from_env(None, None, None);
    assert!(s.capture_span_trace);
    assert!(!s.capture_backtrace);
    let s = capture_settings_from_env(None, None, Some("0".to_string()));
    assert!(!s.capture_span_trace);
    let s = capture_settings_from_env(None, None, Some("1".to_string()));
    assert!(s.capture_span_trace);
    let s = capture_settings_from_env(Some("1".to_string()), None, None);
    assert!(s.capture_backtrace);
    let s = capture_settings_from_env(Some("full".to_string()), None, None);
    assert!(s.capture_backtrace);
}

#[test]
fn default_prefixes_cover_runtime_frames() {
    let ps = default_hide_prefixes();
    let names: Vec<&str> = ps.iter().map(|s| s.as_str()).collect();
    assert_eq!(
        names,
        vec![
            "std::",
            "core::",
            "alloc::",
            "backtrace::",
            "rust_begin_unwind",
            "__libc_start",
            "_start",
        ]
    );
}

#[test]
fn join_all_ok_is_ok() {
    let results: Vec<Result<(), Vec<String>>> = vec![Ok(()), Ok(()), Ok(())];
    assert!(join_errors(results).is_ok());
}

#[test]
fn join_empty_is_ok() {
    let results: Vec<Result<(), Vec<String>>> = Vec::new();
    assert!(join_errors(results).is_ok());
}

#[test]
fn join_three_errors_in_order() {
    let results: Vec<Result<(), Vec<String>>> = vec![
        Err(vec!["The task could not be complete".to_string(),
            "The task you ran encountered an error".to_string()]),
        Err(vec!["the machine is unreachable".to_string()]),
        Err(vec!["The file could not be parsed".to_string()]),
    ];
    let report = join_errors(results).unwrap_err();
    assert_eq!(report.chain.len(), 1);
    assert_eq!(report.chain[0].as_str(), "encountered multiple errors");
    assert_eq!(report.handler.sections.len(), 3);
    let filter = tinted_report::render::FrameFilter { hide_prefixes: Vec::new() };
    let out = render(&report, &filter, Verbosity::Minimal).unwrap();
    assert_eq!(
        out.as_str(),
        "Error:\n   0: encountered multiple errors\n\nError:\n   0: The task could not be complete\n   1: The task you ran encountered an error\n\nError:\n   0: the machine is unreachable\n\nError:\n   0: The file could not be parsed\n"
    );
}

#[test]
fn join_skips_successes_but_keeps_order() {
    let results: Vec<Result<(), Vec<String>>> = vec![
        Ok(()),
        Err(vec!["B".to_string()]),
        Ok(()),
        Err(vec!["C".to_string()]),
    ];
    let report = join_errors(results).unwrap_err();
    assert_eq!(report.handler.sections.len(), 2);
    let filter = tinted_report::render::FrameFilter { hide_prefixes: Vec::new() };
    let out = render(&report, &filter, Verbosity::Minimal).unwrap();
    let b = out.find("0: B").unwrap();
    let c = out.find("0: C").unwrap();
    assert!(b < c);
}

#[test]
fn attachment_is_noop_on_success() {
    let ok: Result<u32, Report> = Ok(7);
    let ok = with_suggestion(ok, "will not appear".to_string());
    let ok = with_note(ok, "nor this".to_string());
    assert_eq!(ok.unwrap(), 7);
}

#[test]
fn attachment_lands_on_error_arm() {
    let err: Result<u32, Report> = Err(Report::new("boom".to_string(), Handler::new_empty()));
    let err = with_suggestion(err, "try again".to_string());
    let report = err.unwrap_err();
    let filter = tinted_report::render::FrameFilter { hide_prefixes: Vec::new() };
    let out = render(&report, &filter, Verbosity::Minimal).unwrap();
    assert_eq!(out.as_str(), "Error:\n   0: boom\n\nSuggestion: try again\n");
}

#[test]
fn wrap_err_prepends_context() {
    let report = Report::new("root".to_string(), Handler::new_empty())
        .wrap_err("middle".to_string())
        .wrap_err("top".to_string());
    let filter = tinted_report::render::FrameFilter { hide_prefixes: Vec::new() };
    let out = render(&report, &filter, Verbosity::Minimal).unwrap();
    assert_eq!(out.as_str(), "Error:\n   0: top\n   1: middle\n   2: root\n");
}

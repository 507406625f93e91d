use tinted_report::handler::CaptureSettings;
use tinted_report::handler::Frame;
use tinted_report::handler::Handler;
use tinted_report::handler::SourceWindow;
use tinted_report::handler::SpanFrame;
use tinted_report::render::render;
use tinted_report::render::FrameFilter;
use tinted_report::report::Report;
use tinted_report::Verbosity;

fn no_filter() -> FrameFilter {
    FrameFilter { hide_prefixes: Vec::new() }
}

fn span_frame(name: &str, fields: &str, file: Option<&str>, line: Option<u64>) -> SpanFrame {
    SpanFrame {
        name: name.to_string(),
        fields: fields.to_string(),
        file: file.map(|f| f.to_string()),
        line,
    }
}

fn bt_frame(name: &str, file: Option<&str>, line: Option<u64>) -> Frame {
    Frame {
        name: name.to_string(),
        file: file.map(|f| f.to_string()),
        line,
        source_window: None,
    }
}

fn with_span_trace() -> Report {
    let handler = Handler {
        backtrace: None,
        span_trace: Some(vec![
            span_frame("usage::read_file", "path=\"fake_file\"", Some("examples/usage.rs"), Some(32)),
            span_frame("usage::read_config", "", Some("examples/usage.rs"), Some(38)),
        ]),
        sections: Vec::new(),
    };
    Report { chain: vec!["boom".to_string()], handler }
}

#[test]
fn span_trace_hidden_at_minimal() {
    let report = with_span_trace();
    let out = render(&report, &no_filter(), Verbosity::Minimal).unwrap();
    assert_eq!(out.as_str(), "Error:\n   0: boom\n");
}

#[test]
fn span_trace_block_at_short() {
    let report = with_span_trace();
    let out = render(&report, &no_filter(), Verbosity::Short).unwrap();
    assert_eq!(
        out.as_str(),
        "Error:\n   0: boom\n\nSPANTRACE:\n   0: usage::read_file with path=\"fake_file\"\n      at examples/usage.rs:32\n   1: usage::read_config\n      at examples/usage.rs:38\n"
    );
}

#[test]
fn minimal_output_is_prefix_of_short_and_full() {
    let handler = Handler {
        backtrace: Some(vec![bt_frame("app::main", Some("src/app.rs"), Some(7))]),
        span_trace: Some(vec![span_frame("app::run", "", None, None)]),
        sections: Vec::new(),
    };
    let report = Report { chain: vec!["boom".to_string()], handler };
    let minimal = render(&report, &no_filter(), Verbosity::Minimal).unwrap();
    let short = render(&report, &no_filter(), Verbosity::Short).unwrap();
    let full = render(&report, &no_filter(), Verbosity::Full).unwrap();
    assert!(short.starts_with(minimal.as_str()));
    assert!(full.starts_with(minimal.as_str()));
    assert!(short.len() > minimal.len());
}

#[test]
fn backtrace_block_with_location() {
    let handler = Handler {
        backtrace: Some(vec![
            bt_frame("app::inner", Some("src/app.rs"), Some(12)),
            bt_frame("app::main", Some("src/app.rs"), None),
            bt_frame("mystery", None, Some(3)),
        ]),
        span_trace: None,
        sections: Vec::new(),
    };
    let report = Report { chain: vec!["boom".to_string()], handler };
    let out = render(&report, &no_filter(), Verbosity::Short).unwrap();
    assert_eq!(
        out.as_str(),
        "Error:\n   0: boom\n\nBACKTRACE:\n   0: app::inner\n      at src/app.rs:12\n   1: app::main\n      at src/app.rs\n   2: mystery\n"
    );
}

#[test]
fn hidden_frames_collapse_with_absolute_indices() {
    let handler = Handler {
        backtrace: Some(vec![
            bt_frame("std::rt::begin", None, None),
            bt_frame("std::panicking::try", None, None),
            bt_frame("app::main", Some("src/app.rs"), Some(7)),
            bt_frame("std::rt::end", None, None),
        ]),
        span_trace: None,
        sections: Vec::new(),
    };
    let report = Report { chain: vec!["boom".to_string()], handler };
    let filter = FrameFilter { hide_prefixes: vec!["std::".to_string()] };
    let out = render(&report, &filter, Verbosity::Short).unwrap();
    assert_eq!(
        out.as_str(),
        "Error:\n   0: boom\n\nBACKTRACE:\n   ( 2 frames hidden )\n   2: app::main\n      at src/app.rs:7\n   ( 1 frames hidden )\n"
    );
}

#[test]
fn source_window_only_at_full_with_marked_line() {
    let frame = Frame {
        name: "app::main".to_string(),
        file: Some("src/app.rs".to_string()),
        line: Some(7),
        source_window: Some(SourceWindow {
            first_line: 6,
            lines: vec![
                "fn main() {".to_string(),
                "    boom();".to_string(),
                "}".to_string(),
            ],
        }),
    };
    let handler = Handler { backtrace: Some(vec![frame]), span_trace: None, sections: Vec::new() };
    let report = Report { chain: vec!["boom".to_string()], handler };
    let short = render(&report, &no_filter(), Verbosity::Short).unwrap();
    assert!(!short.contains("boom();"));
    let full = render(&report, &no_filter(), Verbosity::Full).unwrap();
    assert_eq!(
        full.as_str(),
        "Error:\n   0: boom\n\nBACKTRACE:\n   0: app::main\n      at src/app.rs:7\n      6 | fn main() {\n      7 >     boom();\n      8 | }\n"
    );
    assert!(full.starts_with(short.as_str()));
}

#[test]
fn disabled_captures_stay_absent() {
    let handler = Handler::capture(CaptureSettings {
        capture_backtrace: false,
        capture_span_trace: false,
    });
    assert!(handler.backtrace.is_none());
    assert!(handler.span_trace.is_none());
    assert!(handler.sections.is_empty());
}

#[test]
fn capture_starts_with_no_sections() {
    let handler = Handler::capture(CaptureSettings {
        capture_backtrace: true,
        capture_span_trace: true,
    });
    assert!(handler.sections.is_empty());
    if let Some(frames) = &handler.backtrace {
        for f in frames {
            assert!(f.source_window.is_none());
        }
    }
}

#[test]
fn verbosity_order_is_total() {
    for v in [Verbosity::Minimal, Verbosity::Short, Verbosity::Full] {
        assert!(v.at_least(Verbosity::Minimal));
        assert!(Verbosity::Full.at_least(v));
        assert!(v.at_least(v));
    }
    assert!(!Verbosity::Minimal.at_least(Verbosity::Short));
    assert!(!Verbosity::Short.at_least(Verbosity::Full));
}

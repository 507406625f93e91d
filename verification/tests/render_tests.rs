use tinted_report::handler::Handler;
use tinted_report::render::render;
use tinted_report::render::FrameFilter;
use tinted_report::render::RenderError;
use tinted_report::report::Report;
use tinted_report::Verbosity;

fn no_filter() -> FrameFilter {
    FrameFilter { hide_prefixes: Vec::new() }
}

fn chain_report(msgs: &[&str]) -> Report {
    let mut it = msgs.iter().rev();
    let root = *it.next().expect("at least one message");
    let mut report = Report::new(root.to_string(), Handler::new_empty());
    for msg in it {
        report = report.wrap_err(msg.to_string());
    }
    report
}

#[test]
fn minimal_chain_exact_output() {
    let report = chain_report(&[
        "Unable to read config",
        "No such file or directory (os error 2)",
    ]);
    let out = render(&report, &no_filter(), Verbosity::Minimal).unwrap();
    assert_eq!(
        out.as_str(),
        "Error:\n   0: Unable to read config\n   1: No such file or directory (os error 2)\n"
    );
}

#[test]
fn bare_report_same_at_every_verbosity() {
    let report = chain_report(&["top", "root"]);
    let minimal = render(&report, &no_filter(), Verbosity::Minimal).unwrap();
    let short = render(&report, &no_filter(), Verbosity::Short).unwrap();
    let full = render(&report, &no_filter(), Verbosity::Full).unwrap();
    assert_eq!(minimal, short);
    assert_eq!(minimal, full);
    assert!(!minimal.contains("SPANTRACE"));
    assert!(!minimal.contains("BACKTRACE"));
}

#[test]
fn single_message_renders_header_and_one_line() {
    let report = Report::new("boom".to_string(), Handler::new_empty());
    let out = render(&report, &no_filter(), Verbosity::Minimal).unwrap();
    assert_eq!(out.as_str(), "Error:\n   0: boom\n");
}

#[test]
fn empty_chain_renders_header_only() {
    let report = Report { chain: Vec::new(), handler: Handler::new_empty() };
    let out = render(&report, &no_filter(), Verbosity::Minimal).unwrap();
    assert_eq!(out.as_str(), "Error:\n");
}

#[test]
fn empty_stdout_section_is_suppressed() {
    let report = chain_report(&["Unable to read config", "cmd exited with non-zero status code"])
        .section("Stdout:".to_string(), "".to_string())
        .section(
            "Stderr:".to_string(),
            "cat: fake_file: No such file or directory".to_string(),
        );
    let out = render(&report, &no_filter(), Verbosity::Minimal).unwrap();
    assert!(!out.contains("Stdout:"));
    assert!(out.contains("Stderr:"));
    assert_eq!(
        out.as_str(),
        "Error:\n   0: Unable to read config\n   1: cmd exited with non-zero status code\n\nStderr:\n   cat: fake_file: No such file or directory\n"
    );
}

#[test]
fn whitespace_only_body_is_suppressed() {
    let report = Report::new("boom".to_string(), Handler::new_empty())
        .section("Spaces:".to_string(), "  \t\n ".to_string())
        .suggestion("   ".to_string());
    let out = render(&report, &no_filter(), Verbosity::Minimal).unwrap();
    assert_eq!(out.as_str(), "Error:\n   0: boom\n");
}

#[test]
fn suggestion_warning_note_labels() {
    let report = Report::new("boom".to_string(), Handler::new_empty())
        .suggestion("try using a file that exists next time".to_string())
        .warning("this might be slow".to_string())
        .note("seen once before".to_string());
    let out = render(&report, &no_filter(), Verbosity::Minimal).unwrap();
    assert_eq!(
        out.as_str(),
        "Error:\n   0: boom\n\nSuggestion: try using a file that exists next time\n\nWarning: this might be slow\n\nNote: seen once before\n"
    );
}

#[test]
fn multi_line_body_is_indented() {
    let report = Report::new("boom".to_string(), Handler::new_empty())
        .section("Output:".to_string(), "first\nsecond".to_string());
    let out = render(&report, &no_filter(), Verbosity::Minimal).unwrap();
    assert_eq!(
        out.as_str(),
        "Error:\n   0: boom\n\nOutput:\n   first\n   second\n"
    );
}

#[test]
fn sections_keep_attachment_order() {
    let report = Report::new("boom".to_string(), Handler::new_empty())
        .note("first".to_string())
        .note("second".to_string());
    let out = render(&report, &no_filter(), Verbosity::Minimal).unwrap();
    let first = out.find("Note: first").unwrap();
    let second = out.find("Note: second").unwrap();
    assert!(first < second);
}

#[test]
fn peer_cause_renders_nested_chain() {
    let report = Report::new("boom".to_string(), Handler::new_empty())
        .error(vec!["peer context".to_string(), "peer root".to_string()]);
    let out = render(&report, &no_filter(), Verbosity::Minimal).unwrap();
    assert_eq!(
        out.as_str(),
        "Error:\n   0: boom\n\nError:\n   0: peer context\n   1: peer root\n"
    );
}

#[test]
fn peer_causes_come_before_other_sections() {
    let report = Report::new("boom".to_string(), Handler::new_empty())
        .note("advice".to_string())
        .error(vec!["peer".to_string()]);
    let out = render(&report, &no_filter(), Verbosity::Minimal).unwrap();
    assert_eq!(
        out.as_str(),
        "Error:\n   0: boom\n\nError:\n   0: peer\n\nNote: advice\n"
    );
}

#[test]
fn double_digit_chain_indices() {
    let msgs: Vec<String> = (0..12).map(|i| format!("m{}", i)).collect();
    let refs: Vec<&str> = msgs.iter().map(|s| s.as_str()).collect();
    let report = chain_report(&refs);
    let out = render(&report, &no_filter(), Verbosity::Minimal).unwrap();
    assert!(out.contains("   9: m9\n"));
    assert!(out.contains("   10: m10\n"));
    assert!(out.contains("   11: m11\n"));
}

#[test]
fn chain_over_cap_is_a_fault() {
    let mut chain = Vec::new();
    for i in 0..257 {
        chain.push(format!("link {}", i));
    }
    let report = Report { chain, handler: Handler::new_empty() };
    let r = render(&report, &no_filter(), Verbosity::Minimal);
    assert_eq!(r.unwrap_err(), RenderError::ChainTooLong);
}

#[test]
fn chain_at_cap_still_renders() {
    let mut chain = Vec::new();
    for i in 0..256 {
        chain.push(format!("link {}", i));
    }
    let report = Report { chain, handler: Handler::new_empty() };
    let out = render(&report, &no_filter(), Verbosity::Minimal).unwrap();
    assert!(out.contains("   255: link 255\n"));
}

#[test]
fn peer_cause_over_cap_is_a_fault() {
    let mut peer = Vec::new();
    for i in 0..257 {
        peer.push(format!("link {}", i));
    }
    let report = Report::new("boom".to_string(), Handler::new_empty()).error(peer);
    let r = render(&report, &no_filter(), Verbosity::Minimal);
    assert_eq!(r.unwrap_err(), RenderError::ChainTooLong);
}

//! Per-report captured diagnostic context: an optional stack trace, an
//! optional execution-scope trace, and the ordered list of attached sections.
//!
//! Trace capture goes through the `backtrace` and `tracing-error` crates; the
//! captured frames are held as plain values so that everything downstream of
//! capture is ordinary verified data.
use vstd::prelude::*;

use crate::section::HelpInfo;
use crate::section::SectionView;

verus! {

/// A window of source lines around a frame's reported line.
#[derive(Debug, Clone)]
pub struct SourceWindow {
    /// The one-based number of the first line in `lines`.
    pub first_line: u64,
    /// The consecutive source lines of the window.
    pub lines: Vec<String>,
}

/// One captured stack frame, reduced to what rendering reads.
#[derive(Debug, Clone)]
pub struct Frame {
    /// The demangled symbol name, or empty when unknown.
    pub name: String,
    /// The source file path, when resolved.
    pub file: Option<String>,
    /// The one-based source line, when resolved.
    pub line: Option<u64>,
    /// Source context around `line`, when a collaborator fetched it.
    pub source_window: Option<SourceWindow>,
}

/// One captured execution-scope frame.
#[derive(Debug, Clone)]
pub struct SpanFrame {
    /// The scope's qualified name.
    pub name: String,
    /// The formatted key=value context pairs recorded on the scope.
    pub fields: String,
    /// The source file path, when known.
    pub file: Option<String>,
    /// The one-based source line, when known.
    pub line: Option<u64>,
}

pub ghost struct WindowView {
    pub first_line: u64,
    pub lines: Seq<Seq<char>>,
}

pub ghost struct FrameView {
    pub name: Seq<char>,
    pub file: Option<Seq<char>>,
    pub line: Option<u64>,
    pub window: Option<WindowView>,
}

pub ghost struct SpanFrameView {
    pub name: Seq<char>,
    pub fields: Seq<char>,
    pub file: Option<Seq<char>>,
    pub line: Option<u64>,
}

impl View for SourceWindow {
    type V = WindowView;

    open spec fn view(&self) -> WindowView {
        WindowView { first_line: self.first_line, lines: self.lines.deep_view() }
    }
}

impl View for Frame {
    type V = FrameView;

    open spec fn view(&self) -> FrameView {
        FrameView {
            name: self.name@,
            file: match self.file {
                Some(f) => Some(f@),
                None => None,
            },
            line: self.line,
            window: match self.source_window {
                Some(w) => Some(w@),
                None => None,
            },
        }
    }
}

impl DeepView for Frame {
    type V = FrameView;

    open spec fn deep_view(&self) -> FrameView {
        self.view()
    }
}

impl View for SpanFrame {
    type V = SpanFrameView;

    open spec fn view(&self) -> SpanFrameView {
        SpanFrameView {
            name: self.name@,
            fields: self.fields@,
            file: match self.file {
                Some(f) => Some(f@),
                None => None,
            },
            line: self.line,
        }
    }
}

impl DeepView for SpanFrame {
    type V = SpanFrameView;

    open spec fn deep_view(&self) -> SpanFrameView {
        self.view()
    }
}

/// A frame is well formed when the line numbers of its source window cannot
/// overflow a machine integer while being counted out.
pub open spec fn frame_view_wf(f: FrameView) -> bool {
    match f.window {
        Some(w) => w.first_line + w.lines.len() <= u64::MAX,
        None => true,
    }
}

/// The diagnostic context owned by one report.
#[derive(Debug, Clone)]
pub struct Handler {
    /// The captured stack trace, absent when capture was disabled or failed.
    pub backtrace: Option<Vec<Frame>>,
    /// The captured scope trace, absent when capture was disabled or failed.
    pub span_trace: Option<Vec<SpanFrame>>,
    /// Attached sections; insertion order is display order.
    pub sections: Vec<HelpInfo>,
}

pub ghost struct HandlerView {
    pub backtrace: Option<Seq<FrameView>>,
    pub span_trace: Option<Seq<SpanFrameView>>,
    pub sections: Seq<SectionView>,
}

impl View for Handler {
    type V = HandlerView;

    open spec fn view(&self) -> HandlerView {
        HandlerView {
            backtrace: match self.backtrace {
                Some(fs) => Some(fs.deep_view()),
                None => None,
            },
            span_trace: match self.span_trace {
                Some(fs) => Some(fs.deep_view()),
                None => None,
            },
            sections: self.sections.deep_view(),
        }
    }
}

/// Every captured frame of the handler is well formed.
pub open spec fn handler_view_wf(h: HandlerView) -> bool {
    match h.backtrace {
        Some(fs) => forall|i: int| 0 <= i < fs.len() ==> frame_view_wf(#[trigger] fs[i]),
        None => true,
    }
}

/// Which captures the handler performs, resolved from configuration and
/// environment before a report is constructed.
#[derive(Clone, Copy, Debug, PartialEq, Eq, Structural)]
pub struct CaptureSettings {
    /// Capture a stack trace on report construction.
    pub capture_backtrace: bool,
    /// Capture an execution-scope trace on report construction.
    pub capture_span_trace: bool,
}

#[verifier::external_type_specification]
#[verifier::external_body]
pub struct ExBacktrace(backtrace::Backtrace);

#[verifier::external_type_specification]
#[verifier::external_body]
pub struct ExSpanTrace(tracing_error::SpanTrace);

/// Relies on `backtrace::Backtrace::new`: captures the current call stack.
/// What it holds depends on the machine, so nothing is promised of it.
#[verifier::external_body]
fn capture_backtrace_raw() -> backtrace::Backtrace {
    backtrace::Backtrace::new()
}

/// Relies on `backtrace::Backtrace::frames` and the per-symbol accessors
/// `name`, `filename` and `lineno`: maps each resolved symbol to one plain
/// frame, in stack order, innermost first. The frames depend on the machine;
/// only the absence of source windows (nothing fetches them here) is stated.
#[verifier::external_body]
fn backtrace_frame_list(bt: &backtrace::Backtrace) -> (r: Vec<Frame>)
    ensures
        forall|i: int| 0 <= i < r.deep_view().len() ==> (#[trigger] r.deep_view()[i]).window is None,
{
    bt.frames().iter().flat_map(|f| f.symbols()).map(|s| Frame {
        name: s.name().map(|n| n.to_string()).unwrap_or_default(),
        file: s.filename().map(|p| p.display().to_string()),
        line: s.lineno().map(|l| l as u64),
        source_window: None,
    }).collect()
}

/// Relies on `tracing_error::SpanTrace::capture`: records the scopes active
/// on this thread. What it holds depends on the process state, so nothing is
/// promised of it.
#[verifier::external_body]
fn capture_span_trace_raw() -> tracing_error::SpanTrace {
    tracing_error::SpanTrace::capture()
}

/// Relies on `tracing_error::SpanTrace::status`: true exactly in the captured
/// state, false in the empty and unsupported states.
#[verifier::external_body]
fn span_trace_is_captured(st: &tracing_error::SpanTrace) -> bool {
    st.status() == tracing_error::SpanTraceStatus::CAPTURED
}

/// Relies on `tracing_error::SpanTrace::with_spans`: visits every captured
/// scope in order, innermost first, handing its metadata and formatted
/// fields; each visit is converted to one plain frame. The frames depend on
/// the process state, so nothing is promised of them.
#[verifier::external_body]
fn span_trace_frame_list(st: &tracing_error::SpanTrace) -> Vec<SpanFrame> {
    let mut v = Vec::new();
    st.with_spans(|meta, fields| {
        v.push(SpanFrame {
            name: format!("{}::{}", meta.target(), meta.name()),
            fields: fields.to_string(),
            file: meta.file().map(|f| f.to_string()),
            line: meta.line().map(|l| l as u64),
        });
        true
    });
    v
}

impl Handler {
    /// A handler with nothing captured and no sections: what a report gets
    /// when it is constructed before any hook was installed.
    pub fn new_empty() -> (r: Handler)
        ensures
            r@.backtrace is None,
            r@.span_trace is None,
            r@.sections == Seq::<SectionView>::empty(),
            handler_view_wf(r@),
    {
        Handler { backtrace: None, span_trace: None, sections: Vec::new() }
    }

    /// Performs the capture step for a new report: each collaborator is
    /// invoked exactly when its setting enables it, a failed or unsupported
    /// capture degrades to absent, and the section list starts empty.
    pub fn capture(settings: CaptureSettings) -> (r: Handler)
        ensures
            r@.sections == Seq::<SectionView>::empty(),
            settings.capture_backtrace == (r@.backtrace is Some),
            !settings.capture_span_trace ==> r@.span_trace is None,
            handler_view_wf(r@),
    {
        let backtrace = if settings.capture_backtrace {
            let raw = capture_backtrace_raw();
            Some(backtrace_frame_list(&raw))
        } else {
            None
        };
        let span_trace = if settings.capture_span_trace {
            let raw = capture_span_trace_raw();
            if span_trace_is_captured(&raw) {
                Some(span_trace_frame_list(&raw))
            } else {
                None
            }
        } else {
            None
        };
        Handler { backtrace, span_trace, sections: Vec::new() }
    }
}

} // verus!

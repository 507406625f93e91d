//! The install-once hook state machine and the environment-driven resolution
//! of verbosity and capture settings.
//!
//! The installed state is explicit, process-scoped data with a documented
//! lifecycle: uninstalled at process start, installed at most once, never
//! torn down. The transition itself is a pure function of the current state;
//! serializing concurrent attempts onto it (so that exactly one wins) is the
//! embedding program's one-time-initialization cell.
use vstd::prelude::*;
use vstd::string::StringExecFns;
use vstd::string::StrSliceExecFns;

use crate::handler::CaptureSettings;
use crate::render::FrameFilter;
use crate::Verbosity;

verus! {

/// The configuration a successful install records.
#[derive(Debug)]
pub struct HookConfig {
    /// Capture a stack trace for every subsequent report.
    pub capture_backtrace: bool,
    /// Capture an execution-scope trace for every subsequent report.
    pub capture_span_trace: bool,
    /// Name prefixes of backtrace frames to collapse as noise.
    pub hide_prefixes: Vec<String>,
    /// Whether rendered output may use color.
    pub color_enabled: bool,
    /// Whether the panic path reports process metadata.
    pub display_env: bool,
    /// The message the panic path renders above the panic payload.
    pub panic_message: String,
}

pub ghost struct HookConfigView {
    pub capture_backtrace: bool,
    pub capture_span_trace: bool,
    pub hide_prefixes: Seq<Seq<char>>,
    pub color_enabled: bool,
    pub display_env: bool,
    pub panic_message: Seq<char>,
}

impl View for HookConfig {
    type V = HookConfigView;

    open spec fn view(&self) -> HookConfigView {
        HookConfigView {
            capture_backtrace: self.capture_backtrace,
            capture_span_trace: self.capture_span_trace,
            hide_prefixes: self.hide_prefixes.deep_view(),
            color_enabled: self.color_enabled,
            display_env: self.display_env,
            panic_message: self.panic_message@,
        }
    }
}

impl HookConfig {
    /// The capture settings this configuration asks a new handler to use.
    pub fn capture_settings(&self) -> (r: CaptureSettings)
        ensures
            r.capture_backtrace == self@.capture_backtrace,
            r.capture_span_trace == self@.capture_span_trace,
    {
        CaptureSettings {
            capture_backtrace: self.capture_backtrace,
            capture_span_trace: self.capture_span_trace,
        }
    }

    /// The frame filter this configuration renders with.
    pub fn frame_filter(self) -> (r: FrameFilter)
        ensures
            r.hide_prefixes.deep_view() == self@.hide_prefixes,
    {
        FrameFilter { hide_prefixes: self.hide_prefixes }
    }
}

/// The name prefixes hidden by default: the language runtime's own frames and
/// the capture machinery, which surround every user frame.
pub fn default_hide_prefixes() -> (r: Vec<String>)
    ensures
        r.deep_view() == seq![
            "std::"@,
            "core::"@,
            "alloc::"@,
            "backtrace::"@,
            "rust_begin_unwind"@,
            "__libc_start"@,
            "_start"@,
        ],
{
    let mut ps: Vec<String> = Vec::new();
    ps.push(String::from_str("std::"));
    ps.push(String::from_str("core::"));
    ps.push(String::from_str("alloc::"));
    ps.push(String::from_str("backtrace::"));
    ps.push(String::from_str("rust_begin_unwind"));
    ps.push(String::from_str("__libc_start"));
    ps.push(String::from_str("_start"));
    proof {
        assert(ps.deep_view() =~= seq![
            "std::"@,
            "core::"@,
            "alloc::"@,
            "backtrace::"@,
            "rust_begin_unwind"@,
            "__libc_start"@,
            "_start"@,
        ]);
    }
    ps
}

/// The process-wide hook lifecycle: uninstalled at start, installed at most
/// once, with no path back.
#[derive(Debug)]
pub enum HookState {
    /// No hook has been installed yet.
    Uninstalled,
    /// A hook was installed with the recorded configuration.
    Installed(HookConfig),
}

pub ghost enum HookStateView {
    Uninstalled,
    Installed(HookConfigView),
}

impl View for HookState {
    type V = HookStateView;

    open spec fn view(&self) -> HookStateView {
        match self {
            HookState::Uninstalled => HookStateView::Uninstalled,
            HookState::Installed(c) => HookStateView::Installed(c@),
        }
    }
}

/// Why an install attempt failed.
#[derive(Debug, Clone, Copy, PartialEq, Eq, Structural)]
pub enum InstallError {
    /// A hook was already installed; nothing was changed.
    AlreadyInstalled,
}

/// What one install attempt does: the state it leaves, and whether the
/// attempt won.
pub open spec fn install_transition(s: HookStateView, c: HookConfigView) -> (HookStateView, bool) {
    match s {
        HookStateView::Uninstalled => (HookStateView::Installed(c), true),
        HookStateView::Installed(_) => (s, false),
    }
}

/// Installs the hook configuration into the process-wide state. Only an
/// attempt that finds the state uninstalled succeeds; any later attempt fails
/// with the already-installed error and leaves the recorded configuration
/// exactly as the winning call left it.
pub fn install(state: &mut HookState, config: HookConfig) -> (r: Result<(), InstallError>)
    ensures
        final(state)@ == install_transition(old(state)@, config@).0,
        (r is Ok) == install_transition(old(state)@, config@).1,
        r is Err ==> r->Err_0 == InstallError::AlreadyInstalled,
{
    let already = match &*state {
        HookState::Uninstalled => false,
        HookState::Installed(_) => true,
    };
    if already {
        Err(InstallError::AlreadyInstalled)
    } else {
        *state = HookState::Installed(config);
        Ok(())
    }
}

/// The tier a single environment value selects: `full` asks for everything,
/// `0` disables, anything else asks for the short form.
pub open spec fn parse_level(s: Seq<char>) -> Verbosity {
    if s == "full"@ {
        Verbosity::Full
    } else if s == "0"@ {
        Verbosity::Minimal
    } else {
        Verbosity::Short
    }
}

/// The tier the environment selects: the library-specific variable wins over
/// the general one; with neither set, the minimal tier.
pub open spec fn verbosity_choice(
    lib_backtrace: Option<Seq<char>>,
    backtrace: Option<Seq<char>>,
) -> Verbosity {
    match lib_backtrace {
        Some(s) => parse_level(s),
        None => match backtrace {
            Some(s) => parse_level(s),
            None => Verbosity::Minimal,
        },
    }
}

/// True exactly when the two strings hold the same characters.
fn str_eq(s: &str, t: &str) -> (r: bool)
    ensures
        r == (s@ == t@),
{
    let sl = s.unicode_len();
    let tl = t.unicode_len();
    if sl != tl {
        return false;
    }
    let mut i: usize = 0;
    while i < sl
        invariant
            i <= sl,
            sl == s@.len(),
            sl == tl,
            tl == t@.len(),
            forall|j: int| 0 <= j < i ==> s@[j] == t@[j],
        decreases sl - i,
    {
        if s.get_char(i) != t.get_char(i) {
            return false;
        }
        i += 1;
    }
    proof {
        assert(s@ =~= t@);
    }
    true
}

fn parse_level_exec(s: &String) -> (r: Verbosity)
    ensures
        r == parse_level(s@),
{
    if str_eq(s.as_str(), "full") {
        Verbosity::Full
    } else if str_eq(s.as_str(), "0") {
        Verbosity::Minimal
    } else {
        Verbosity::Short
    }
}

/// Resolves the render tier from the two recognized environment values, the
/// library-specific one taking precedence; both absent means minimal.
pub fn verbosity_from_env(lib_backtrace: Option<String>, backtrace: Option<String>) -> (r:
    Verbosity)
    ensures
        r == verbosity_choice(lib_backtrace.deep_view(), backtrace.deep_view()),
{
    match &lib_backtrace {
        Some(s) => parse_level_exec(s),
        None => match &backtrace {
            Some(s) => parse_level_exec(s),
            None => Verbosity::Minimal,
        },
    }
}

/// The capture settings the environment selects: a stack trace is captured
/// exactly when the resolved tier would show it, and scope-trace capture is
/// on unless explicitly disabled with `0`.
pub open spec fn capture_choice(
    lib_backtrace: Option<Seq<char>>,
    backtrace: Option<Seq<char>>,
    spantrace: Option<Seq<char>>,
) -> CaptureSettings {
    CaptureSettings {
        capture_backtrace: verbosity_choice(lib_backtrace, backtrace).level() >= 1,
        capture_span_trace: match spantrace {
            Some(s) => s != "0"@,
            None => true,
        },
    }
}

/// Resolves the capture settings from the three recognized environment
/// values.
pub fn capture_settings_from_env(
    lib_backtrace: Option<String>,
    backtrace: Option<String>,
    spantrace: Option<String>,
) -> (r: CaptureSettings)
    ensures
        r == capture_choice(
            lib_backtrace.deep_view(),
            backtrace.deep_view(),
            spantrace.deep_view(),
        ),
{
    let v = verbosity_from_env(lib_backtrace, backtrace);
    let span = match &spantrace {
        Some(s) => !str_eq(s.as_str(), "0"),
        None => true,
    };
    CaptureSettings { capture_backtrace: v.at_least(Verbosity::Short), capture_span_trace: span }
}

} // verus!

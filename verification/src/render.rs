//! The tiered renderer: turns a report's causal chain, sections and captured
//! traces into deterministic line-oriented text.
//!
//! The layout, in order: a `Error:` header; the numbered causal chain; one
//! nested numbered block per attached peer cause; the remaining sections in
//! attachment order, blank bodies suppressed; at `Short` and above a
//! `SPANTRACE:` block and a `BACKTRACE:` block when the corresponding capture
//! is present, with runs of filtered backtrace frames collapsed to a count;
//! at `Full` additionally each frame's captured source window. The causal
//! walk is defensively capped at [`CHAIN_WALK_CAP`] links; a longer chain is
//! reported as a rendering fault rather than walked without bound.
use vstd::prelude::*;
use vstd::string::StringExecFns;
use vstd::string::StrSliceExecFns;

use crate::handler::frame_view_wf;
use crate::handler::handler_view_wf;
use crate::handler::Frame;
use crate::handler::FrameView;
use crate::handler::HandlerView;
use crate::handler::SpanFrame;
use crate::handler::SpanFrameView;
use crate::handler::WindowView;
use crate::report::Report;
use crate::report::ReportView;
use crate::section::HelpInfo;
use crate::section::SectionView;
use crate::text::append_dec;
use crate::text::append_indented;
use crate::text::check_blank;
use crate::text::dec;
use crate::text::indented;
use crate::text::is_blank;
use crate::Verbosity;

verus! {

/// The most causal links a single chain walk will emit.
pub const CHAIN_WALK_CAP: usize = 256;

/// A rendering fault: no output was produced.
#[derive(Debug, Clone, Copy, PartialEq, Eq, Structural)]
pub enum RenderError {
    /// A chain exceeded [`CHAIN_WALK_CAP`] links, which the defensive walk
    /// bound treats as malformed.
    ChainTooLong,
}

/// Which backtrace frames are noise: a frame is hidden when its name starts
/// with any of the configured prefixes.
#[derive(Debug, Clone)]
pub struct FrameFilter {
    /// Name prefixes of frames to collapse out of backtrace output.
    pub hide_prefixes: Vec<String>,
}

/// One numbered line of a chain walk.
pub open spec fn numbered_line(i: int, msg: Seq<char>) -> Seq<char> {
    "   "@ + dec(i) + ": "@ + msg + "\n"@
}

/// The first `n` numbered lines of a chain.
pub open spec fn chain_lines_upto(msgs: Seq<Seq<char>>, n: int) -> Seq<char>
    decreases n,
{
    if n <= 0 {
        Seq::empty()
    } else {
        chain_lines_upto(msgs, n - 1) + numbered_line(n - 1, msgs[n - 1])
    }
}

/// The numbered lines of a whole chain, indices strictly increasing from 0.
pub open spec fn chain_lines(msgs: Seq<Seq<char>>) -> Seq<char> {
    chain_lines_upto(msgs, msgs.len() as int)
}

/// The concatenation of `f` over the first `n` sections.
pub open spec fn concat_map_upto(
    f: spec_fn(SectionView) -> Seq<char>,
    ss: Seq<SectionView>,
    n: int,
) -> Seq<char>
    decreases n,
{
    if n <= 0 {
        Seq::empty()
    } else {
        concat_map_upto(f, ss, n - 1) + f(ss[n - 1])
    }
}

/// What a section contributes to the peer-cause block: a nested chain walk
/// for a peer cause, nothing for any other section.
pub open spec fn peer_text(s: SectionView) -> Seq<char> {
    match s {
        SectionView::Error(c) => "\nError:\n"@ + chain_lines(c),
        _ => Seq::empty(),
    }
}

/// The peer-cause block: every attached peer cause in attachment order.
pub open spec fn peers_text(ss: Seq<SectionView>) -> Seq<char> {
    concat_map_upto(|s: SectionView| peer_text(s), ss, ss.len() as int)
}

/// What a section contributes to the section blocks. A blank body suppresses
/// the whole block, its header line included; peer causes are rendered in the
/// peer block instead.
pub open spec fn section_text(s: SectionView) -> Seq<char> {
    match s {
        SectionView::Error(_) => Seq::empty(),
        SectionView::Custom(header, body) => if is_blank(body) {
            Seq::empty()
        } else {
            "\n"@ + header + "\n   "@ + indented(body) + "\n"@
        },
        SectionView::Suggestion(text) => if is_blank(text) {
            Seq::empty()
        } else {
            "\nSuggestion: "@ + text + "\n"@
        },
        SectionView::Warning(text) => if is_blank(text) {
            Seq::empty()
        } else {
            "\nWarning: "@ + text + "\n"@
        },
        SectionView::Note(text) => if is_blank(text) {
            Seq::empty()
        } else {
            "\nNote: "@ + text + "\n"@
        },
    }
}

/// The section blocks, in attachment order.
pub open spec fn sections_text(ss: Seq<SectionView>) -> Seq<char> {
    concat_map_upto(|s: SectionView| section_text(s), ss, ss.len() as int)
}

/// The `at file:line` location line of a frame, empty when the file is
/// unknown; a known file with an unknown line stands alone.
pub open spec fn location_text(file: Option<Seq<char>>, line: Option<u64>) -> Seq<char> {
    match file {
        None => Seq::empty(),
        Some(f) => "      at "@ + f + (match line {
            None => Seq::empty(),
            Some(l) => ":"@ + dec(l as int),
        }) + "\n"@,
    }
}

/// One scope-trace frame: its index, name, recorded fields when any, and
/// location.
pub open spec fn span_frame_text(i: int, f: SpanFrameView) -> Seq<char> {
    "   "@ + dec(i) + ": "@ + f.name + (if is_blank(f.fields) {
        Seq::empty()
    } else {
        " with "@ + f.fields
    }) + "\n"@ + location_text(f.file, f.line)
}

/// The first `n` scope-trace frames.
pub open spec fn span_frames_upto(fs: Seq<SpanFrameView>, n: int) -> Seq<char>
    decreases n,
{
    if n <= 0 {
        Seq::empty()
    } else {
        span_frames_upto(fs, n - 1) + span_frame_text(n - 1, fs[n - 1])
    }
}

/// The scope-trace block.
pub open spec fn span_block(fs: Seq<SpanFrameView>) -> Seq<char> {
    "\nSPANTRACE:\n"@ + span_frames_upto(fs, fs.len() as int)
}

/// A frame name is hidden when some filter prefix starts it.
pub open spec fn name_hidden(name: Seq<char>, prefixes: Seq<Seq<char>>) -> bool {
    exists|j: int| 0 <= j < prefixes.len() && (#[trigger] prefixes[j]).is_prefix_of(name)
}

/// The collapsed placeholder for a run of `n` hidden frames; an empty run
/// leaves no trace.
pub open spec fn hidden_note(n: int) -> Seq<char> {
    if n <= 0 {
        Seq::empty()
    } else {
        "   ( "@ + dec(n) + " frames hidden )\n"@
    }
}

/// Whether the reported line is the one a window line stands on.
pub open spec fn line_marked(line: Option<u64>, num: int) -> bool {
    match line {
        Some(l) => l == num,
        None => false,
    }
}

/// One line of a source window, numbered, the reported line marked.
pub open spec fn window_line(num: int, marked: bool, text: Seq<char>) -> Seq<char> {
    "      "@ + dec(num) + (if marked {
        " > "@
    } else {
        " | "@
    }) + text + "\n"@
}

/// The first `n` lines of a source window around a frame reported at `line`.
pub open spec fn window_upto(w: WindowView, line: Option<u64>, n: int) -> Seq<char>
    decreases n,
{
    if n <= 0 {
        Seq::empty()
    } else {
        window_upto(w, line, n - 1) + window_line(
            w.first_line + (n - 1),
            line_marked(line, w.first_line + (n - 1)),
            w.lines[n - 1],
        )
    }
}

/// A frame's whole source window.
pub open spec fn window_text(w: WindowView, line: Option<u64>) -> Seq<char> {
    window_upto(w, line, w.lines.len() as int)
}

/// One visible backtrace frame: its absolute index, name and location, and at
/// full detail its source window when one was fetched.
pub open spec fn bt_frame_text(i: int, f: FrameView, full: bool) -> Seq<char> {
    "   "@ + dec(i) + ": "@ + f.name + "\n"@ + location_text(f.file, f.line) + (if full {
        match f.window {
            Some(w) => window_text(w, f.line),
            None => Seq::empty(),
        }
    } else {
        Seq::empty()
    })
}

/// The backtrace text after the first `n` frames, with the length of the
/// hidden run that still awaits its placeholder.
pub open spec fn bt_state(
    fs: Seq<FrameView>,
    prefixes: Seq<Seq<char>>,
    full: bool,
    n: int,
) -> (Seq<char>, nat)
    decreases n,
{
    if n <= 0 {
        (Seq::empty(), 0 as nat)
    } else {
        let prev = bt_state(fs, prefixes, full, n - 1);
        if name_hidden(fs[n - 1].name, prefixes) {
            (prev.0, prev.1 + 1)
        } else {
            (prev.0 + hidden_note(prev.1 as int) + bt_frame_text(n - 1, fs[n - 1], full), 0 as nat)
        }
    }
}

/// The frame list of the backtrace block: visible frames under their absolute
/// indices, maximal runs of hidden frames collapsed to a placeholder.
pub open spec fn bt_items(fs: Seq<FrameView>, prefixes: Seq<Seq<char>>, full: bool) -> Seq<char> {
    let end = bt_state(fs, prefixes, full, fs.len() as int);
    end.0 + hidden_note(end.1 as int)
}

/// The backtrace block.
pub open spec fn bt_block(fs: Seq<FrameView>, prefixes: Seq<Seq<char>>, full: bool) -> Seq<char> {
    "\nBACKTRACE:\n"@ + bt_items(fs, prefixes, full)
}

/// The trace blocks a tier shows: nothing at `Minimal`; the present traces at
/// `Short` and above; source windows only at `Full`.
pub open spec fn trace_blocks(h: HandlerView, prefixes: Seq<Seq<char>>, v: Verbosity) -> Seq<
    char,
> {
    (if v.level() >= 1 {
        match h.span_trace {
            Some(fs) => span_block(fs),
            None => Seq::empty(),
        }
    } else {
        Seq::empty()
    }) + (if v.level() >= 1 {
        match h.backtrace {
            Some(fs) => bt_block(fs, prefixes, v.level() >= 2),
            None => Seq::empty(),
        }
    } else {
        Seq::empty()
    })
}

/// Every chain the renderer would walk stays within the defensive bound.
pub open spec fn chains_bounded(r: ReportView) -> bool {
    &&& r.chain.len() <= CHAIN_WALK_CAP
    &&& forall|i: int|
        0 <= i < r.handler.sections.len() ==> (match #[trigger] r.handler.sections[i] {
            SectionView::Error(c) => c.len() <= CHAIN_WALK_CAP,
            _ => true,
        })
}

/// The complete output of a render at tier `v`.
pub open spec fn render_spec(r: ReportView, prefixes: Seq<Seq<char>>, v: Verbosity) -> Seq<char> {
    "Error:\n"@ + chain_lines(r.chain) + peers_text(r.handler.sections) + sections_text(
        r.handler.sections,
    ) + trace_blocks(r.handler, prefixes, v)
}

fn append_numbered_line(out: &mut String, i: usize, msg: &String)
    ensures
        final(out)@ == old(out)@ + numbered_line(i as int, msg@),
{
    out.append("   ");
    append_dec(out, i as u64);
    out.append(": ");
    out.append(msg.as_str());
    out.append("\n");
    proof {
        assert(out@ =~= old(out)@ + numbered_line(i as int, msg@));
    }
}

fn append_chain_lines(out: &mut String, msgs: &Vec<String>)
    ensures
        final(out)@ == old(out)@ + chain_lines(msgs.deep_view()),
{
    let mut i: usize = 0;
    while i < msgs.len()
        invariant
            i <= msgs.len(),
            out@ == old(out)@ + chain_lines_upto(msgs.deep_view(), i as int),
        decreases msgs.len() - i,
    {
        append_numbered_line(out, i, &msgs[i]);
        i += 1;
    }
}

fn append_section_text(out: &mut String, s: &HelpInfo)
    ensures
        final(out)@ == old(out)@ + section_text(s@),
{
    match s {
        HelpInfo::Error(_) => (),
        HelpInfo::Custom(header, body) => {
            if !check_blank(body.as_str()) {
                out.append("\n");
                out.append(header.as_str());
                out.append("\n   ");
                append_indented(out, body.as_str());
                out.append("\n");
            }
        },
        HelpInfo::Suggestion(text) => {
            if !check_blank(text.as_str()) {
                out.append("\nSuggestion: ");
                out.append(text.as_str());
                out.append("\n");
            }
        },
        HelpInfo::Warning(text) => {
            if !check_blank(text.as_str()) {
                out.append("\nWarning: ");
                out.append(text.as_str());
                out.append("\n");
            }
        },
        HelpInfo::Note(text) => {
            if !check_blank(text.as_str()) {
                out.append("\nNote: ");
                out.append(text.as_str());
                out.append("\n");
            }
        },
    }
    proof {
        assert(out@ =~= old(out)@ + section_text(s@));
    }
}

fn append_peer_text(out: &mut String, s: &HelpInfo)
    ensures
        final(out)@ == old(out)@ + peer_text(s@),
{
    match s {
        HelpInfo::Error(cause) => {
            out.append("\nError:\n");
            append_chain_lines(out, cause);
        },
        _ => (),
    }
    proof {
        assert(out@ =~= old(out)@ + peer_text(s@));
    }
}

fn append_peers(out: &mut String, sections: &Vec<HelpInfo>)
    ensures
        final(out)@ == old(out)@ + peers_text(sections.deep_view()),
{
    let mut i: usize = 0;
    while i < sections.len()
        invariant
            i <= sections.len(),
            out@ == old(out)@ + concat_map_upto(
                |s: SectionView| peer_text(s),
                sections.deep_view(),
                i as int,
            ),
        decreases sections.len() - i,
    {
        append_peer_text(out, &sections[i]);
        i += 1;
    }
}

fn append_sections(out: &mut String, sections: &Vec<HelpInfo>)
    ensures
        final(out)@ == old(out)@ + sections_text(sections.deep_view()),
{
    let mut i: usize = 0;
    while i < sections.len()
        invariant
            i <= sections.len(),
            out@ == old(out)@ + concat_map_upto(
                |s: SectionView| section_text(s),
                sections.deep_view(),
                i as int,
            ),
        decreases sections.len() - i,
    {
        append_section_text(out, &sections[i]);
        i += 1;
    }
}

fn append_location(out: &mut String, file: &Option<String>, line: &Option<u64>)
    ensures
        final(out)@ == old(out)@ + location_text(
            match file {
                Some(f) => Some(f@),
                None => None,
            },
            *line,
        ),
{
    match file {
        None => (),
        Some(f) => {
            out.append("      at ");
            out.append(f.as_str());
            match line {
                None => (),
                Some(l) => {
                    out.append(":");
                    append_dec(out, *l);
                },
            }
            out.append("\n");
        },
    }
    proof {
        assert(out@ =~= old(out)@ + location_text(
            match file {
                Some(f) => Some(f@),
                None => None,
            },
            *line,
        ));
    }
}

fn append_span_frame(out: &mut String, i: usize, f: &SpanFrame)
    ensures
        final(out)@ == old(out)@ + span_frame_text(i as int, f@),
{
    out.append("   ");
    append_dec(out, i as u64);
    out.append(": ");
    out.append(f.name.as_str());
    if !check_blank(f.fields.as_str()) {
        out.append(" with ");
        out.append(f.fields.as_str());
    }
    out.append("\n");
    append_location(out, &f.file, &f.line);
    proof {
        assert(out@ =~= old(out)@ + span_frame_text(i as int, f@));
    }
}

fn append_span_frames(out: &mut String, fs: &Vec<SpanFrame>)
    ensures
        final(out)@ == old(out)@ + span_frames_upto(fs.deep_view(), fs.deep_view().len() as int),
{
    let mut i: usize = 0;
    while i < fs.len()
        invariant
            i <= fs.len(),
            out@ == old(out)@ + span_frames_upto(fs.deep_view(), i as int),
        decreases fs.len() - i,
    {
        append_span_frame(out, i, &fs[i]);
        i += 1;
    }
}

/// True exactly when `p` is a prefix of `s`.
fn str_has_prefix(s: &str, p: &str) -> (r: bool)
    ensures
        r == p@.is_prefix_of(s@),
{
    let sl = s.unicode_len();
    let pl = p.unicode_len();
    if pl > sl {
        return false;
    }
    let mut i: usize = 0;
    while i < pl
        invariant
            i <= pl,
            pl == p@.len(),
            pl <= sl == s@.len(),
            forall|j: int| 0 <= j < i ==> s@[j] == p@[j],
        decreases pl - i,
    {
        if s.get_char(i) != p.get_char(i) {
            proof {
                assert(s@.subrange(0, pl as int)[i as int] != p@[i as int]);
            }
            return false;
        }
        i += 1;
    }
    proof {
        assert(p@ =~= s@.subrange(0, pl as int));
    }
    true
}

fn is_hidden(name: &String, filter: &FrameFilter) -> (r: bool)
    ensures
        r == name_hidden(name@, filter.hide_prefixes.deep_view()),
{
    let mut j: usize = 0;
    while j < filter.hide_prefixes.len()
        invariant
            j <= filter.hide_prefixes.len(),
            forall|k: int|
                0 <= k < j ==> !(#[trigger] filter.hide_prefixes.deep_view()[k]).is_prefix_of(
                    name@,
                ),
        decreases filter.hide_prefixes.len() - j,
    {
        if str_has_prefix(name.as_str(), filter.hide_prefixes[j].as_str()) {
            proof {
                assert((filter.hide_prefixes.deep_view()[j as int]).is_prefix_of(name@));
            }
            return true;
        }
        j += 1;
    }
    false
}

fn append_hidden_note(out: &mut String, run: usize)
    ensures
        final(out)@ == old(out)@ + hidden_note(run as int),
{
    if run > 0 {
        out.append("   ( ");
        append_dec(out, run as u64);
        out.append(" frames hidden )\n");
        proof {
            assert(out@ =~= old(out)@ + hidden_note(run as int));
        }
    }
}

fn append_window(out: &mut String, w: &crate::handler::SourceWindow, line: &Option<u64>)
    requires
        w@.first_line + w@.lines.len() <= u64::MAX,
    ensures
        final(out)@ == old(out)@ + window_text(w@, *line),
{
    let mut j: usize = 0;
    while j < w.lines.len()
        invariant
            j <= w.lines.len(),
            w@.first_line + w@.lines.len() <= u64::MAX,
            out@ == old(out)@ + window_upto(w@, *line, j as int),
        decreases w.lines.len() - j,
    {
        let num: u64 = w.first_line + (j as u64);
        let marked: bool = match line {
            Some(l) => *l == num,
            None => false,
        };
        out.append("      ");
        append_dec(out, num);
        if marked {
            out.append(" > ");
        } else {
            out.append(" | ");
        }
        out.append(w.lines[j].as_str());
        out.append("\n");
        proof {
            assert(out@ =~= old(out)@ + window_upto(w@, *line, j as int + 1));
        }
        j += 1;
    }
}

fn append_bt_frame(out: &mut String, i: usize, f: &Frame, full: bool)
    requires
        frame_view_wf(f@),
    ensures
        final(out)@ == old(out)@ + bt_frame_text(i as int, f@, full),
{
    out.append("   ");
    append_dec(out, i as u64);
    out.append(": ");
    out.append(f.name.as_str());
    out.append("\n");
    append_location(out, &f.file, &f.line);
    if full {
        match &f.source_window {
            Some(w) => append_window(out, w, &f.line),
            None => (),
        }
    }
    proof {
        assert(out@ =~= old(out)@ + bt_frame_text(i as int, f@, full));
    }
}

fn append_bt_items(out: &mut String, fs: &Vec<Frame>, filter: &FrameFilter, full: bool)
    requires
        forall|i: int| 0 <= i < fs.deep_view().len() ==> frame_view_wf(#[trigger] fs.deep_view()[i]),
    ensures
        final(out)@ == old(out)@ + bt_items(fs.deep_view(), filter.hide_prefixes.deep_view(), full),
{
    let ghost prefixes = filter.hide_prefixes.deep_view();
    let mut run: usize = 0;
    let mut i: usize = 0;
    while i < fs.len()
        invariant
            i <= fs.len(),
            run <= i,
            forall|k: int| 0 <= k < fs.deep_view().len() ==> frame_view_wf(#[trigger] fs.deep_view()[k]),
            prefixes == filter.hide_prefixes.deep_view(),
            out@ == old(out)@ + bt_state(fs.deep_view(), prefixes, full, i as int).0,
            run as nat == bt_state(fs.deep_view(), prefixes, full, i as int).1,
        decreases fs.len() - i,
    {
        if is_hidden(&fs[i].name, filter) {
            run += 1;
        } else {
            proof {
                assert(frame_view_wf(fs.deep_view()[i as int]));
                assert(fs[i as int]@ == fs.deep_view()[i as int]);
            }
            append_hidden_note(out, run);
            append_bt_frame(out, i, &fs[i], full);
            run = 0;
        }
        i += 1;
    }
    append_hidden_note(out, run);
}

/// Renders a report at the given tier. Succeeds exactly when every chain
/// (the primary one and each peer cause's) stays within [`CHAIN_WALK_CAP`];
/// the output is then exactly [`render_spec`] of the report.
pub fn render(report: &Report, filter: &FrameFilter, verbosity: Verbosity) -> (r: Result<
    String,
    RenderError,
>)
    requires
        handler_view_wf(report@.handler),
    ensures
        (r is Ok) <==> chains_bounded(report@),
        r is Ok ==> r->Ok_0@ == render_spec(report@, filter.hide_prefixes.deep_view(), verbosity),
        r is Err ==> r->Err_0 == RenderError::ChainTooLong,
{
    if report.chain.len() > CHAIN_WALK_CAP {
        proof {
            assert(report@.chain.len() == report.chain@.len());
            assert(!chains_bounded(report@));
        }
        return Err(RenderError::ChainTooLong);
    }
    let mut i: usize = 0;
    while i < report.handler.sections.len()
        invariant
            i <= report.handler.sections.len(),
            forall|k: int|
                0 <= k < i ==> (match #[trigger] report@.handler.sections[k] {
                    SectionView::Error(c) => c.len() <= CHAIN_WALK_CAP,
                    _ => true,
                }),
        decreases report.handler.sections.len() - i,
    {
        match &report.handler.sections[i] {
            HelpInfo::Error(cause) => {
                if cause.len() > CHAIN_WALK_CAP {
                    proof {
                        assert(report@.handler.sections[i as int] == SectionView::Error(
                            cause.deep_view(),
                        ));
                        assert(cause.deep_view().len() == cause@.len());
                        assert(!chains_bounded(report@));
                    }
                    return Err(RenderError::ChainTooLong);
                }
            },
            _ => (),
        }
        i += 1;
    }
    let mut out = String::new();
    out.append("Error:\n");
    append_chain_lines(&mut out, &report.chain);
    append_peers(&mut out, &report.handler.sections);
    append_sections(&mut out, &report.handler.sections);
    if verbosity.at_least(Verbosity::Short) {
        match &report.handler.span_trace {
            Some(fs) => {
                out.append("\nSPANTRACE:\n");
                append_span_frames(&mut out, fs);
            },
            None => (),
        }
        let full = verbosity.at_least(Verbosity::Full);
        match &report.handler.backtrace {
            Some(fs) => {
                proof {
                    assert(report@.handler.backtrace == Some(fs.deep_view()));
                    assert forall|k: int|
                        0 <= k < fs.deep_view().len() implies frame_view_wf(
                        #[trigger] fs.deep_view()[k],
                    ) by {
                        assert(report@.handler.backtrace->Some_0 == fs.deep_view());
                        assert(frame_view_wf(report@.handler.backtrace->Some_0[k]));
                    }
                }
                out.append("\nBACKTRACE:\n");
                append_bt_items(&mut out, fs, filter, full);
            },
            None => (),
        }
    }
    proof {
        assert(out@ =~= render_spec(
            report@,
            filter.hide_prefixes.deep_view(),
            verbosity,
        ));
    }
    Ok(out)
}

} // verus!

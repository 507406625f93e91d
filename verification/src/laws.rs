//! The laws of the library, stated and proved over the same spec functions
//! that the executable functions' contracts use.
use vstd::prelude::*;

use crate::hook::install_transition;
use crate::hook::HookConfigView;
use crate::hook::HookStateView;
use crate::render::bt_frame_text;
use crate::render::bt_state;
use crate::render::chain_lines;
use crate::render::concat_map_upto;
use crate::render::peer_text;
use crate::render::render_spec;
use crate::render::section_text;
use crate::render::span_block;
use crate::render::bt_block;
use crate::render::trace_blocks;
use crate::report::failed_sections;
use crate::report::failed_sections_upto;
use crate::handler::FrameView;
use crate::handler::HandlerView;
use crate::report::ReportView;
use crate::section::SectionView;
use crate::text::is_blank;
use crate::Verbosity;

verus! {

/// A report with no sections and nothing captured renders, at every tier, as
/// exactly the header plus its numbered chain: no section text and no trace
/// block appears.
pub proof fn lemma_bare_report_renders_chain_only(
    r: ReportView,
    prefixes: Seq<Seq<char>>,
    v: Verbosity,
)
    requires
        r.handler.sections.len() == 0,
        r.handler.backtrace is None,
        r.handler.span_trace is None,
    ensures
        render_spec(r, prefixes, v) == "Error:\n"@ + chain_lines(r.chain),
{
    assert(render_spec(r, prefixes, v) =~= "Error:\n"@ + chain_lines(r.chain));
}

proof fn lemma_concat_map_agree(
    f: spec_fn(SectionView) -> Seq<char>,
    s1: Seq<SectionView>,
    s2: Seq<SectionView>,
    n: int,
)
    requires
        forall|k: int| 0 <= k < n ==> s1[k] == s2[k],
    ensures
        concat_map_upto(f, s1, n) == concat_map_upto(f, s2, n),
    decreases n,
{
    if n > 0 {
        lemma_concat_map_agree(f, s1, s2, n - 1);
    }
}

proof fn lemma_concat_map_remove(
    f: spec_fn(SectionView) -> Seq<char>,
    ss: Seq<SectionView>,
    i: int,
    n: int,
)
    requires
        0 <= i < n <= ss.len(),
        f(ss[i]) == Seq::<char>::empty(),
    ensures
        concat_map_upto(f, ss.remove(i), n - 1) == concat_map_upto(f, ss, n),
    decreases n,
{
    if i == n - 1 {
        lemma_concat_map_agree(f, ss.remove(i), ss, n - 1);
        assert(concat_map_upto(f, ss, n) =~= concat_map_upto(f, ss, n - 1) + f(ss[n - 1]));
        assert(concat_map_upto(f, ss, n - 1) + f(ss[i]) =~= concat_map_upto(f, ss, n - 1));
    } else {
        lemma_concat_map_remove(f, ss, i, n - 1);
        assert(ss.remove(i)[n - 2] == ss[n - 1]);
    }
}

/// A section whose rendered body is blank leaves no mark at all: rendering a
/// report with it equals rendering the report with that section removed, at
/// every tier.
pub proof fn lemma_blank_section_suppressed(
    r: ReportView,
    prefixes: Seq<Seq<char>>,
    v: Verbosity,
    i: int,
)
    requires
        0 <= i < r.handler.sections.len(),
        r.handler.sections[i] is Custom,
        is_blank(r.handler.sections[i]->Custom_1),
    ensures
        render_spec(r, prefixes, v) == render_spec(
            ReportView {
                chain: r.chain,
                handler: HandlerView {
                    backtrace: r.handler.backtrace,
                    span_trace: r.handler.span_trace,
                    sections: r.handler.sections.remove(i),
                },
            },
            prefixes,
            v,
        ),
{
    let ss = r.handler.sections;
    let n = ss.len() as int;
    assert(peer_text(ss[i]) == Seq::<char>::empty());
    assert(section_text(ss[i]) == Seq::<char>::empty());
    lemma_concat_map_remove(|s: SectionView| peer_text(s), ss, i, n);
    lemma_concat_map_remove(|s: SectionView| section_text(s), ss, i, n);
}

/// How many of the first `n` outcomes failed.
pub open spec fn err_count(rs: Seq<Result<(), Seq<Seq<char>>>>, n: int) -> int
    decreases n,
{
    if n <= 0 {
        0
    } else {
        err_count(rs, n - 1) + (if rs[n - 1] is Err {
            1int
        } else {
            0int
        })
    }
}

proof fn lemma_err_count_nonneg(rs: Seq<Result<(), Seq<Seq<char>>>>, n: int)
    ensures
        err_count(rs, n) >= 0,
    decreases n,
{
    if n > 0 {
        lemma_err_count_nonneg(rs, n - 1);
    }
}

proof fn lemma_failed_sections_count(rs: Seq<Result<(), Seq<Seq<char>>>>, n: int)
    ensures
        failed_sections_upto(rs, n).len() == err_count(rs, n),
    decreases n,
{
    if n > 0 {
        lemma_failed_sections_count(rs, n - 1);
    }
}

proof fn lemma_err_count_zero_iff_all_ok(rs: Seq<Result<(), Seq<Seq<char>>>>, n: int)
    requires
        n <= rs.len(),
    ensures
        (err_count(rs, n) == 0) <==> (forall|i: int| 0 <= i < n ==> (#[trigger] rs[i]) is Ok),
    decreases n,
{
    if n > 0 {
        lemma_err_count_zero_iff_all_ok(rs, n - 1);
        lemma_err_count_nonneg(rs, n - 1);
    }
}

/// The aggregation fold's count law: over any outcomes, the attached
/// peer-cause sections number exactly the failures, and there are none
/// exactly when every outcome succeeded (the fold then returns success).
/// Their order is the input order, which the fold's own contract states as a
/// sequence equality.
pub proof fn lemma_aggregation_counts(rs: Seq<Result<(), Seq<Seq<char>>>>)
    ensures
        failed_sections(rs).len() == err_count(rs, rs.len() as int),
        (err_count(rs, rs.len() as int) == 0) <==> (forall|i: int|
            0 <= i < rs.len() ==> (#[trigger] rs[i]) is Ok),
{
    lemma_failed_sections_count(rs, rs.len() as int);
    lemma_err_count_zero_iff_all_ok(rs, rs.len() as int);
}

/// The hook state after the first `n` of a series of install attempts.
pub open spec fn run_installs(s: HookStateView, cs: Seq<HookConfigView>, n: int) -> HookStateView
    decreases n,
{
    if n <= 0 {
        s
    } else {
        install_transition(run_installs(s, cs, n - 1), cs[n - 1]).0
    }
}

/// Whether the `i`-th of a series of install attempts succeeds.
pub open spec fn attempt_wins(s: HookStateView, cs: Seq<HookConfigView>, i: int) -> bool {
    install_transition(run_installs(s, cs, i), cs[i]).1
}

proof fn lemma_run_from_start(cs: Seq<HookConfigView>, n: int)
    requires
        1 <= n <= cs.len(),
    ensures
        run_installs(HookStateView::Uninstalled, cs, n) == HookStateView::Installed(cs[0]),
    decreases n,
{
    if n > 1 {
        lemma_run_from_start(cs, n - 1);
    } else {
        assert(run_installs(HookStateView::Uninstalled, cs, 0) == HookStateView::Uninstalled);
    }
}

/// The install-once law: of any series of install attempts on an initially
/// uninstalled state, exactly the first wins, every later one fails, and the
/// state ends — and stays — installed with exactly the first attempt's
/// configuration.
pub proof fn lemma_first_install_wins(cs: Seq<HookConfigView>)
    requires
        cs.len() > 0,
    ensures
        attempt_wins(HookStateView::Uninstalled, cs, 0),
        forall|i: int| 1 <= i < cs.len() ==> !attempt_wins(HookStateView::Uninstalled, cs, i),
        run_installs(HookStateView::Uninstalled, cs, cs.len() as int) == HookStateView::Installed(
            cs[0],
        ),
{
    assert forall|i: int| 1 <= i < cs.len() implies !attempt_wins(
        HookStateView::Uninstalled,
        cs,
        i,
    ) by {
        lemma_run_from_start(cs, i);
    }
    lemma_run_from_start(cs, cs.len() as int);
}

/// The scope-trace component a tier shows.
pub open spec fn span_part(h: HandlerView) -> Seq<char> {
    match h.span_trace {
        Some(fs) => span_block(fs),
        None => Seq::empty(),
    }
}

/// The backtrace component a tier shows.
pub open spec fn bt_part(h: HandlerView, prefixes: Seq<Seq<char>>, full: bool) -> Seq<char> {
    match h.backtrace {
        Some(fs) => bt_block(fs, prefixes, full),
        None => Seq::empty(),
    }
}

/// Verbosity is monotone at the bottom: everything the minimal tier renders
/// is a prefix of what any tier renders.
pub proof fn lemma_minimal_is_prefix(r: ReportView, prefixes: Seq<Seq<char>>, v: Verbosity)
    ensures
        render_spec(r, prefixes, Verbosity::Minimal).is_prefix_of(render_spec(r, prefixes, v)),
{
    let base = render_spec(r, prefixes, Verbosity::Minimal);
    let whole = render_spec(r, prefixes, v);
    assert(trace_blocks(r.handler, prefixes, Verbosity::Minimal) =~= Seq::<char>::empty());
    assert(base =~= "Error:\n"@ + chain_lines(r.chain) + concat_map_upto(
        |s: SectionView| peer_text(s),
        r.handler.sections,
        r.handler.sections.len() as int,
    ) + concat_map_upto(
        |s: SectionView| section_text(s),
        r.handler.sections,
        r.handler.sections.len() as int,
    ));
    assert(whole =~= base + trace_blocks(r.handler, prefixes, v));
    assert(whole.subrange(0, base.len() as int) =~= base);
}

/// The structure behind verbosity monotonicity above the bottom: both upper
/// tiers append the same scope-trace component and a backtrace component to
/// the minimal output; the two differ only in whether the backtrace carries
/// source windows.
pub proof fn lemma_tier_structure(r: ReportView, prefixes: Seq<Seq<char>>)
    ensures
        render_spec(r, prefixes, Verbosity::Short) == render_spec(r, prefixes, Verbosity::Minimal)
            + span_part(r.handler) + bt_part(r.handler, prefixes, false),
        render_spec(r, prefixes, Verbosity::Full) == render_spec(r, prefixes, Verbosity::Minimal)
            + span_part(r.handler) + bt_part(r.handler, prefixes, true),
{
    assert(render_spec(r, prefixes, Verbosity::Short) =~= render_spec(
        r,
        prefixes,
        Verbosity::Minimal,
    ) + span_part(r.handler) + bt_part(r.handler, prefixes, false));
    assert(render_spec(r, prefixes, Verbosity::Full) =~= render_spec(
        r,
        prefixes,
        Verbosity::Minimal,
    ) + span_part(r.handler) + bt_part(r.handler, prefixes, true));
}

/// Within the backtrace block, raising the tier never removes anything from
/// a frame: a frame's short form is a prefix of its full form, and the hidden
/// runs collapse identically at both tiers.
pub proof fn lemma_bt_frame_monotone(i: int, f: FrameView)
    ensures
        bt_frame_text(i, f, false).is_prefix_of(bt_frame_text(i, f, true)),
{
    let short = bt_frame_text(i, f, false);
    let full = bt_frame_text(i, f, true);
    assert(full.subrange(0, short.len() as int) =~= short);
}

/// The hidden-run structure of the backtrace block does not depend on the
/// tier: after any number of frames, both tiers have collapsed exactly the
/// same runs.
pub proof fn lemma_bt_runs_tier_independent(
    fs: Seq<FrameView>,
    prefixes: Seq<Seq<char>>,
    n: int,
)
    ensures
        bt_state(fs, prefixes, false, n).1 == bt_state(fs, prefixes, true, n).1,
    decreases n,
{
    if n > 0 {
        lemma_bt_runs_tier_independent(fs, prefixes, n - 1);
    }
}

} // verus!

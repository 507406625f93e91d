//! The report model: a causal message chain plus the diagnostic context
//! captured for it, with the fluent attachment entry points and the fold that
//! aggregates many independent failures into one report.
use vstd::prelude::*;

use crate::handler::Handler;
use crate::handler::HandlerView;
use crate::section::HelpInfo;
use crate::section::SectionView;
use vstd::string::StringExecFns;

verus! {

/// An error report: the ordered causal chain (index 0 is the top-level
/// context, the last index the root cause) and the handler that owns its
/// captured context and sections.
#[derive(Debug)]
pub struct Report {
    /// The display text of each link of the causal chain.
    pub chain: Vec<String>,
    /// The diagnostic context captured when the report was constructed.
    pub handler: Handler,
}

pub ghost struct ReportView {
    pub chain: Seq<Seq<char>>,
    pub handler: HandlerView,
}

impl View for Report {
    type V = ReportView;

    open spec fn view(&self) -> ReportView {
        ReportView { chain: self.chain.deep_view(), handler: self.handler@ }
    }
}

impl Report {
    /// A report with a single top-level message and the given handler.
    pub fn new(message: String, handler: Handler) -> (r: Report)
        ensures
            r@.chain == seq![message@],
            r@.handler == handler@,
    {
        let chain = vec![message];
        proof {
            assert(chain.deep_view() =~= seq![message@]);
        }
        Report { chain, handler }
    }

    /// Wraps the report in a new top-level context message; the old chain
    /// follows it unchanged.
    pub fn wrap_err(self, message: String) -> (r: Report)
        ensures
            r@.chain == seq![message@] + self@.chain,
            r@.handler == self@.handler,
    {
        let mut this = self;
        this.chain.insert(0, message);
        proof {
            assert(this.chain.deep_view() =~= seq![message@] + self.chain.deep_view());
        }
        this
    }

    /// Appends one section to the report's handler; nothing else changes and
    /// nothing is ever removed.
    pub fn attach(self, section: HelpInfo) -> (r: Report)
        ensures
            r@.chain == self@.chain,
            r@.handler.backtrace == self@.handler.backtrace,
            r@.handler.span_trace == self@.handler.span_trace,
            r@.handler.sections == self@.handler.sections.push(section@),
    {
        let ghost s = section@;
        let mut this = self;
        this.handler.sections.push(section);
        proof {
            assert(this.handler.sections.deep_view() =~= self.handler.sections.deep_view().push(
                s,
            ));
        }
        this
    }

    /// Attaches a labeled block under a caller-chosen header.
    pub fn section(self, header: String, body: String) -> (r: Report)
        ensures
            r@.chain == self@.chain,
            r@.handler.backtrace == self@.handler.backtrace,
            r@.handler.span_trace == self@.handler.span_trace,
            r@.handler.sections == self@.handler.sections.push(
                SectionView::Custom(header@, body@),
            ),
    {
        self.attach(HelpInfo::Custom(header, body))
    }

    /// Attaches a remediation hint.
    pub fn suggestion(self, text: String) -> (r: Report)
        ensures
            r@.chain == self@.chain,
            r@.handler.backtrace == self@.handler.backtrace,
            r@.handler.span_trace == self@.handler.span_trace,
            r@.handler.sections == self@.handler.sections.push(SectionView::Suggestion(text@)),
    {
        self.attach(HelpInfo::Suggestion(text))
    }

    /// Attaches an advisory warning.
    pub fn warning(self, text: String) -> (r: Report)
        ensures
            r@.chain == self@.chain,
            r@.handler.backtrace == self@.handler.backtrace,
            r@.handler.span_trace == self@.handler.span_trace,
            r@.handler.sections == self@.handler.sections.push(SectionView::Warning(text@)),
    {
        self.attach(HelpInfo::Warning(text))
    }

    /// Attaches an advisory note.
    pub fn note(self, text: String) -> (r: Report)
        ensures
            r@.chain == self@.chain,
            r@.handler.backtrace == self@.handler.backtrace,
            r@.handler.span_trace == self@.handler.span_trace,
            r@.handler.sections == self@.handler.sections.push(SectionView::Note(text@)),
    {
        self.attach(HelpInfo::Note(text))
    }

    /// Attaches a peer cause, given as its own message chain.
    pub fn error(self, cause: Vec<String>) -> (r: Report)
        ensures
            r@.chain == self@.chain,
            r@.handler.backtrace == self@.handler.backtrace,
            r@.handler.span_trace == self@.handler.span_trace,
            r@.handler.sections == self@.handler.sections.push(
                SectionView::Error(cause.deep_view()),
            ),
    {
        self.attach(HelpInfo::Error(cause))
    }
}

/// Attaches a labeled block to the error arm of an outcome; a successful
/// outcome passes through untouched.
pub fn with_section<T>(r: Result<T, Report>, header: String, body: String) -> (res: Result<
    T,
    Report,
>)
    ensures
        r is Ok ==> res == r,
        r is Err ==> res is Err && res->Err_0@.chain == r->Err_0@.chain
            && res->Err_0@.handler.backtrace == r->Err_0@.handler.backtrace
            && res->Err_0@.handler.span_trace == r->Err_0@.handler.span_trace
            && res->Err_0@.handler.sections == r->Err_0@.handler.sections.push(
            SectionView::Custom(header@, body@),
        ),
{
    match r {
        Ok(v) => Ok(v),
        Err(rep) => Err(rep.section(header, body)),
    }
}

/// Attaches a remediation hint to the error arm of an outcome; a successful
/// outcome passes through untouched.
pub fn with_suggestion<T>(r: Result<T, Report>, text: String) -> (res: Result<T, Report>)
    ensures
        r is Ok ==> res == r,
        r is Err ==> res is Err && res->Err_0@.chain == r->Err_0@.chain
            && res->Err_0@.handler.backtrace == r->Err_0@.handler.backtrace
            && res->Err_0@.handler.span_trace == r->Err_0@.handler.span_trace
            && res->Err_0@.handler.sections == r->Err_0@.handler.sections.push(
            SectionView::Suggestion(text@),
        ),
{
    match r {
        Ok(v) => Ok(v),
        Err(rep) => Err(rep.suggestion(text)),
    }
}

/// Attaches an advisory warning to the error arm of an outcome; a successful
/// outcome passes through untouched.
pub fn with_warning<T>(r: Result<T, Report>, text: String) -> (res: Result<T, Report>)
    ensures
        r is Ok ==> res == r,
        r is Err ==> res is Err && res->Err_0@.chain == r->Err_0@.chain
            && res->Err_0@.handler.backtrace == r->Err_0@.handler.backtrace
            && res->Err_0@.handler.span_trace == r->Err_0@.handler.span_trace
            && res->Err_0@.handler.sections == r->Err_0@.handler.sections.push(
            SectionView::Warning(text@),
        ),
{
    match r {
        Ok(v) => Ok(v),
        Err(rep) => Err(rep.warning(text)),
    }
}

/// Attaches an advisory note to the error arm of an outcome; a successful
/// outcome passes through untouched.
pub fn with_note<T>(r: Result<T, Report>, text: String) -> (res: Result<T, Report>)
    ensures
        r is Ok ==> res == r,
        r is Err ==> res is Err && res->Err_0@.chain == r->Err_0@.chain
            && res->Err_0@.handler.backtrace == r->Err_0@.handler.backtrace
            && res->Err_0@.handler.span_trace == r->Err_0@.handler.span_trace
            && res->Err_0@.handler.sections == r->Err_0@.handler.sections.push(
            SectionView::Note(text@),
        ),
{
    match r {
        Ok(v) => Ok(v),
        Err(rep) => Err(rep.note(text)),
    }
}

/// Attaches a peer cause to the error arm of an outcome; a successful outcome
/// passes through untouched.
pub fn with_error<T>(r: Result<T, Report>, cause: Vec<String>) -> (res: Result<T, Report>)
    ensures
        r is Ok ==> res == r,
        r is Err ==> res is Err && res->Err_0@.chain == r->Err_0@.chain
            && res->Err_0@.handler.backtrace == r->Err_0@.handler.backtrace
            && res->Err_0@.handler.span_trace == r->Err_0@.handler.span_trace
            && res->Err_0@.handler.sections == r->Err_0@.handler.sections.push(
            SectionView::Error(cause.deep_view()),
        ),
{
    match r {
        Ok(v) => Ok(v),
        Err(rep) => Err(rep.error(cause)),
    }
}

/// The mathematical shape of one fallible outcome handed to the aggregation
/// fold: success, or a failure's message chain.
pub open spec fn outcome_view(r: Result<(), Vec<String>>) -> Result<(), Seq<Seq<char>>> {
    match r {
        Ok(_) => Ok(()),
        Err(c) => Err(c.deep_view()),
    }
}

/// The outcomes of a collection, in order.
pub open spec fn outcomes_view(rs: Seq<Result<(), Vec<String>>>) -> Seq<
    Result<(), Seq<Seq<char>>>,
> {
    rs.map_values(|r: Result<(), Vec<String>>| outcome_view(r))
}

/// The peer-cause sections the fold attaches for the first `n` outcomes: one
/// per failure, in the collection's order, successes skipped.
pub open spec fn failed_sections_upto(rs: Seq<Result<(), Seq<Seq<char>>>>, n: int) -> Seq<
    SectionView,
>
    decreases n,
{
    if n <= 0 {
        Seq::empty()
    } else {
        failed_sections_upto(rs, n - 1) + (match rs[n - 1] {
            Ok(_) => Seq::empty(),
            Err(c) => seq![SectionView::Error(c)],
        })
    }
}

/// The peer-cause sections the fold attaches: one per failure, in order.
pub open spec fn failed_sections(rs: Seq<Result<(), Seq<Seq<char>>>>) -> Seq<SectionView> {
    failed_sections_upto(rs, rs.len() as int)
}

/// Folds a finite ordered collection of independent outcomes into one report:
/// success exactly when every outcome succeeded, otherwise a report under the
/// fixed aggregate message carrying one peer-cause section per failure, in
/// the collection's order.
pub fn join_errors(results: Vec<Result<(), Vec<String>>>) -> (r: Result<(), Report>)
    ensures
        (r is Ok) <==> (forall|i: int|
            0 <= i < results@.len() ==> (#[trigger] results@[i]) is Ok),
        r is Err ==> {
            let rep = r->Err_0;
            &&& rep@.chain == seq!["encountered multiple errors"@]
            &&& rep@.handler.backtrace is None
            &&& rep@.handler.span_trace is None
            &&& rep@.handler.sections == failed_sections(outcomes_view(results@))
        },
{
    let ghost all = results@;
    let mut all_ok = true;
    let ghost mut witness: int = 0;
    let mut i: usize = 0;
    while i < results.len()
        invariant
            i <= all.len(),
            results@ == all,
            all_ok ==> forall|j: int| 0 <= j < i ==> (#[trigger] all[j]) is Ok,
            !all_ok ==> 0 <= witness < i && all[witness] is Err,
        decreases all.len() - i,
    {
        if results[i].is_err() {
            all_ok = false;
            proof {
                witness = i as int;
            }
        }
        i += 1;
    }
    if all_ok {
        return Ok(());
    }
    let mut report = Report::new(
        String::from_str("encountered multiple errors"),
        Handler::new_empty(),
    );
    let mut rest = results;
    let total = rest.len();
    let mut n: usize = 0;
    proof {
        assert(outcomes_view(rest@) =~= outcomes_view(all).skip(0));
    }
    while rest.len() > 0
        invariant
            total == all.len(),
            n + rest.len() == total,
            outcomes_view(rest@) == outcomes_view(all).skip(n as int),
            report@.chain == seq!["encountered multiple errors"@],
            report@.handler.backtrace is None,
            report@.handler.span_trace is None,
            report@.handler.sections == failed_sections_upto(outcomes_view(all), n as int),
        decreases rest.len(),
    {
        let ghost rest0 = rest@;
        let ghost pre = outcomes_view(rest0);
        let head = rest.remove(0);
        proof {
            assert(outcomes_view(rest@) =~= pre.skip(1));
            assert(pre.skip(1) =~= outcomes_view(all).skip(n as int + 1));
            assert(outcome_view(head) == pre[0]);
            assert(pre[0] == outcomes_view(all).skip(n as int)[0]);
            assert(outcomes_view(all).skip(n as int)[0] == outcomes_view(all)[n as int]);
        }
        match head {
            Ok(_) => (),
            Err(cause) => {
                report = report.error(cause);
            },
        }
        n += 1;
    }
    proof {
        assert(outcomes_view(all).skip(all.len() as int).len() == 0);
    }
    Err(report)
}

} // verus!

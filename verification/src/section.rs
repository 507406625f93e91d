//! The section model: the closed set of auxiliary blocks that can be attached
//! to a report, each rendered independently of the error chain.
use vstd::prelude::*;

verus! {

/// An attachable auxiliary block.
///
/// `Error` carries a peer cause that is not part of the primary chain, as its
/// own message chain (top-level context first, root cause last). `Custom`
/// carries a caller-chosen header and an already-rendered body; deferring and
/// evaluating an expensive body belongs to the caller, which hands the
/// resulting text (or a failure placeholder of its choosing) here.
#[derive(Debug, Clone)]
pub enum HelpInfo {
    /// A peer cause, rendered as its own numbered chain after the primary one.
    Error(Vec<String>),
    /// A labeled block of text under a caller-chosen header line.
    Custom(String, String),
    /// A remediation hint.
    Suggestion(String),
    /// An advisory warning.
    Warning(String),
    /// An advisory note.
    Note(String),
}

/// The mathematical shape of a section: every text as a sequence of
/// characters.
pub ghost enum SectionView {
    Error(Seq<Seq<char>>),
    Custom(Seq<char>, Seq<char>),
    Suggestion(Seq<char>),
    Warning(Seq<char>),
    Note(Seq<char>),
}

impl View for HelpInfo {
    type V = SectionView;

    open spec fn view(&self) -> SectionView {
        match self {
            HelpInfo::Error(chain) => SectionView::Error(chain.deep_view()),
            HelpInfo::Custom(header, body) => SectionView::Custom(header@, body@),
            HelpInfo::Suggestion(text) => SectionView::Suggestion(text@),
            HelpInfo::Warning(text) => SectionView::Warning(text@),
            HelpInfo::Note(text) => SectionView::Note(text@),
        }
    }
}

impl DeepView for HelpInfo {
    type V = SectionView;

    open spec fn deep_view(&self) -> SectionView {
        self.view()
    }
}

} // verus!

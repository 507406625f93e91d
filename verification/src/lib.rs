//! Error-report composition and rendering: ordered help sections attached to a
//! report, captured trace context, a verbosity-tiered text renderer, a
//! once-only hook installation state machine, and a fold that aggregates many
//! failures into one report.
use vstd::prelude::*;

pub mod handler;
pub mod hook;
pub mod laws;
pub mod render;
pub mod report;
pub mod section;
pub mod text;

pub use handler::Handler;
pub use hook::install;

verus! {

/// A verbosity tier controlling how much trace detail is rendered.
#[derive(Clone, Copy, Debug, PartialEq, Eq, Structural)]
pub enum Verbosity {
    /// Only the error chain and attached sections.
    Minimal,
    /// Additionally the captured trace frame lists.
    Short,
    /// Additionally source-line windows around backtrace frames.
    Full,
}

impl Verbosity {
    /// Numeric rank of a tier; the tiers are totally ordered by it.
    pub open spec fn level(self) -> int {
        match self {
            Verbosity::Minimal => 0,
            Verbosity::Short => 1,
            Verbosity::Full => 2,
        }
    }

    /// True when `self` shows at least as much as `other`.
    pub fn at_least(self, other: Verbosity) -> (r: bool)
        ensures
            r == (self.level() >= other.level()),
    {
        match (self, other) {
            (_, Verbosity::Minimal) => true,
            (Verbosity::Minimal, _) => false,
            (_, Verbosity::Short) => true,
            (Verbosity::Short, _) => false,
            (Verbosity::Full, Verbosity::Full) => true,
        }
    }
}

} // verus!

//! Source positions.

use vstd::prelude::*;

verus! {

/// A half-open range of byte offsets into the source text.
#[derive(Clone, Copy, Debug, PartialEq, Eq, Structural)]
pub struct Span {
    pub start: u32,
    pub end: u32,
}

impl Span {
    /// A span is valid when it does not end before it starts.
    pub open spec fn wf(self) -> bool {
        self.start <= self.end
    }

    /// The span from `start` to `end`.
    pub fn new(start: u32, end: u32) -> (s: Span)
        ensures
            s == (Span { start, end }),
    {
        Span { start, end }
    }

    /// The span that starts at `start` and reaches `end`, or is empty at
    /// `start` when `end` lies before it.
    pub open spec fn spec_closing(start: u32, end: u32) -> Span {
        Span { start, end: if end < start { start } else { end } }
    }

    /// Executable form of [`Span::spec_closing`]; the result is always valid.
    pub fn closing(start: u32, end: u32) -> (s: Span)
        ensures
            s == Span::spec_closing(start, end),
            s.wf(),
    {
        if end < start {
            Span { start, end: start }
        } else {
            Span { start, end }
        }
    }
}

} // verus!

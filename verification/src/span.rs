//! Source positions. A span only attributes a diagnostic to a place in the
//! source text: the analyzer compares spans and never reads the text.

use vstd::prelude::*;

verus! {

/// A half-open range of byte offsets in a source file.
#[derive(Clone, Copy, Debug, PartialEq, Eq, Hash, PartialOrd, Ord, Structural)]
pub struct Span {
    pub lo: u32,
    pub hi: u32,
}

impl Span {
    /// The span of a node that has no place in the source text.
    pub open spec fn spec_dummy() -> Span {
        Span { lo: 0, hi: 0 }
    }

    /// A span from its two ends, given in any order.
    pub open spec fn spec_new(a: u32, b: u32) -> Span {
        if a <= b {
            Span { lo: a, hi: b }
        } else {
            Span { lo: b, hi: a }
        }
    }

    /// The span of a node that has no place in the source text.
    #[verifier::when_used_as_spec(spec_dummy)]
    pub fn dummy() -> (s: Span)
        ensures
            s == Span::spec_dummy(),
    {
        Span { lo: 0, hi: 0 }
    }

    /// A span from its two ends, given in any order.
    #[verifier::when_used_as_spec(spec_new)]
    pub fn new(a: u32, b: u32) -> (s: Span)
        ensures
            s == Span::spec_new(a, b),
            s.lo <= s.hi,
    {
        if a <= b {
            Span { lo: a, hi: b }
        } else {
            Span { lo: b, hi: a }
        }
    }

    /// Whether the span is the one of a node without a place in the source.
    pub open spec fn spec_is_dummy(self) -> bool {
        self.lo == 0 && self.hi == 0
    }

    /// Whether the span is the one of a node without a place in the source.
    #[verifier::when_used_as_spec(spec_is_dummy)]
    pub fn is_dummy(self) -> (b: bool)
        ensures
            b == self.spec_is_dummy(),
    {
        self.lo == 0 && self.hi == 0
    }

    /// The span that starts at `lo` and ends where this one ends.
    pub open spec fn spec_with_lo(self, lo: u32) -> Span {
        Span::spec_new(lo, self.hi)
    }

    /// The span that starts at `lo` and ends where this one ends. The two
    /// ends change places if `lo` lies behind the end.
    #[verifier::when_used_as_spec(spec_with_lo)]
    pub fn with_lo(self, lo: u32) -> (s: Span)
        ensures
            s == self.spec_with_lo(lo),
    {
        Span::new(lo, self.hi)
    }
}

} // verus!

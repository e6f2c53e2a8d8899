//! Source locations.

use vstd::prelude::*;

verus! {

/// A range of byte offsets into the analysed source text.
///
/// Spans are produced by the parser and only ever read here: diagnostics are
/// anchored at a span, and control-flow facts are keyed by a span's `lo`.
#[derive(Clone, Copy, Debug, PartialEq, Eq, Structural)]
pub struct Span {
    /// Offset of the first byte.
    pub lo: u32,
    /// Offset one past the last byte.
    pub hi: u32,
}

impl Span {
    /// The span from `lo` to `hi`.
    pub fn new(lo: u32, hi: u32) -> (span: Span)
        ensures
            span == (Span { lo, hi }),
    {
        Span { lo, hi }
    }
}

} // verus!

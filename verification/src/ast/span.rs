//! Source positions.

use vstd::prelude::*;

verus! {

/// A half-open range of byte offsets into the source text.
#[derive(Clone, Copy, PartialEq, Eq, Structural, Debug)]
pub struct Span {
    pub start: u32,
    pub end: u32,
}

impl Span {
    /// The range from `start` up to `end`.
    pub fn new(start: u32, end: u32) -> (span: Self)
        ensures
            span == (Span { start, end }),
    {
        Span { start, end }
    }
}

} // verus!

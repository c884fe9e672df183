//! Span arithmetic for parse diagnostics.
//!
//! A syntax error arrives from the upstream parse-tree producer as either
//! a single byte position or a byte range; both normalize to an offset
//! plus length for a source-annotated renderer.

use vstd::prelude::*;

verus! {

/// Where a syntax error was located in the source text.
#[derive(Debug, Clone, Copy, PartialEq, Eq, Structural)]
pub enum Location {
    /// A single byte position.
    Pos(usize),
    /// A byte range, start inclusive and end exclusive.
    Range(usize, usize),
}

/// A normalized source span: a byte offset and a length.
#[derive(Debug, Clone, Copy, PartialEq, Eq, Structural)]
pub struct Span {
    pub offset: usize,
    pub len: usize,
}

/// The span a location normalizes to: a position becomes an empty span at
/// that offset; a range keeps its start, with a length that is the
/// difference of the ends, saturating at zero when they are reversed.
pub open spec fn spec_location_span(loc: Location) -> Span {
    match loc {
        Location::Pos(pos) => Span { offset: pos, len: 0 },
        Location::Range(start, end) => Span {
            offset: start,
            len: if end >= start {
                (end - start) as usize
            } else {
                0
            },
        },
    }
}

/// Normalizes an error location to a span.
pub fn location_to_span(location: &Location) -> (r: Span)
    ensures
        r == spec_location_span(*location),
{
    match location {
        Location::Pos(pos) => Span { offset: *pos, len: 0 },
        Location::Range(start, end) => {
            let len = if *end >= *start {
                *end - *start
            } else {
                0
            };
            Span { offset: *start, len }
        },
    }
}

} // verus!

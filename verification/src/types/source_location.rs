//! Where a block stands in the component's source.

use vstd::prelude::*;

verus! {

/// A position in the source.
#[derive(Debug, Clone, Copy, PartialEq, Eq, Structural)]
pub struct Position {
    /// Byte offset from the start of the file.
    pub offset: usize,
    /// Line number, counted from one.
    pub line: usize,
    /// Column number, counted from one.
    pub column: usize,
}

/// The range of the source that a block spans.
#[derive(Debug, Clone, Copy, PartialEq, Eq, Structural)]
pub struct SourceLocation {
    /// Where the block starts.
    pub start: Position,
    /// Where the block ends.
    pub end: Position,
}

} // verus!

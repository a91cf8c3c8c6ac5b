use vstd::prelude::*;

verus! {

/// Different ways to clear the terminal buffer.
#[derive(Copy, Clone, Debug, PartialEq, Eq, Structural, Ord, PartialOrd, Hash)]
pub enum ClearType {
    /// All cells.
    All,
    /// All cells from the cursor position downwards.
    FromCursorDown,
    /// All cells from the cursor position upwards.
    FromCursorUp,
    /// All cells at the cursor row.
    CurrentLine,
    /// All cells from the cursor position until the new line.
    UntilNewLine,
}

} // verus!

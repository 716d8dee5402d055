//! Fixed parameters of the on-disk format.

use vstd::prelude::*;

verus! {

/// The text that indents a task by one level.
pub const LEVEL_INDENTATION: &'static str = "  ";

/// The number of characters in [`LEVEL_INDENTATION`].
pub const INDENT_WIDTH: usize = 2;

/// [`LEVEL_INDENTATION`] is [`INDENT_WIDTH`] spaces.
pub proof fn lemma_level_indentation()
    ensures
        LEVEL_INDENTATION@ == Seq::new(INDENT_WIDTH as nat, |i: int| ' '),
{
    reveal_strlit("  ");
}

} // verus!

use vstd::prelude::*;

verus! {

/// How the items of a comma-separated list inside a rule block are broken
/// over lines.
#[derive(Clone, Copy, Debug, PartialEq, Eq)]
pub enum BlockSelectorLineBreak {
    /// Every item on a line of its own, whatever the width.
    Always,
    /// All items on one line, or every item on a line of its own.
    Consistent,
    /// Items reflow one by one: only the separators where the line is full break.
    Wrap,
}

/// Read-only context of one formatting run.
#[derive(Clone, Copy, Debug)]
pub struct Ctx {
    /// Width of one indentation level, handed on to indentation scopes.
    pub indent_width: usize,
    /// Line-break policy of list-like constructs.
    pub block_selector_linebreak: BlockSelectorLineBreak,
}

} // verus!

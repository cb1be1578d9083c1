//! A parsed changelog as its pre-order outline: each node is entered before
//! the nodes under it and left after them.
use vstd::prelude::*;

verus! {

/// The kinds of node that section extraction tells apart.
#[derive(Debug, Clone, Copy, PartialEq, Eq, Structural)]
pub enum BlockKind {
    /// A heading of the given level.
    Heading { level: u32 },
    /// A list item; its content is rendered whole by the enclosing list.
    ListItem,
    /// A run of plain inline text.
    Text,
    /// An inline code span.
    Code,
    /// Any other node: the document itself, paragraphs, lists, block quotes,
    /// emphasis, links, code blocks and the like.
    Other,
}

/// One node of a parsed changelog.
#[derive(Debug)]
pub struct Block {
    pub kind: BlockKind,
    /// The node's own source text; for a heading, the text after its `#` marks.
    pub content: Vec<u8>,
    /// The node, with everything below it, rendered back to commonmark.
    pub rendered: Vec<u8>,
}

/// One step of the outline of a document.
#[derive(Debug)]
pub enum Step {
    /// A node begins; the nodes under it follow, then its `Leave`.
    Enter(Block),
    /// The most recently entered node that is still open ends.
    Leave,
}

impl Block {
    /// A level-2 heading: the start of a section, and the end of the one before.
    pub open spec fn is_boundary(self) -> bool {
        self.kind == (BlockKind::Heading { level: 2 })
    }

    /// A node that its parent renders whole, so a walk does not descend into it.
    pub open spec fn is_opaque(self) -> bool {
        is_opaque_kind(self.kind)
    }
}

/// The kinds that a walk never enters below the root: text runs, list items
/// and code spans. Each of them is rendered as part of an ancestor, so
/// entering one would collect its text twice.
pub open spec fn is_opaque_kind(k: BlockKind) -> bool {
    k is Text || k is ListItem || k is Code
}

/// Executable form of `is_opaque_kind`.
pub fn opaque_kind(k: &BlockKind) -> (r: bool)
    ensures
        r == is_opaque_kind(*k),
{
    match k {
        BlockKind::Text => true,
        BlockKind::ListItem => true,
        BlockKind::Code => true,
        _ => false,
    }
}

} // verus!

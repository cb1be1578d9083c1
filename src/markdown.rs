//! The outline of a changelog, as comrak parses and renders it.
use vstd::prelude::*;
use comrak::arena_tree::{Node, NodeEdge};
use comrak::nodes::{Ast, AstNode, NodeValue};
use comrak::ComrakOptions;
use std::cell::RefCell;
use crate::document::{Block, BlockKind, Step};

verus! {

#[verifier::external_type_specification]
#[verifier::external_body]
#[verifier::reject_recursive_types(T)]
pub struct ExNode<'a, T: 'a>(Node<'a, T>);

#[verifier::external_type_specification]
#[verifier::external_body]
#[verifier::reject_recursive_types(T)]
pub struct ExRefCell<T: ?Sized>(RefCell<T>);

#[verifier::external_type_specification]
#[verifier::external_body]
pub struct ExAst(Ast);

/// The outline of `source` as comrak, with its default options, parses it:
/// one `Enter` and one `Leave` for each node, in document order, each node
/// with its kind, its content and its commonmark rendering.
pub uninterp spec fn comrak_outline(source: Seq<char>) -> Seq<Step>;

/// Relies on `comrak::parse_document` with comrak's default options, and on
/// `comrak::arena_tree::Node::traverse` over its root: the nodes in document
/// order, each entered before the nodes under it and left after them. What
/// they are depends on `source` alone.
#[verifier::external_body]
pub(crate) fn outline_of(source: &str) -> (r: Vec<Step>)
    ensures
        r@ == comrak_outline(source@),
{
    let arena = comrak::Arena::new();
    let root = comrak::parse_document(&arena, source, &ComrakOptions::default());
    root.traverse().map(|edge| match edge {
        NodeEdge::Start(node) => Step::Enter(block_of(node)),
        NodeEdge::End(_) => Step::Leave,
    }).collect()
}

/// Relies on the node's `Ast`, read through `RefCell::borrow`, and on
/// `comrak::format_commonmark` with comrak's default options: the node's
/// kind, with a heading's level, its content bytes, and the node with
/// everything under it as commonmark. The formatter writes into a `Vec<u8>`,
/// which never fails, so its `io::Result` carries nothing.
#[verifier::external_body]
fn block_of<'a>(node: &'a AstNode<'a>) -> Block {
    let ast = node.data.borrow();
    let kind = match ast.value {
        NodeValue::Heading(ref heading) => BlockKind::Heading { level: heading.level },
        NodeValue::Item(_) => BlockKind::ListItem,
        NodeValue::Text(_) => BlockKind::Text,
        NodeValue::Code(_) => BlockKind::Code,
        _ => BlockKind::Other,
    };
    let mut rendered: Vec<u8> = Vec::new();
    let _ = comrak::format_commonmark(node, &ComrakOptions::default(), &mut rendered);
    Block { kind, content: ast.content.clone(), rendered }
}

} // verus!

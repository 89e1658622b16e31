//! Markup parsing through html5ever, and the text of the tree it builds.
//!
//! The tree is walked with an explicit work stack, so deeply nested markup
//! cannot exhaust the call stack.

use vstd::prelude::*;

use html5ever::parse_document;
use html5ever::tendril::TendrilSink;
use markup5ever_rcdom::{Node, NodeData, RcDom};
use std::rc::Rc;

use crate::document::{is_blank_text, is_hidden_element, is_hidden_tag, text_line, NodeKind};
use crate::text::{trim, trim_ws};

verus! {

/// A node of the tree that html5ever builds into an `RcDom`.
#[verifier::external_type_specification]
#[verifier::external_body]
pub struct ExNode(Node);

/// The most characters of markup that are parsed: the parser holds its input
/// in a buffer whose byte length must fit in a `u32`, and a character takes at
/// most four bytes.
pub const MAX_MARKUP_CHARS: usize = 0x3fff_ffff;

/// What a node of a parsed document is.
pub enum TreeKind {
    Root,
    /// An element, with its local tag name.
    Element(Seq<char>),
    /// A run of text, with its content.
    Text(Seq<char>),
    /// A comment, a doctype or a processing instruction.
    Other,
}

/// A parsed document: a node's kind and its children, in document order.
pub struct DomTree {
    pub kind: TreeKind,
    pub children: Seq<DomTree>,
}

/// The tree that html5ever's `parse_document` builds from `markup`.
pub uninterp spec fn parsed_document(markup: Seq<char>) -> DomTree;

/// The tree under a node of an `RcDom`. Dropping the last handle to a node
/// empties the child lists of all its descendants, so the walks below hold the
/// root's handle until they are done.
pub uninterp spec fn subtree(n: Node) -> DomTree;

pub open spec fn kind_view(k: NodeKind) -> TreeKind {
    match k {
        NodeKind::Root => TreeKind::Root,
        NodeKind::Element(name) => TreeKind::Element(name@),
        NodeKind::Text(s) => TreeKind::Text(s@),
        NodeKind::Other => TreeKind::Other,
    }
}

/// Relies on html5ever's `parse_document` into an `RcDom`: it parses any input
/// (malformed markup included) into a document, and returns its root node, a
/// `NodeData::Document`. `TendrilSink::one` panics on input whose byte length
/// does not fit in a `u32`.
#[verifier::external_body]
fn parse_html(html: &str) -> (r: Rc<Node>)
    requires
        html@.len() <= MAX_MARKUP_CHARS,
    ensures
        subtree(*r) == parsed_document(html@),
        subtree(*r).kind == TreeKind::Root,
{
    let dom: RcDom = parse_document(RcDom::default(), Default::default()).one(html);
    dom.document
}

/// Relies on markup5ever_rcdom's `Node::data`: which kind of node `h` is, with
/// the local tag name of an element and the content of a text node.
#[verifier::external_body]
fn node_kind(h: &Rc<Node>) -> (r: NodeKind)
    ensures
        kind_view(r) == subtree(**h).kind,
{
    match &h.data {
        NodeData::Document => NodeKind::Root,
        NodeData::Element { name, .. } => NodeKind::Element(String::from(&*name.local)),
        NodeData::Text { contents } => NodeKind::Text(String::from(&**contents.borrow())),
        NodeData::Doctype { .. } => NodeKind::Other,
        NodeData::Comment { .. } => NodeKind::Other,
        NodeData::ProcessingInstruction { .. } => NodeKind::Other,
    }
}

/// Relies on markup5ever_rcdom's `Node::children`: the children of `h`, in document order.
#[verifier::external_body]
fn node_children(h: &Rc<Node>) -> (r: Vec<Rc<Node>>)
    ensures
        r@.len() == subtree(**h).children.len(),
        forall|i: int| 0 <= i < r@.len() ==> subtree(*#[trigger] r@[i]) == subtree(**h).children[i],
{
    h.children.borrow().clone()
}

/// The text of a tree, in document order: each non-blank text node followed by
/// a line break, `script` and `style` elements (in any case) left out.
pub open spec fn tree_text(t: DomTree) -> Seq<char>
    decreases t, 1int, 0int,
{
    match t.kind {
        TreeKind::Text(s) => text_line(s),
        TreeKind::Element(name) => if is_hidden_tag(name) {
            Seq::empty()
        } else {
            forest_text(t, 0)
        },
        _ => forest_text(t, 0),
    }
}

/// The text of the children of `t` from the `k`-th on.
pub open spec fn forest_text(t: DomTree, k: int) -> Seq<char>
    decreases t, 0int, t.children.len() - k,
{
    if 0 <= k < t.children.len() {
        tree_text(t.children[k]) + forest_text(t, k + 1)
    } else {
        Seq::empty()
    }
}

/// The number of nodes in a tree.
pub open spec fn tree_size(t: DomTree) -> nat
    decreases t, 1int, 0int,
{
    1 + forest_size(t, 0)
}

pub open spec fn forest_size(t: DomTree, k: int) -> nat
    decreases t, 0int, t.children.len() - k,
{
    if 0 <= k < t.children.len() {
        tree_size(t.children[k]) + forest_size(t, k + 1)
    } else {
        0
    }
}

/// The tree under the node that `h` points to.
pub open spec fn tree_at(h: &Rc<Node>) -> DomTree {
    subtree(**h)
}

pub open spec fn trees_of(stack: Seq<Rc<Node>>) -> Seq<DomTree> {
    stack.map_values(|h: Rc<Node>| subtree(*h))
}

/// The text of the trees on a work stack, the top (last) first.
pub open spec fn stack_text(stack: Seq<DomTree>) -> Seq<char>
    decreases stack.len(),
{
    if stack.len() == 0 {
        Seq::empty()
    } else {
        tree_text(stack.last()) + stack_text(stack.drop_last())
    }
}

pub open spec fn stack_size(stack: Seq<DomTree>) -> nat
    decreases stack.len(),
{
    if stack.len() == 0 {
        0
    } else {
        tree_size(stack.last()) + stack_size(stack.drop_last())
    }
}

/// Pushes the children of `h` on the stack, last child first, so that they
/// come off it in document order.
fn push_children(h: &Rc<Node>, stack: &mut Vec<Rc<Node>>)
    ensures
        stack_text(trees_of(final(stack)@)) == forest_text(subtree(**h), 0) + stack_text(
            trees_of(old(stack)@),
        ),
        stack_size(trees_of(final(stack)@)) == forest_size(subtree(**h), 0) + stack_size(
            trees_of(old(stack)@),
        ),
{
    let ghost t = tree_at(h);
    let mut children = node_children(h);
    let ghost all = children@;
    assert(stack_text(trees_of(stack@)) =~= forest_text(t, children@.len() as int) + stack_text(
        trees_of(stack@),
    ));
    while children.len() > 0
        invariant
            children@.len() <= all.len(),
            children@ == all.subrange(0, children@.len() as int),
            all.len() == t.children.len(),
            forall|i: int| 0 <= i < all.len() ==> subtree(*#[trigger] all[i]) == t.children[i],
            stack_text(trees_of(stack@)) == forest_text(t, children@.len() as int) + stack_text(
                trees_of(old(stack)@),
            ),
            stack_size(trees_of(stack@)) == forest_size(t, children@.len() as int) + stack_size(
                trees_of(old(stack)@),
            ),
        decreases children@.len(),
    {
        let ghost k: int = children@.len() - 1;
        let ghost prev = children@;
        assert(prev[k] == all[k]);
        let c = children.pop().unwrap();
        assert(c == prev[k]);
        assert(children@ =~= all.subrange(0, k));
        let ghost before = stack@;
        stack.push(c);
        assert(trees_of(stack@).drop_last() =~= trees_of(before));
        assert(trees_of(stack@).last() == t.children[k]);
        assert(stack_text(trees_of(stack@)) =~= forest_text(t, k) + stack_text(
            trees_of(old(stack)@),
        ));
    }
}

/// The readable text of a page: `markup` is parsed as HTML (malformed markup
/// degrades to whatever tree the parser recovers), and the content of each
/// non-blank text node outside `script` and `style` elements is taken in
/// document order, one per line, with the whole trimmed of surrounding
/// whitespace.
pub fn extract_text_from_html(markup: &str) -> (r: String)
    requires
        markup@.len() <= MAX_MARKUP_CHARS,
    ensures
        r@ == trim_ws(tree_text(parsed_document(markup@))),
{
    let ghost doc = parsed_document(markup@);
    let root = parse_html(markup);
    let mut out = String::new();
    let mut stack: Vec<Rc<Node>> = Vec::new();
    proof {
        assert(stack_text(trees_of(stack@)) == Seq::<char>::empty());
    }
    push_children(&root, &mut stack);
    assert(stack_text(trees_of(stack@)) =~= tree_text(doc));
    let newline = "\n";
    proof {
        reveal_strlit("\n");
    }
    while stack.len() > 0
        invariant
            newline@ == seq!['\n'],
            out@ + stack_text(trees_of(stack@)) == tree_text(doc),
        decreases stack_size(trees_of(stack@)),
    {
        let ghost before = stack@;
        let h = stack.pop().unwrap();
        let ghost t = tree_at(&h);
        assert(trees_of(before).drop_last() =~= trees_of(stack@));
        assert(trees_of(before).last() == t);
        let ghost rest = stack_text(trees_of(stack@));
        assert(stack_text(trees_of(before)) == tree_text(t) + rest);
        assert(stack_size(trees_of(before)) == tree_size(t) + stack_size(trees_of(stack@)));
        match node_kind(&h) {
            NodeKind::Text(s) => {
                if !is_blank_text(s.as_str()) {
                    let ghost o = out@;
                    out.append(s.as_str());
                    out.append(newline);
                    assert(out@ + rest =~= o + (tree_text(t) + rest));
                } else {
                    assert(out@ + rest =~= out@ + (tree_text(t) + rest));
                }
            },
            NodeKind::Element(name) => {
                if !is_hidden_element(name.as_str()) {
                    push_children(&h, &mut stack);
                    assert(out@ + stack_text(trees_of(stack@)) =~= out@ + (tree_text(t) + rest));
                } else {
                    assert(out@ + rest =~= out@ + (tree_text(t) + rest));
                }
            },
            _ => {
                push_children(&h, &mut stack);
                assert(out@ + stack_text(trees_of(stack@)) =~= out@ + (tree_text(t) + rest));
            },
        }
    }
    assert(out@ =~= tree_text(doc));
    // `root` is dropped only here, at the end of its scope, after the walk.
    trim(out.as_str())
}

} // verus!

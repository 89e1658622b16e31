//! Document trees held in an arena, and the text that a tree reads as.
//!
//! Nodes live in one vector and name their children by index. A child always
//! stands after its parent, so every walk down the tree ends, and the text is
//! gathered with an explicit work stack rather than by recursion.

use vstd::prelude::*;
use vstd::string::*;

use crate::text::{eq_ignore_ascii_case, equals_ignore_ascii_case, is_blank, trim, trim_ws};

verus! {

/// What a node of a document is.
#[derive(Debug, Clone)]
pub enum NodeKind {
    /// The document itself.
    Root,
    /// An element, with its tag name.
    Element(String),
    /// A run of text.
    Text(String),
    /// A comment, a doctype or a processing instruction.
    Other,
}

/// One node: its kind and the indices of its children, in document order.
#[derive(Debug, Clone)]
pub struct DomNode {
    pub kind: NodeKind,
    pub children: Vec<usize>,
}

/// A document tree; node 0 is the root.
#[derive(Debug, Clone)]
pub struct Document {
    pub nodes: Vec<DomNode>,
}

pub open spec fn script_tag() -> Seq<char> {
    seq!['s', 'c', 'r', 'i', 'p', 't']
}

pub open spec fn style_tag() -> Seq<char> {
    seq!['s', 't', 'y', 'l', 'e']
}

/// Elements whose content is never shown: `script` and `style`, in any case.
pub open spec fn is_hidden_tag(name: Seq<char>) -> bool {
    eq_ignore_ascii_case(name, script_tag()) || eq_ignore_ascii_case(name, style_tag())
}

/// What a text node adds to the text: its content and a line break, unless it is blank.
pub open spec fn text_line(s: Seq<char>) -> Seq<char> {
    if is_blank(s) {
        Seq::empty()
    } else {
        s + seq!['\n']
    }
}

impl Document {
    pub open spec fn len(&self) -> int {
        self.nodes@.len() as int
    }

    pub open spec fn child(&self, i: int, k: int) -> int {
        self.nodes@[i].children@[k] as int
    }

    pub open spec fn child_count(&self, i: int) -> int {
        self.nodes@[i].children@.len() as int
    }

    /// There is a root, and each child stands after its parent and inside the arena.
    pub open spec fn wf(&self) -> bool {
        &&& self.len() >= 1
        &&& forall|i: int, k: int|
            0 <= i < self.len() && 0 <= k < self.child_count(i) ==> i < #[trigger] self.child(i, k)
                < self.len()
    }

    /// The text of the subtree under node `i`, in document order: each non-blank
    /// text node followed by a line break, hidden elements left out.
    pub open spec fn node_text(&self, i: int) -> Seq<char>
        decreases self.len() - i, 1int, 0int,
    {
        if 0 <= i < self.len() {
            match self.nodes@[i].kind {
                NodeKind::Text(s) => text_line(s@),
                NodeKind::Element(name) => if is_hidden_tag(name@) {
                    Seq::empty()
                } else {
                    self.children_text(i, 0)
                },
                _ => self.children_text(i, 0),
            }
        } else {
            Seq::empty()
        }
    }

    /// The text of the children of node `i` from the `k`-th on.
    pub open spec fn children_text(&self, i: int, k: int) -> Seq<char>
        decreases self.len() - i, 0int, self.child_count(i) - k,
    {
        if 0 <= i < self.len() && 0 <= k < self.child_count(i) {
            let c = self.child(i, k);
            let head = if i < c < self.len() {
                self.node_text(c)
            } else {
                Seq::empty()
            };
            head + self.children_text(i, k + 1)
        } else {
            Seq::empty()
        }
    }

    /// The number of nodes a walk visits under node `i`, `i` included.
    pub open spec fn node_size(&self, i: int) -> nat
        decreases self.len() - i, 1int, 0int,
    {
        if 0 <= i < self.len() {
            1 + self.children_size(i, 0)
        } else {
            1
        }
    }

    pub open spec fn children_size(&self, i: int, k: int) -> nat
        decreases self.len() - i, 0int, self.child_count(i) - k,
    {
        if 0 <= i < self.len() && 0 <= k < self.child_count(i) {
            let c = self.child(i, k);
            let head = if i < c < self.len() {
                self.node_size(c)
            } else {
                0
            };
            head + self.children_size(i, k + 1)
        } else {
            0
        }
    }

    /// The text of the whole document.
    pub open spec fn text(&self) -> Seq<char> {
        self.node_text(0)
    }

    /// The text of the nodes on a work stack, the top (last) first.
    pub open spec fn stack_text(&self, stack: Seq<usize>) -> Seq<char>
        decreases stack.len(),
    {
        if stack.len() == 0 {
            Seq::empty()
        } else {
            self.node_text(stack.last() as int) + self.stack_text(stack.drop_last())
        }
    }

    pub open spec fn stack_size(&self, stack: Seq<usize>) -> nat
        decreases stack.len(),
    {
        if stack.len() == 0 {
            0
        } else {
            self.node_size(stack.last() as int) + self.stack_size(stack.drop_last())
        }
    }
}

/// Whether an element with this tag name is left out of the text.
pub fn is_hidden_element(name: &str) -> (r: bool)
    ensures
        r == is_hidden_tag(name@),
{
    let script = "script";
    let style = "style";
    proof {
        reveal_strlit("script");
        reveal_strlit("style");
        assert(script@ =~= script_tag());
        assert(style@ =~= style_tag());
    }
    equals_ignore_ascii_case(name, script) || equals_ignore_ascii_case(name, style)
}

/// Whether `s` holds nothing but whitespace.
pub fn is_blank_text(s: &str) -> (r: bool)
    ensures
        r == is_blank(s@),
{
    let t = trim(s);
    t.as_str().is_empty()
}

/// Pushes the children of node `i` on the stack, last child first, so that
/// they come off it in document order.
fn push_children(doc: &Document, i: usize, stack: &mut Vec<usize>)
    requires
        doc.wf(),
        i < doc.len(),
    ensures
        doc.stack_text(final(stack)@) == doc.children_text(i as int, 0) + doc.stack_text(old(stack)@),
        doc.stack_size(final(stack)@) == doc.children_size(i as int, 0) + doc.stack_size(
            old(stack)@,
        ),
{
    let node = &doc.nodes[i];
    let mut k: usize = node.children.len();
    assert(doc.stack_text(stack@) =~= doc.children_text(i as int, k as int) + doc.stack_text(stack@));
    while k > 0
        invariant
            doc.wf(),
            i < doc.len(),
            node == doc.nodes@[i as int],
            k <= doc.child_count(i as int),
            doc.stack_text(stack@) == doc.children_text(i as int, k as int) + doc.stack_text(
                old(stack)@,
            ),
            doc.stack_size(stack@) == doc.children_size(i as int, k as int) + doc.stack_size(
                old(stack)@,
            ),
        decreases k,
    {
        k -= 1;
        let c = node.children[k];
        assert(i < doc.child(i as int, k as int) < doc.len());
        let ghost before = stack@;
        stack.push(c);
        assert(stack@.drop_last() =~= before);
        assert(doc.stack_text(stack@) =~= doc.children_text(i as int, k as int) + doc.stack_text(
            old(stack)@,
        ));
    }
}

/// The readable text of a document: the content of each non-blank text node
/// outside `script` and `style` elements, in document order, one per line,
/// with the whole trimmed of surrounding whitespace.
pub fn extract_text(doc: &Document) -> (r: String)
    requires
        doc.wf(),
    ensures
        r@ == trim_ws(doc.text()),
{
    let mut out = String::new();
    let mut stack: Vec<usize> = Vec::new();
    stack.push(0);
    assert(doc.stack_text(stack@) =~= doc.text()) by {
        assert(stack@.drop_last() =~= Seq::<usize>::empty());
        assert(doc.stack_text(Seq::<usize>::empty()) == Seq::<char>::empty());
    }
    let newline = "\n";
    proof {
        reveal_strlit("\n");
    }
    while stack.len() > 0
        invariant
            doc.wf(),
            newline@ == seq!['\n'],
            out@ + doc.stack_text(stack@) == doc.text(),
        decreases doc.stack_size(stack@),
    {
        let ghost before = stack@;
        let i = stack.pop().unwrap();
        assert(before.drop_last() == stack@);
        let ghost rest = doc.stack_text(stack@);
        assert(doc.stack_text(before) == doc.node_text(i as int) + rest);
        assert(doc.stack_size(before) == doc.node_size(i as int) + doc.stack_size(stack@));
        if i < doc.nodes.len() {
            match &doc.nodes[i].kind {
                NodeKind::Text(s) => {
                    if !is_blank_text(s.as_str()) {
                        let ghost o = out@;
                        out.append(s.as_str());
                        out.append(newline);
                        assert(out@ + rest =~= o + (doc.node_text(i as int) + rest));
                    }
                },
                NodeKind::Element(name) => {
                    if !is_hidden_element(name.as_str()) {
                        push_children(doc, i, &mut stack);
                        assert(out@ + doc.stack_text(stack@) =~= out@ + (doc.node_text(i as int) + rest));
                    } else {
                        assert(out@ + rest =~= out@ + (doc.node_text(i as int) + rest));
                    }
                },
                _ => {
                    push_children(doc, i, &mut stack);
                    assert(out@ + doc.stack_text(stack@) =~= out@ + (doc.node_text(i as int) + rest));
                },
            }
        } else {
            assert(out@ + rest =~= out@ + (doc.node_text(i as int) + rest));
        }
    }
    assert(out@ =~= doc.text());
    trim(out.as_str())
}

} // verus!

//! Compiled templates: a tree of text chunks and named tags.
//!
//! A `Template` owns the tree a parser produced; a `Section` is an immutable
//! borrowed view of one block's body, reusable across any number of render
//! calls.  Every tag carries its precomputed name hash beside the literal
//! name (see `crate::hash`).

use vstd::prelude::*;
use crate::hash::{fh, field_hash};

verus! {

broadcast use vstd::std_specs::vec::group_vec_axioms;


/// One entry of a compiled template body.
pub enum Node {
    /// Literal text, written through unchanged.
    Text(String),
    /// A variable tag rendered with escaping, as `(hash, name)`.
    Escaped(u64, String),
    /// A variable tag rendered without escaping.
    Unescaped(u64, String),
    /// A block tag rendered as a plain section, with its body.
    Section(u64, String, Vec<Node>),
    /// A block tag rendered as an inverse section, with its body.
    Inverse(u64, String, Vec<Node>),
}

/// The mathematical shape of a `Node`.
pub enum NodeV {
    Text(Seq<char>),
    Escaped(u64, Seq<char>),
    Unescaped(u64, Seq<char>),
    Section(u64, Seq<char>, Seq<NodeV>),
    Inverse(u64, Seq<char>, Seq<NodeV>),
}

/// The shape of one node.
pub open spec fn node_view(n: Node) -> NodeV
    decreases n,
    via node_view_decreases
{
    match n {
        Node::Text(s) => NodeV::Text(s@),
        Node::Escaped(h, nm) => NodeV::Escaped(h, nm@),
        Node::Unescaped(h, nm) => NodeV::Unescaped(h, nm@),
        Node::Section(h, nm, cs) => NodeV::Section(h, nm@, nodes_view(cs@)),
        Node::Inverse(h, nm, cs) => NodeV::Inverse(h, nm@, nodes_view(cs@)),
    }
}

/// The shapes of a sequence of nodes, in order.
pub open spec fn nodes_view(ns: Seq<Node>) -> Seq<NodeV>
    decreases ns,
{
    if ns.len() == 0 {
        Seq::empty()
    } else {
        nodes_view(ns.drop_last()).push(node_view(ns.last()))
    }
}

#[via_fn]
proof fn node_view_decreases(n: Node) {
    broadcast use vstd::std_specs::vec::group_vec_axioms;


    match n {
        Node::Section(_, _, cs) => {
            assert(decreases_to!(n => cs));
            assert(decreases_to!(cs => cs@));
        },
        Node::Inverse(_, _, cs) => {
            assert(decreases_to!(n => cs));
            assert(decreases_to!(cs => cs@));
        },
        _ => {},
    }
}

impl View for Node {
    type V = NodeV;

    open spec fn view(&self) -> NodeV {
        node_view(*self)
    }
}

/// The views of a sequence of nodes.
pub open spec fn views_of(ns: Seq<Node>) -> Seq<NodeV> {
    Seq::new(ns.len(), |i: int| ns[i]@)
}

/// `nodes_view` and `views_of` name the same sequence.
pub broadcast proof fn lemma_nodes_view(ns: Seq<Node>)
    ensures
        #[trigger] nodes_view(ns) == views_of(ns),
    decreases ns,
{
    if ns.len() != 0 {
        lemma_nodes_view(ns.drop_last());
        assert(nodes_view(ns) =~= views_of(ns));
    } else {
        assert(nodes_view(ns) =~= views_of(ns));
    }
}

/// The size of one node: itself plus its body, transitively.
pub open spec fn node_size(n: NodeV) -> nat
    decreases n,
{
    match n {
        NodeV::Text(_) => 1,
        NodeV::Escaped(_, _) => 1,
        NodeV::Unescaped(_, _) => 1,
        NodeV::Section(_, _, cs) => 1 + nodes_size(cs),
        NodeV::Inverse(_, _, cs) => 1 + nodes_size(cs),
    }
}

/// The total size of a template body; the rendering recursion shrinks it.
pub open spec fn nodes_size(ns: Seq<NodeV>) -> nat
    decreases ns,
{
    if ns.len() == 0 {
        0
    } else {
        nodes_size(ns.drop_last()) + node_size(ns.last())
    }
}

/// A node weighs no more than any body it stands in.
pub proof fn lemma_node_size_le(ns: Seq<NodeV>, i: int)
    requires
        0 <= i < ns.len(),
    ensures
        node_size(ns[i]) <= nodes_size(ns),
    decreases ns.len(),
{
    if i < ns.len() - 1 {
        lemma_node_size_le(ns.drop_last(), i);
    }
}

impl Node {
    /// A literal text chunk.
    pub fn text(s: String) -> (n: Node)
        ensures
            n@ == NodeV::Text(s@),
    {
        Node::Text(s)
    }

    /// An escaped variable tag; the name hash is computed here, once.
    pub fn escaped(name: &str) -> (n: Node)
        ensures
            n@ == NodeV::Escaped(fh(name@), name@),
    {
        let h = field_hash(name);
        Node::Escaped(h, String::from_str(name))
    }

    /// An unescaped variable tag.
    pub fn unescaped(name: &str) -> (n: Node)
        ensures
            n@ == NodeV::Unescaped(fh(name@), name@),
    {
        let h = field_hash(name);
        Node::Unescaped(h, String::from_str(name))
    }

    /// A plain section tag wrapping `body`.
    pub fn section(name: &str, body: Vec<Node>) -> (n: Node)
        ensures
            n@ == NodeV::Section(fh(name@), name@, views_of(body@)),
    {
        let h = field_hash(name);
        let n = Node::Section(h, String::from_str(name), body);
        proof {
            lemma_nodes_view(body@);
        }
        n
    }

    /// An inverse section tag wrapping `body`.
    pub fn inverse(name: &str, body: Vec<Node>) -> (n: Node)
        ensures
            n@ == NodeV::Inverse(fh(name@), name@, views_of(body@)),
    {
        let h = field_hash(name);
        let n = Node::Inverse(h, String::from_str(name), body);
        proof {
            lemma_nodes_view(body@);
        }
        n
    }
}

/// A borrowed, immutable view of one compiled block body.
#[derive(Clone, Copy)]
pub struct Section<'s> {
    pub(crate) nodes: &'s [Node],
}

impl<'s> View for Section<'s> {
    type V = Seq<NodeV>;

    closed spec fn view(&self) -> Seq<NodeV> {
        views_of(self.nodes@)
    }
}

impl<'s> Section<'s> {
    /// The section whose body is exactly `nodes`.
    pub fn new(nodes: &'s [Node]) -> (s: Section<'s>)
        ensures
            s@ == views_of(nodes@),
    {
        Section { nodes }
    }

    /// How many nodes the body holds.
    pub fn len(&self) -> (n: usize)
        ensures
            n == self@.len(),
    {
        self.nodes.len()
    }

    /// The body's `i`th node.
    pub fn node(&self, i: usize) -> (nd: &Node)
        requires
            i < self@.len(),
        ensures
            nd@ == self@[i as int],
    {
        &self.nodes[i]
    }
}

/// A compiled template: the root body plus nothing else the renderer needs.
pub struct Template {
    nodes: Vec<Node>,
}

impl View for Template {
    type V = Seq<NodeV>;

    closed spec fn view(&self) -> Seq<NodeV> {
        views_of(self.nodes@)
    }
}

impl Template {
    /// Compiles a template from an already-parsed body.
    pub fn new(nodes: Vec<Node>) -> (t: Template)
        ensures
            t@ == views_of(nodes@),
    {
        Template { nodes }
    }

    /// The root section spanning the whole template body.
    pub fn section(&self) -> (s: Section<'_>)
        ensures
            s@ == self@,
    {
        Section { nodes: self.nodes.as_slice() }
    }
}

} // verus!

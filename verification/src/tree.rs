//! Tree search: flattening the manager's layout snapshot into its leaf
//! containers, in depth-first order.

use vstd::prelude::*;

verus! {

/// A leaf of the layout tree: one real window, with the tags attached to
/// it, the id of the process that owns it, the container id the manager
/// knows it by, and whether it has input focus.
#[derive(Clone, Debug, PartialEq)]
pub struct Container {
    pub tags: Vec<String>,
    pub pid: u64,
    pub id: u64,
    pub focused: bool,
}

/// One node of the manager's layout snapshot: an inner node with its
/// ordered regular and floating children, or a leaf container. A node of
/// the raw snapshot with no children in either sequence is a leaf by
/// construction, so no node is both.
pub enum LayoutNode {
    Branch { children: Vec<LayoutNode>, floating: Vec<LayoutNode> },
    Leaf(Container),
}

/// The leaves of a node in depth-first order: a leaf is its own single
/// leaf; an inner node contributes its regular children's leaves first,
/// then its floating children's, each left to right.
pub open spec fn flatten_node(n: LayoutNode) -> Seq<Container>
    decreases n,
{
    match n {
        LayoutNode::Leaf(c) => seq![c],
        LayoutNode::Branch { children, floating } => flatten_nodes(children@) + flatten_nodes(
            floating@,
        ),
    }
}

/// The leaves of a sequence of sibling nodes, left to right.
pub open spec fn flatten_nodes(ns: Seq<LayoutNode>) -> Seq<Container>
    decreases ns,
{
    if ns.len() == 0 {
        Seq::empty()
    } else {
        flatten_node(ns[0]) + flatten_nodes(ns.drop_first())
    }
}

/// Whether the snapshot is well formed: every inner node has at least one
/// child across its two sequences. The raw snapshot guarantees this — a
/// node with no children in either sequence is a leaf — so the typed tree
/// built from it always is.
pub open spec fn well_formed(n: LayoutNode) -> bool
    decreases n,
{
    match n {
        LayoutNode::Leaf(_) => true,
        LayoutNode::Branch { children, floating } => children@.len() + floating@.len() > 0 && (
        forall|i: int| 0 <= i < children@.len() ==> well_formed(#[trigger] children@[i])) && (
        forall|i: int| 0 <= i < floating@.len() ==> well_formed(#[trigger] floating@[i])),
    }
}

/// A well-formed snapshot flattens to at least one container.
pub proof fn lemma_well_formed_has_leaf(n: LayoutNode)
    requires
        well_formed(n),
    ensures
        flatten_node(n).len() >= 1,
    decreases n,
{
    match n {
        LayoutNode::Leaf(_) => {},
        LayoutNode::Branch { children, floating } => {
            if children@.len() > 0 {
                lemma_well_formed_nodes_have_leaf(children@);
            } else {
                lemma_well_formed_nodes_have_leaf(floating@);
            }
        },
    }
}

/// A nonempty list of well-formed siblings flattens to at least one
/// container.
pub proof fn lemma_well_formed_nodes_have_leaf(ns: Seq<LayoutNode>)
    requires
        ns.len() > 0,
        forall|i: int| 0 <= i < ns.len() ==> well_formed(#[trigger] ns[i]),
    ensures
        flatten_nodes(ns).len() >= 1,
    decreases ns,
{
    lemma_well_formed_has_leaf(ns[0]);
}

/// A tree that is a single leaf flattens to exactly that leaf.
pub proof fn lemma_flatten_leaf(c: Container)
    ensures
        flatten_node(LayoutNode::Leaf(c)) == seq![c],
{
}

/// Flattening keeps the order at every level: an inner node's leaves are
/// its regular children's leaves followed by its floating children's.
pub proof fn lemma_flatten_order(children: Vec<LayoutNode>, floating: Vec<LayoutNode>)
    ensures
        flatten_node(LayoutNode::Branch { children, floating }) == flatten_nodes(children@)
            + flatten_nodes(floating@),
{
}

/// Sibling lists flatten left to right: the leaves of `a + b` are the
/// leaves of `a` followed by the leaves of `b`.
pub proof fn lemma_flatten_nodes_concat(a: Seq<LayoutNode>, b: Seq<LayoutNode>)
    ensures
        flatten_nodes(a + b) == flatten_nodes(a) + flatten_nodes(b),
    decreases a,
{
    if a.len() == 0 {
        assert(a + b =~= b);
        assert(flatten_nodes(a) + flatten_nodes(b) =~= flatten_nodes(b));
    } else {
        assert((a + b).drop_first() =~= a.drop_first() + b);
        lemma_flatten_nodes_concat(a.drop_first(), b);
        assert((a + b)[0] == a[0]);
        assert(flatten_nodes(a + b) =~= flatten_nodes(a) + flatten_nodes(b));
    }
}

/// The leaf containers of the snapshot rooted at `n`, in depth-first
/// order, regular children before floating children, left to right.
pub fn flatten(n: LayoutNode) -> (r: Vec<Container>)
    ensures
        r@ == flatten_node(n),
    decreases n,
{
    match n {
        LayoutNode::Leaf(c) => {
            let mut r: Vec<Container> = Vec::new();
            r.push(c);
            r
        },
        LayoutNode::Branch { children, floating } => {
            let mut r = flatten_list(children);
            let mut f = flatten_list(floating);
            r.append(&mut f);
            r
        },
    }
}

/// The leaf containers of a list of sibling nodes, left to right.
pub fn flatten_list(ns: Vec<LayoutNode>) -> (r: Vec<Container>)
    ensures
        r@ == flatten_nodes(ns@),
    decreases ns@,
{
    let ghost ns0 = ns@;
    let mut ns = ns;
    if ns.len() == 0 {
        Vec::new()
    } else {
        let first = ns.remove(0);
        proof {
            assert(first == ns0[0]);
            assert(ns@ =~= ns0.drop_first());
        }
        let mut r = flatten(first);
        let mut rest = flatten_list(ns);
        r.append(&mut rest);
        r
    }
}

} // verus!

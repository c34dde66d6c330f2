//! The search tree of the trapezoidal map. Its leaves are the regions of the
//! map; each branch divides what lies below it in the tree by a vertex or an
//! edge of the polygon, into what is above that and what is below.

use crate::trapezoidation::{Edge, Trapezoid, Vertex};
use vstd::prelude::*;

verus! {

/// The place of a node in its tree.
#[derive(Clone, Copy, Debug, PartialEq, Eq, Hash, Structural)]
pub struct NodeId {
    pub index: usize,
}

/// On which side of its parent a node hangs.
#[derive(Clone, Copy, Debug, PartialEq, Eq, Hash, Structural)]
pub enum Relation {
    Above,
    Below,
}

/// What a branch divides by.
#[derive(Clone, Copy, Debug, PartialEq, Eq, Hash, Structural)]
pub enum Branch {
    Edge(Edge),
    Vertex(Vertex),
}

/// A node of the tree.
#[derive(Clone, Copy, Debug, PartialEq, Eq, Structural)]
pub enum Node {
    Leaf { parent: Option<NodeId>, leaf: Trapezoid },
    Branch { parent: Option<NodeId>, above: NodeId, below: NodeId, branch: Branch },
}

impl Node {
    /// The node that this one hangs from, if any.
    pub open spec fn parent(self) -> Option<NodeId> {
        match self {
            Node::Leaf { parent, .. } => parent,
            Node::Branch { parent, .. } => parent,
        }
    }

    /// Whether node `i` hangs from this one.
    pub open spec fn has_child(self, i: int) -> bool {
        match self {
            Node::Leaf { .. } => false,
            Node::Branch { above, below, .. } => above.index == i || below.index == i,
        }
    }

    /// This node with `to` hanging where `from` hung.
    pub open spec fn relinked(self, from: NodeId, to: NodeId) -> Node {
        match self {
            Node::Leaf { .. } => self,
            Node::Branch { parent, above, below, branch } => if above == from {
                Node::Branch { parent, above: to, below, branch }
            } else if below == from {
                Node::Branch { parent, above, below: to, branch }
            } else {
                self
            },
        }
    }
}

/// Whether parents and children agree in `nodes`: each node that names a
/// parent is a child of that parent, on one side of it, and the two children
/// of each branch are two nodes that name it as their parent.
pub open spec fn linked(nodes: Seq<Node>) -> bool {
    &&& forall|i: int| 0 <= i < nodes.len() ==> #[trigger] parent_agrees(nodes, i)
    &&& forall|i: int| 0 <= i < nodes.len() ==> #[trigger] children_agree(nodes, i)
}

/// Whether node `i` of `nodes`, if it names a parent, is a child of that
/// parent.
pub open spec fn parent_agrees(nodes: Seq<Node>, i: int) -> bool {
    match nodes[i].parent() {
        Some(p) => p.index < nodes.len() && nodes[p.index as int].has_child(i),
        None => true,
    }
}

/// Whether node `i` of `nodes`, if it is a branch, has two different
/// children that name it as their parent.
pub open spec fn children_agree(nodes: Seq<Node>, i: int) -> bool {
    match nodes[i] {
        Node::Leaf { .. } => true,
        Node::Branch { above, below, .. } => {
            &&& above.index < nodes.len()
            &&& below.index < nodes.len()
            &&& above != below
            &&& nodes[above.index as int].parent() == Some(NodeId { index: i as usize })
            &&& nodes[below.index as int].parent() == Some(NodeId { index: i as usize })
        },
    }
}

/// Whether `id` names a leaf of `nodes`.
pub open spec fn is_leaf(nodes: Seq<Node>, id: NodeId) -> bool {
    id.index < nodes.len() && nodes[id.index as int] is Leaf
}

/// `nodes` after the leaf `at` was split by `with`: a new leaf and a new
/// branch are added, in that order; the branch hangs where the leaf hung,
/// from the same parent and on the same side; above it hangs the old leaf,
/// below it the new one.
pub open spec fn split_nodes(nodes: Seq<Node>, at: NodeId, with: Branch) -> Seq<Node> {
    let leaf_id = NodeId { index: nodes.len() as usize };
    let branch_id = NodeId { index: (nodes.len() + 1) as usize };
    let old_parent = nodes[at.index as int].parent();
    let grown = nodes.push(Node::Leaf { parent: Some(branch_id), leaf: Trapezoid {  } }).push(
        Node::Branch { parent: old_parent, above: at, below: leaf_id, branch: with },
    ).update(at.index as int, Node::Leaf { parent: Some(branch_id), leaf: Trapezoid {  } });
    match old_parent {
        Some(p) => grown.update(p.index as int, nodes[p.index as int].relinked(at, branch_id)),
        None => grown,
    }
}

/// The leaves among the first `n` of `nodes`, in order.
pub open spec fn leaf_ids(nodes: Seq<Node>, n: nat) -> Seq<NodeId>
    decreases n,
{
    if n == 0 {
        Seq::empty()
    } else {
        let before = leaf_ids(nodes, (n - 1) as nat);
        if nodes[n - 1] is Leaf {
            before.push(NodeId { index: (n - 1) as usize })
        } else {
            before
        }
    }
}

/// Splitting a leaf keeps parents and children in agreement.
pub proof fn lemma_split_keeps_links(nodes: Seq<Node>, at: NodeId, with: Branch)
    requires
        linked(nodes),
        is_leaf(nodes, at),
        nodes.len() + 2 <= usize::MAX,
    ensures
        linked(split_nodes(nodes, at, with)),
        split_nodes(nodes, at, with).len() == nodes.len() + 2,
{
    let after = split_nodes(nodes, at, with);
    let n = nodes.len() as int;
    let branch_id = NodeId { index: (n + 1) as usize };
    let old_parent = nodes[at.index as int].parent();
    assert(parent_agrees(nodes, at.index as int));
    assert(after.len() == n + 2);
    assert(after[n] == Node::Leaf { parent: Some(branch_id), leaf: Trapezoid {  } });
    assert(after[at.index as int] == Node::Leaf { parent: Some(branch_id), leaf: Trapezoid {  } });
    assert(after[n + 1] is Branch);
    assert forall|i: int| 0 <= i < n && i != at.index implies (#[trigger] after[i]).parent()
        == nodes[i].parent() && (nodes[i] is Leaf <==> after[i] is Leaf) by {}
    assert forall|i: int| 0 <= i < after.len() implies #[trigger] parent_agrees(after, i) by {
        if i == n || i == at.index || i == n + 1 {
        } else {
            assert(parent_agrees(nodes, i));
        }
    }
    assert forall|i: int| 0 <= i < after.len() implies #[trigger] children_agree(after, i) by {
        if i == n + 1 || i == n || i == at.index {
        } else {
            assert(children_agree(nodes, i));
            if nodes[i] is Branch {
                let above = nodes[i]->above;
                let below = nodes[i]->below;
                assert(above.index != at.index || old_parent == Some(NodeId { index: i as usize }));
                assert(below.index != at.index || old_parent == Some(NodeId { index: i as usize }));
            }
        }
    }
}

/// Two trees with leaves at the same places have the same leaves.
proof fn lemma_leaf_ids_agree(one: Seq<Node>, other: Seq<Node>, n: nat)
    requires
        n <= one.len(),
        n <= other.len(),
        forall|i: int| 0 <= i < n ==> ((#[trigger] one[i]) is Leaf <==> other[i] is Leaf),
    ensures
        leaf_ids(one, n) == leaf_ids(other, n),
    decreases n,
{
    if n > 0 {
        lemma_leaf_ids_agree(one, other, (n - 1) as nat);
        assert(one[n - 1] is Leaf <==> other[n - 1] is Leaf);
    }
}

/// Splitting a leaf adds one leaf to the tree, the new one, after all that
/// were there; those stay.
pub proof fn lemma_split_adds_one_leaf(nodes: Seq<Node>, at: NodeId, with: Branch)
    requires
        linked(nodes),
        is_leaf(nodes, at),
        nodes.len() + 2 <= usize::MAX,
    ensures
        leaf_ids(split_nodes(nodes, at, with), nodes.len() + 2) == leaf_ids(
            nodes,
            nodes.len(),
        ).push(NodeId { index: nodes.len() as usize }),
{
    let after = split_nodes(nodes, at, with);
    let n = nodes.len();
    lemma_split_keeps_links(nodes, at, with);
    assert(parent_agrees(nodes, at.index as int));
    assert forall|i: int| 0 <= i < n implies ((#[trigger] nodes[i]) is Leaf <==> after[i] is Leaf) by {}
    lemma_leaf_ids_agree(nodes, after, n);
    assert(after[n as int] is Leaf);
    assert(after[n as int + 1] is Branch);
    reveal_with_fuel(leaf_ids, 3);
}

/// The search tree.
pub struct Tree {
    nodes: Vec<Node>,
}

impl Tree {
    /// The nodes, each at the place that its id names.
    pub closed spec fn view(&self) -> Seq<Node> {
        self.nodes@
    }

    /// Parents and children agree.
    pub open spec fn wf(&self) -> bool {
        linked(self@)
    }

    /// A tree of one leaf, which is its root.
    pub fn new() -> (t: Tree)
        ensures
            t.wf(),
            t@ == seq![Node::Leaf { parent: None, leaf: Trapezoid {  } }],
    {
        let mut nodes: Vec<Node> = Vec::new();
        nodes.push(Node::Leaf { parent: None, leaf: Trapezoid {  } });
        let t = Tree { nodes };
        assert(t@ =~= seq![Node::Leaf { parent: None, leaf: Trapezoid {  } }]);
        t
    }

    /// Splits the leaf `split_at` by `split_with`: a new branch takes its
    /// place in the tree, with the leaf above it and a new leaf below it.
    /// Gives the branch; gives `None`, and changes nothing, where `split_at`
    /// is no leaf of the tree, or the tree is full.
    pub fn split(&mut self, split_at: NodeId, split_with: Branch) -> (r: Option<NodeId>)
        requires
            old(self).wf(),
        ensures
            final(self).wf(),
            match r {
                Some(id) => {
                    &&& is_leaf(old(self)@, split_at)
                    &&& id.index == old(self)@.len() + 1
                    &&& final(self)@ == split_nodes(old(self)@, split_at, split_with)
                },
                None => {
                    &&& !is_leaf(old(self)@, split_at) || old(self)@.len() + 2 > usize::MAX
                    &&& final(self)@ == old(self)@
                },
            },
    {
        let n = self.nodes.len();
        if split_at.index >= n || n >= usize::MAX - 1 {
            return None;
        }
        let old_leaf_parent = match self.nodes[split_at.index] {
            Node::Leaf { parent, .. } => parent,
            Node::Branch { .. } => {
                return None;
            },
        };
        let new_leaf_id = NodeId { index: n };
        let new_branch_id = NodeId { index: n + 1 };
        let ghost before = self.nodes@;

        self.nodes.push(Node::Leaf { parent: Some(new_branch_id), leaf: Trapezoid {  } });
        self.nodes.push(
            Node::Branch {
                parent: old_leaf_parent,
                above: split_at,
                below: new_leaf_id,
                branch: split_with,
            },
        );
        self.nodes.set(
            split_at.index,
            Node::Leaf { parent: Some(new_branch_id), leaf: Trapezoid {  } },
        );
        if let Some(parent_id) = old_leaf_parent {
            assert(parent_agrees(before, split_at.index as int));
            match self.nodes[parent_id.index] {
                Node::Branch { parent, above, below, branch } => {
                    if above == split_at {
                        self.nodes.set(
                            parent_id.index,
                            Node::Branch { parent, above: new_branch_id, below, branch },
                        );
                    } else {
                        self.nodes.set(
                            parent_id.index,
                            Node::Branch { parent, above, below: new_branch_id, branch },
                        );
                    }
                },
                Node::Leaf { .. } => {},
            }
        }
        proof {
            lemma_split_keeps_links(before, split_at, split_with);
            assert(self.nodes@ =~= split_nodes(before, split_at, split_with));
        }
        Some(new_branch_id)
    }

    /// The leaves of the tree, in the order of their ids.
    pub fn trapezoids(&self) -> (r: Vec<(NodeId, Trapezoid)>)
        ensures
            r@.len() == leaf_ids(self@, self@.len()).len(),
            forall|k: int|
                0 <= k < r@.len() ==> (#[trigger] r@[k]).0 == leaf_ids(self@, self@.len())[k],
    {
        let mut leafs: Vec<(NodeId, Trapezoid)> = Vec::new();
        let mut i: usize = 0;
        while i < self.nodes.len()
            invariant
                i <= self.nodes.len(),
                leafs@.len() == leaf_ids(self.nodes@, i as nat).len(),
                forall|k: int|
                    0 <= k < leafs@.len() ==> (#[trigger] leafs@[k]).0 == leaf_ids(
                        self.nodes@,
                        i as nat,
                    )[k],
            decreases self.nodes.len() - i,
        {
            match self.nodes[i] {
                Node::Leaf { leaf, .. } => {
                    leafs.push((NodeId { index: i }, leaf));
                },
                Node::Branch { .. } => {},
            }
            i += 1;
        }
        leafs
    }

    /// What node `id` hangs from, on which side of it, and what that node
    /// divides by. The side is `Above` where the parent names `id` as what
    /// hangs above it.
    pub open spec fn parent_link(nodes: Seq<Node>, id: NodeId) -> Option<(NodeId, Branch, Relation)> {
        if id.index < nodes.len() {
            match nodes[id.index as int].parent() {
                Some(p) => match nodes[p.index as int] {
                    Node::Branch { above, branch, .. } => Some(
                        (
                            p,
                            branch,
                            if above == id {
                                Relation::Above
                            } else {
                                Relation::Below
                            },
                        ),
                    ),
                    Node::Leaf { .. } => None,
                },
                None => None,
            }
        } else {
            None
        }
    }

    /// What node `id` hangs from, what that node divides by, and on which
    /// side of it `id` hangs; `None` for the root, and for an id that names
    /// no node of the tree.
    pub fn parent_of(&self, id: NodeId) -> (r: Option<(NodeId, Branch, Relation)>)
        requires
            self.wf(),
        ensures
            r == Self::parent_link(self@, id),
            r is Some <==> id.index < self@.len() && self@[id.index as int].parent() is Some,
    {
        if id.index >= self.nodes.len() {
            return None;
        }
        let parent_id = match self.nodes[id.index] {
            Node::Leaf { parent, .. } => parent,
            Node::Branch { parent, .. } => parent,
        };
        match parent_id {
            Some(parent_id) => {
                assert(parent_agrees(self.nodes@, id.index as int));
                match self.nodes[parent_id.index] {
                    Node::Branch { above, branch, .. } => {
                        let relation = if above == id {
                            Relation::Above
                        } else {
                            Relation::Below
                        };
                        Some((parent_id, branch, relation))
                    },
                    Node::Leaf { .. } => None,
                }
            },
            None => None,
        }
    }
}

/// After a split, the new branch hangs where the leaf hung: from the same
/// parent and on the same side of it, whichever side that was. The old leaf
/// hangs above the new branch and the new leaf below it.
pub proof fn lemma_split_takes_the_place(nodes: Seq<Node>, at: NodeId, with: Branch)
    requires
        linked(nodes),
        is_leaf(nodes, at),
        nodes.len() + 2 <= usize::MAX,
    ensures
        ({
            let after = split_nodes(nodes, at, with);
            let leaf_id = NodeId { index: nodes.len() as usize };
            let branch_id = NodeId { index: (nodes.len() + 1) as usize };
            &&& Tree::parent_link(after, branch_id) == Tree::parent_link(nodes, at)
            &&& Tree::parent_link(after, at) == Some((branch_id, with, Relation::Above))
            &&& Tree::parent_link(after, leaf_id) == Some((branch_id, with, Relation::Below))
        }),
{
    assert(parent_agrees(nodes, at.index as int));
    let old_parent = nodes[at.index as int].parent();
    if old_parent is Some {
        assert(children_agree(nodes, old_parent->0.index as int));
    }
}

} // verus!

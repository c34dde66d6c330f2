use brep_kernel::trapezoidation::tree::{Branch, NodeId, Relation, Tree};
use brep_kernel::trapezoidation::{Edge, Trapezoid, Vertex};

#[test]
fn vertex_with_high_y_should_be_higher_than_vertex_with_low_y() {
    let upper = Vertex::new(0, 1);
    let lower = Vertex::new(0, 0);

    assert!(upper.is_upper(&lower));
    assert!(lower.is_lower(&upper));
}

#[test]
fn vertex_with_equal_y_but_left_x_should_be_higher_than_right_x() {
    let upper = Vertex::new(0, 0);
    let lower = Vertex::new(1, 0);

    assert!(upper.is_upper(&lower));
    assert!(lower.is_lower(&upper));
}

#[test]
fn vertex_should_not_be_higher_or_lower_than_equal_vertex() {
    let vertex = Vertex::new(0, 0);

    assert_eq!(vertex.is_upper(&vertex), false);
    assert_eq!(vertex.is_lower(&vertex), false);
}

#[test]
fn lower_vertex_is_not_upper() {
    let upper = Vertex::new(5, 1);
    let lower = Vertex::new(-5, 0);

    assert!(!lower.is_upper(&upper));
    assert!(!upper.is_lower(&lower));
}

#[test]
fn trapezoids_are_all_alike() {
    assert_eq!(Trapezoid {}, Trapezoid {});
}

#[test]
fn tree_should_start_with_a_single_root_leaf() {
    let tree = Tree::new();

    let num_leafs = tree.trapezoids().len();
    assert_eq!(num_leafs, 1);
}

#[test]
fn tree_should_split_leafs() {
    let mut tree = Tree::new();
    let (root_id, _) = tree.trapezoids()[0];

    let new_node = Branch::Vertex(Vertex::new(0, 0));
    tree.split(root_id, new_node);

    let leafs: Vec<_> = tree.trapezoids();
    assert_eq!(leafs.len(), 2);

    // This is no longer the root, so let's update the variable name.
    let first_root_id = root_id;

    for (id, _) in leafs {
        let (_, parent, relation) = tree.parent_of(id).unwrap();

        assert_eq!(parent, new_node);

        if id == first_root_id {
            assert_eq!(relation, Relation::Above);
        } else {
            assert_eq!(relation, Relation::Below);
        }
    }

    // Make sure that the new branch node has the same parent as the
    // previous leaf node.

    let (leaf_id, _) = tree.trapezoids()[0];
    let (parent_id, _, _) = tree.parent_of(leaf_id).unwrap();
    let new_branch_id = tree.split(leaf_id, Branch::Vertex(Vertex::new(1, 1))).unwrap();
    let (new_parent_id, _, _) = tree.parent_of(new_branch_id).unwrap();

    assert_eq!(parent_id, new_parent_id);
}

#[test]
fn branch_takes_the_side_of_the_leaf_it_replaces() {
    let mut tree = Tree::new();
    let root = tree.trapezoids()[0].0;
    let first = Branch::Vertex(Vertex::new(0, 0));
    let first_branch = tree.split(root, first).unwrap();
    let lower_leaf = tree.trapezoids()[1].0;
    assert_eq!(tree.parent_of(lower_leaf), Some((first_branch, first, Relation::Below)));

    let second = Branch::Edge(Edge { a: Vertex::new(0, 0), b: Vertex::new(2, -2) });
    let second_branch = tree.split(lower_leaf, second).unwrap();

    assert_eq!(tree.parent_of(second_branch), Some((first_branch, first, Relation::Below)));
    assert_eq!(tree.parent_of(root), Some((first_branch, first, Relation::Above)));
    assert_eq!(tree.parent_of(lower_leaf), Some((second_branch, second, Relation::Above)));
    let leafs = tree.trapezoids();
    assert_eq!(leafs.len(), 3);
    assert_eq!(tree.parent_of(leafs[2].0), Some((second_branch, second, Relation::Below)));

    let third = Branch::Vertex(Vertex::new(9, 9));
    let third_branch = tree.split(root, third).unwrap();
    assert_eq!(tree.parent_of(third_branch), Some((first_branch, first, Relation::Above)));
    assert_eq!(tree.parent_of(second_branch), Some((first_branch, first, Relation::Below)));
    assert_eq!(tree.trapezoids().len(), 4);
}

#[test]
fn only_leaves_of_the_tree_can_be_split() {
    let mut tree = Tree::new();
    let root = tree.trapezoids()[0].0;
    let by = Branch::Vertex(Vertex::new(0, 0));
    let branch = tree.split(root, by).unwrap();

    assert_eq!(tree.split(branch, by), None);
    assert_eq!(tree.split(NodeId { index: 17 }, by), None);
    assert_eq!(tree.trapezoids().len(), 2);
}

#[test]
fn root_and_strangers_have_no_parent() {
    let mut tree = Tree::new();
    let root = tree.trapezoids()[0].0;
    assert_eq!(tree.parent_of(root), None);
    let branch = tree.split(root, Branch::Vertex(Vertex::new(0, 0))).unwrap();
    assert_eq!(tree.parent_of(branch), None);
    assert_eq!(tree.parent_of(NodeId { index: 17 }), None);
}

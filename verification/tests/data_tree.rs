use gdsave::data_tree::SaveTree;

#[test]
pub fn test_tree_creation() {
    let tree: SaveTree<u32> = SaveTree::new();
    assert!(tree.inner().is_empty());
}

#[test]
fn a_new_tree_has_no_selection() {
    let tree: SaveTree<u32> = SaveTree::new();
    assert_eq!(tree.get_selected_nodeid(), None);
    assert!(tree.get_selected_node().is_none());
    assert!(tree.can_add());
}

#[test]
fn test_tree_add_child() {
    let mut tree: SaveTree<u32> = SaveTree::new();
    tree.add_child_select("test".to_string(), Some(5));
    let id = tree.get_selected_nodeid().unwrap();
    let entry = tree.get_selected_node().unwrap();
    assert_eq!(entry.0, "test");
    assert_eq!(entry.1, Some(5));
    assert_eq!(tree.inner().get(id).unwrap().parent(), None);
    assert_eq!(tree.inner().count(), 1);
}

#[test]
fn children_go_under_the_selection_and_leave_it() {
    let mut tree: SaveTree<u32> = SaveTree::new();
    tree.add_child_select("parent".to_string(), None);
    let parent = tree.get_selected_nodeid().unwrap();
    tree.add_child("first".to_string(), Some(1), false);
    tree.add_child("second".to_string(), Some(2), true);
    assert_eq!(tree.get_selected_nodeid(), Some(parent));
    let children: Vec<usize> = parent.children(tree.inner()).map(|id| *tree.inner().get(id).unwrap().get()).collect();
    assert_eq!(children.len(), 2);
    for child in parent.children(tree.inner()) {
        assert_eq!(tree.inner().get(child).unwrap().parent(), Some(parent));
    }
    assert_eq!(tree.inner().count(), 3);
}

#[test]
fn children_keep_their_order_and_their_values() {
    let mut tree: SaveTree<u32> = SaveTree::new();
    tree.add_child_select("parent".to_string(), None);
    let parent = tree.get_selected_nodeid().unwrap();
    tree.add_child("same".to_string(), Some(1), false);
    tree.add_child("same".to_string(), Some(2), false);
    tree.add_child("other".to_string(), None, false);
    let mut seen = Vec::new();
    for child in parent.children(tree.inner()).collect::<Vec<_>>() {
        assert!(tree.select_node(child));
        let entry = tree.get_selected_node().unwrap();
        seen.push((entry.0.clone(), entry.1));
    }
    assert_eq!(
        seen,
        vec![("same".to_string(), Some(1)), ("same".to_string(), Some(2)), ("other".to_string(), None)]
    );
}

#[test]
fn without_a_selection_nodes_go_to_the_top() {
    let mut tree: SaveTree<u32> = SaveTree::new();
    tree.add_child("a".to_string(), Some(1), false);
    assert_eq!(tree.get_selected_nodeid(), None);
    tree.add_child("b".to_string(), Some(2), true);
    let b = tree.get_selected_nodeid().unwrap();
    assert_eq!(tree.get_selected_node().unwrap().0, "b");
    assert_eq!(tree.inner().get(b).unwrap().parent(), None);
    assert_eq!(tree.inner().count(), 2);
}

#[test]
fn add_child_select_moves_down() {
    let mut tree: SaveTree<&str> = SaveTree::new();
    tree.add_child_select("a".to_string(), Some("x"));
    let a = tree.get_selected_nodeid().unwrap();
    tree.add_child_select("b".to_string(), Some("y"));
    let b = tree.get_selected_nodeid().unwrap();
    assert_ne!(a, b);
    assert_eq!(tree.inner().get(b).unwrap().parent(), Some(a));
    assert_eq!(tree.get_selected_node().unwrap().1, Some("y"));
}

#[test]
fn select_parent_moves_up_and_stops_at_the_top() {
    let mut tree: SaveTree<u32> = SaveTree::new();
    assert!(!tree.select_parent());
    assert_eq!(tree.get_selected_nodeid(), None);
    tree.add_child_select("a".to_string(), None);
    let a = tree.get_selected_nodeid().unwrap();
    tree.add_child_select("b".to_string(), None);
    assert!(tree.select_parent());
    assert_eq!(tree.get_selected_nodeid(), Some(a));
    assert!(!tree.select_parent());
    assert_eq!(tree.get_selected_nodeid(), Some(a));
}

#[test]
fn select_of_a_node_that_is_not_there_changes_nothing() {
    let mut other: SaveTree<u32> = SaveTree::new();
    other.add_child_select("x".to_string(), None);
    other.add_child_select("y".to_string(), None);
    let foreign = other.get_selected_nodeid().unwrap();

    let mut tree: SaveTree<u32> = SaveTree::new();
    assert!(!tree.select_node(foreign));
    assert_eq!(tree.get_selected_nodeid(), None);
    tree.add_child_select("a".to_string(), None);
    let a = tree.get_selected_nodeid().unwrap();
    assert!(!tree.select_node(foreign));
    assert_eq!(tree.get_selected_nodeid(), Some(a));
}

#[test]
fn select_and_deselect() {
    let mut tree: SaveTree<u32> = SaveTree::new();
    tree.add_child_select("a".to_string(), Some(1));
    let a = tree.get_selected_nodeid().unwrap();
    tree.add_child_select("b".to_string(), Some(2));
    tree.deselect();
    assert_eq!(tree.get_selected_nodeid(), None);
    assert!(tree.get_selected_node().is_none());
    assert!(tree.select_node(a));
    assert_eq!(tree.get_selected_node().unwrap().1, Some(1));
    tree.deselect();
    tree.add_child("c".to_string(), Some(3), false);
    assert_eq!(tree.inner().count(), 3);
    assert_eq!(tree.inner().iter().filter(|node| node.parent().is_none()).count(), 2);
}

#[test]
fn a_child_is_found_by_its_name() {
    let mut tree: SaveTree<u32> = SaveTree::new();
    assert_eq!(tree.child_by_name("a"), None);
    tree.add_child("a".to_string(), Some(1), false);
    tree.add_child_select("b".to_string(), Some(2));
    let b = tree.get_selected_nodeid().unwrap();
    // Under b there is nothing yet; a and b stand at the top.
    assert_eq!(tree.child_by_name("a"), None);
    assert_eq!(tree.child_by_name("b"), None);
    tree.add_child("a".to_string(), Some(3), false);
    let inner_a = tree.child_by_name("a").unwrap();
    assert_eq!(tree.inner().get(inner_a).unwrap().parent(), Some(b));
    tree.deselect();
    let top_a = tree.child_by_name("a").unwrap();
    assert_ne!(top_a, inner_a);
    assert_eq!(tree.inner().get(top_a).unwrap().parent(), None);
    assert_eq!(tree.child_by_name("b"), Some(b));
    assert_eq!(tree.child_by_name("c"), None);
    assert_eq!(tree.child_by_name(""), None);
}

#[test]
fn of_two_children_with_one_name_the_last_is_found() {
    let mut tree: SaveTree<u32> = SaveTree::new();
    tree.add_child_select("parent".to_string(), None);
    let parent = tree.get_selected_nodeid().unwrap();
    tree.add_child("same".to_string(), Some(1), false);
    tree.add_child("other".to_string(), Some(2), false);
    tree.add_child("same".to_string(), Some(3), false);
    tree.add_child("last".to_string(), Some(4), false);
    let found = tree.child_by_name("same").unwrap();
    assert!(tree.select_node(found));
    assert_eq!(tree.get_selected_node().unwrap().1, Some(3));
    assert!(tree.select_parent());
    assert_eq!(tree.get_selected_nodeid(), Some(parent));
    // The first of the two is still a child of its parent.
    assert_eq!(parent.children(tree.inner()).count(), 4);
}

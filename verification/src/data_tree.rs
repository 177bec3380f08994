//! A tree of named values for the nested parts of a save.
//!
//! The shape of the tree is kept by an `indextree::Arena`, which hands out
//! an id for every node and knows every node's parent. The names and values
//! stand in a table beside it; a node of the arena holds the index of its
//! entry in that table. One node at most is selected at a time, and new
//! nodes go under the selected one.

use vstd::prelude::*;
use crate::text::str_eq;

verus! {

/// `indextree::Arena`: the store of the nodes. Nothing is known of what is
/// inside but what the functions below say.
#[verifier::external_type_specification]
#[verifier::external_body]
#[verifier::reject_recursive_types(T)]
pub struct ExArena<T>(indextree::Arena<T>);

/// `indextree::NodeId`: the id of a node in an arena.
#[verifier::external_type_specification]
#[verifier::external_body]
pub struct ExNodeId(indextree::NodeId);

/// The nodes of an arena that have not been removed: under each node's id,
/// what the node holds and the id of its parent.
pub uninterp spec fn arena_nodes(arena: indextree::Arena<usize>) -> Map<
    indextree::NodeId,
    (usize, Option<indextree::NodeId>),
>;

/// How many places for nodes an arena has made so far, in use or free.
pub uninterp spec fn arena_places(arena: indextree::Arena<usize>) -> nat;

/// `indextree::Arena::new`: an arena without nodes.
#[verifier::external_body]
fn arena_new() -> (arena: indextree::Arena<usize>)
    ensures
        arena_nodes(arena) =~= Map::empty(),
        arena_places(arena) == 0,
{
    indextree::Arena::new()
}

/// `indextree::Arena::new_node`: a new node without a parent, under an id
/// that no other node has. It takes a free place or makes one, and panics
/// only where the places cannot be counted any more.
#[verifier::external_body]
fn arena_new_node(arena: &mut indextree::Arena<usize>, data: usize) -> (id: indextree::NodeId)
    requires
        arena_places(*old(arena)) < usize::MAX,
    ensures
        !arena_nodes(*old(arena)).dom().contains(id),
        arena_nodes(*final(arena)) == arena_nodes(*old(arena)).insert(id, (data, None)),
        arena_places(*final(arena)) <= arena_places(*old(arena)) + 1,
{
    arena.new_node(data)
}

/// `indextree::NodeId::append_value`: a new node as the last child of
/// `parent`, under an id that no other node has. It panics where `parent`
/// has been removed, or where the places cannot be counted any more.
#[verifier::external_body]
fn arena_append_value(
    arena: &mut indextree::Arena<usize>,
    parent: indextree::NodeId,
    data: usize,
) -> (id: indextree::NodeId)
    requires
        arena_nodes(*old(arena)).dom().contains(parent),
        arena_places(*old(arena)) < usize::MAX,
    ensures
        !arena_nodes(*old(arena)).dom().contains(id),
        arena_nodes(*final(arena)) == arena_nodes(*old(arena)).insert(id, (data, Some(parent))),
        arena_places(*final(arena)) <= arena_places(*old(arena)) + 1,
{
    parent.append_value(data, arena)
}

/// `indextree::Arena::get`: what the node under an id holds and the id of
/// its parent, or `None` where the arena has no such node.
#[verifier::external_body]
fn arena_get(arena: &indextree::Arena<usize>, id: indextree::NodeId) -> (node: Option<
    (usize, Option<indextree::NodeId>),
>)
    ensures
        match node {
            Some(found) => arena_nodes(*arena).dom().contains(id) && arena_nodes(*arena)[id]
                == found,
            None => !arena_nodes(*arena).dom().contains(id),
        },
{
    arena.get(id).and_then(|node| node.try_get().map(|data| (*data, node.parent())))
}

/// `==` of `indextree::NodeId`, which compares the ids part by part: two
/// ids are equal exactly where they are the same id.
#[verifier::external_body]
fn same_id(a: indextree::NodeId, b: indextree::NodeId) -> (same: bool)
    ensures
        same == (a == b),
{
    a == b
}

/// A name with a value, or without one.
#[derive(Debug, Clone, PartialEq)]
pub struct KeyValue<T>(pub String, pub Option<T>);

/// What the table holds for one node: the name and the value, and beside
/// them the node's id and the id of its parent.
struct Entry<T> {
    content: KeyValue<T>,
    id: indextree::NodeId,
    parent: Option<indextree::NodeId>,
}

/// One node of the tree, as a mathematical value.
pub struct TreeNode<T> {
    pub name: Seq<char>,
    pub value: Option<T>,
    /// The node that this one stands under, or `None` at the top.
    pub parent: Option<indextree::NodeId>,
}

/// The mathematical value of a [`SaveTree`]: its nodes under their ids, the
/// ids in the order in which the nodes were added, and the selection.
pub struct SaveTreeView<T> {
    pub nodes: Map<indextree::NodeId, TreeNode<T>>,
    pub order: Seq<indextree::NodeId>,
    pub selected: Option<indextree::NodeId>,
}

impl<T> SaveTreeView<T> {
    /// Whether the node under `id` is a child of `parent`, or with `None` a
    /// node at the top, and has the given name.
    pub open spec fn is_child_named(
        self,
        id: indextree::NodeId,
        parent: Option<indextree::NodeId>,
        name: Seq<char>,
    ) -> bool {
        self.nodes[id].parent == parent && self.nodes[id].name == name
    }

    /// Among the first `count` nodes that were added, the last child of
    /// `parent` that has the given name.
    pub open spec fn last_child_named(
        self,
        parent: Option<indextree::NodeId>,
        name: Seq<char>,
        count: int,
    ) -> Option<indextree::NodeId>
        decreases count,
    {
        if count <= 0 {
            None
        } else if self.is_child_named(self.order[count - 1], parent, name) {
            Some(self.order[count - 1])
        } else {
            self.last_child_named(parent, name, count - 1)
        }
    }

    /// The child of the selected node that has the given name, or with no
    /// node selected the node at the top that has it. Where several have the
    /// name, the one that was added last.
    pub open spec fn child_named(self, name: Seq<char>) -> Option<indextree::NodeId> {
        self.last_child_named(self.selected, name, self.order.len() as int)
    }
}

/// A tree of named values.
///
/// A node can be selected, and children are then added to it. No node holds
/// a reference to another: the tree alone owns them all, and they are
/// reached by their ids.
pub struct SaveTree<T> {
    /// The shape of the tree. Every node holds the index of its entry.
    root: indextree::Arena<usize>,
    /// The names and values of the nodes, in the order in which the nodes
    /// were added.
    entries: Vec<Entry<T>>,
    /// The currently selected node, if there is one.
    selected_node: Option<indextree::NodeId>,
}

impl<T> SaveTree<T> {
    /// The tree as a mathematical value.
    pub closed spec fn view(&self) -> SaveTreeView<T> {
        SaveTreeView {
            nodes: Map::new(
                |id: indextree::NodeId| arena_nodes(self.root).dom().contains(id),
                |id: indextree::NodeId|
                    TreeNode {
                        name: self.entries[arena_nodes(self.root)[id].0 as int].content.0@,
                        value: self.entries[arena_nodes(self.root)[id].0 as int].content.1,
                        parent: arena_nodes(self.root)[id].1,
                    },
            ),
            order: Seq::new(self.entries.len() as nat, |i: int| self.entries[i].id),
            selected: self.selected_node,
        }
    }

    /// The arena that holds the shape of the tree.
    pub closed spec fn shape(&self) -> indextree::Arena<usize> {
        self.root
    }

    /// The tree is whole: every node has an entry, and the selection and
    /// every parent are nodes of the tree.
    pub closed spec fn wf(&self) -> bool {
        &&& arena_places(self.root) <= self.entries.len()
        &&& forall|id: indextree::NodeId| #[trigger]
            arena_nodes(self.root).dom().contains(id) ==> {
                &&& arena_nodes(self.root)[id].0 < self.entries.len()
                &&& self.entries[arena_nodes(self.root)[id].0 as int].id == id
                &&& arena_nodes(self.root)[id].1 matches Some(parent) ==> arena_nodes(
                    self.root,
                ).dom().contains(parent)
            }
        &&& forall|i: int|
            0 <= i < self.entries.len() ==> {
                &&& arena_nodes(self.root).dom().contains(#[trigger] self.entries[i].id)
                &&& arena_nodes(self.root)[self.entries[i].id] == (
                    i as usize,
                    self.entries[i].parent,
                )
            }
        &&& self.selected_node matches Some(id) ==> arena_nodes(self.root).dom().contains(id)
    }

    /// Whether the tree has room for one node more.
    pub closed spec fn has_room(&self) -> bool {
        self.entries.len() < usize::MAX
    }

    /// In a whole tree the selection and every parent are nodes of the
    /// tree, and the order of adding holds every node once.
    pub proof fn lemma_wf(&self)
        requires
            self.wf(),
        ensures
            self@.selected matches Some(id) ==> self@.nodes.dom().contains(id),
            forall|id: indextree::NodeId| #[trigger]
                self@.nodes.dom().contains(id) ==> (self@.nodes[id].parent matches Some(parent)
                    ==> self@.nodes.dom().contains(parent)),
            forall|id: indextree::NodeId| #[trigger]
                self@.nodes.dom().contains(id) <==> self@.order.contains(id),
            self@.order.no_duplicates(),
    {
        assert forall|id: indextree::NodeId| #[trigger]
            self@.nodes.dom().contains(id) implies self@.order.contains(id) by {
            assert(self@.order[arena_nodes(self.root)[id].0 as int] == id);
        }
    }

    /// A tree without nodes and without a selection.
    pub fn new() -> (tree: SaveTree<T>)
        ensures
            tree.wf(),
            tree@.nodes =~= Map::empty(),
            tree@.order =~= Seq::empty(),
            tree@.selected is None,
    {
        SaveTree { root: arena_new(), entries: Vec::new(), selected_node: None }
    }

    /// Whether the tree has room for one node more.
    pub fn can_add(&self) -> (room: bool)
        ensures
            room == self.has_room(),
    {
        self.entries.len() < usize::MAX
    }

    /// Adds a node under the selected node, or at the top, and leaves the
    /// selection where it is.
    fn attach(&mut self, name: String, value: Option<T>) -> (id: indextree::NodeId)
        requires
            old(self).wf(),
            old(self).has_room(),
        ensures
            final(self).wf(),
            !old(self)@.nodes.dom().contains(id),
            final(self)@.nodes == old(self)@.nodes.insert(
                id,
                TreeNode { name: name@, value: value, parent: old(self)@.selected },
            ),
            final(self)@.order == old(self)@.order.push(id),
            final(self)@.selected == old(self)@.selected,
            arena_nodes(final(self).root).dom().contains(id),
    {
        let index = self.entries.len();
        let id = match self.selected_node {
            Some(selected) => arena_append_value(&mut self.root, selected, index),
            None => arena_new_node(&mut self.root, index),
        };
        self.entries.push(Entry { content: KeyValue(name, value), id, parent: self.selected_node });
        id
    }

    /// Adds a child to the currently selected node, or a node at the top if
    /// there is no selected node. The selection stays where it is, but for
    /// one case: with no node selected and `select` set, the new node is
    /// selected.
    pub fn add_child(&mut self, name: String, value: Option<T>, select: bool)
        requires
            old(self).wf(),
            old(self).has_room(),
        ensures
            final(self).wf(),
            exists|id: indextree::NodeId|
                {
                    &&& !old(self)@.nodes.dom().contains(id)
                    &&& #[trigger] final(self)@.nodes == old(self)@.nodes.insert(
                        id,
                        TreeNode { name: name@, value: value, parent: old(self)@.selected },
                    )
                    &&& final(self)@.order == old(self)@.order.push(id)
                    &&& final(self)@.selected == if old(self)@.selected is None && select {
                        Some(id)
                    } else {
                        old(self)@.selected
                    }
                },
    {
        let id = self.attach(name, value);
        if select && self.selected_node.is_none() {
            self.selected_node = Some(id);
        }
    }

    /// Adds a child to the currently selected node, or a node at the top if
    /// there is no selected node. Selects the new node.
    pub fn add_child_select(&mut self, name: String, value: Option<T>)
        requires
            old(self).wf(),
            old(self).has_room(),
        ensures
            final(self).wf(),
            exists|id: indextree::NodeId|
                {
                    &&& !old(self)@.nodes.dom().contains(id)
                    &&& #[trigger] final(self)@.nodes == old(self)@.nodes.insert(
                        id,
                        TreeNode { name: name@, value: value, parent: old(self)@.selected },
                    )
                    &&& final(self)@.order == old(self)@.order.push(id)
                    &&& final(self)@.selected == Some(id)
                },
    {
        let id = self.attach(name, value);
        self.selected_node = Some(id);
    }

    /// Selects a node, if it exists.
    /// Returns true if the node exists and was selected, false otherwise.
    pub fn select_node(&mut self, node: indextree::NodeId) -> (found: bool)
        requires
            old(self).wf(),
        ensures
            final(self).wf(),
            found == old(self)@.nodes.dom().contains(node),
            final(self)@.nodes == old(self)@.nodes,
            final(self)@.order == old(self)@.order,
            final(self)@.selected == if found {
                Some(node)
            } else {
                old(self)@.selected
            },
    {
        if arena_get(&self.root, node).is_some() {
            self.selected_node = Some(node);
            true
        } else {
            false
        }
    }

    /// Returns the id of the selected node, if there is one.
    pub fn get_selected_nodeid(&self) -> (selected: Option<indextree::NodeId>)
        ensures
            selected == self@.selected,
    {
        self.selected_node
    }

    /// Returns the name and the value of the selected node, if there is
    /// one.
    pub fn get_selected_node(&self) -> (entry: Option<&KeyValue<T>>)
        requires
            self.wf(),
        ensures
            match (self@.selected, entry) {
                (Some(id), Some(entry)) => entry.0@ == self@.nodes[id].name && entry.1
                    == self@.nodes[id].value,
                (None, None) => true,
                _ => false,
            },
    {
        match self.selected_node {
            Some(selected) => match arena_get(&self.root, selected) {
                Some(found) => Some(&self.entries[found.0].content),
                None => None,
            },
            None => None,
        }
    }

    /// Looks a child of the selected node up by its name, or with no node
    /// selected a node at the top. Where several have the name, the one
    /// that was added last is found.
    pub fn child_by_name(&self, name: &str) -> (found: Option<indextree::NodeId>)
        requires
            self.wf(),
        ensures
            found == self@.child_named(name@),
    {
        let mut i: usize = self.entries.len();
        while i > 0
            invariant
                self.wf(),
                i <= self.entries.len(),
                self@.child_named(name@) == self@.last_child_named(
                    self@.selected,
                    name@,
                    i as int,
                ),
            decreases i,
        {
            let entry = &self.entries[i - 1];
            let under = match (entry.parent, self.selected_node) {
                (Some(parent), Some(selected)) => same_id(parent, selected),
                (None, None) => true,
                _ => false,
            };
            if under && str_eq(entry.content.0.as_str(), name) {
                return Some(entry.id);
            }
            i -= 1;
        }
        None
    }

    /// Deselects the currently selected node.
    pub fn deselect(&mut self)
        requires
            old(self).wf(),
        ensures
            final(self).wf(),
            final(self)@.nodes == old(self)@.nodes,
            final(self)@.order == old(self)@.order,
            final(self)@.selected is None,
    {
        self.selected_node = None;
    }

    /// Selects the parent of the currently selected node, if there is one.
    /// Returns whether the selection moved: with no node selected, or with
    /// a node at the top selected, nothing changes.
    pub fn select_parent(&mut self) -> (moved: bool)
        requires
            old(self).wf(),
        ensures
            final(self).wf(),
            final(self)@.nodes == old(self)@.nodes,
            final(self)@.order == old(self)@.order,
            final(self)@.selected == match old(self)@.selected {
                Some(id) => match old(self)@.nodes[id].parent {
                    Some(parent) => Some(parent),
                    None => Some(id),
                },
                None => None,
            },
            moved == (old(self)@.selected matches Some(id) && old(self)@.nodes[id].parent is Some),
    {
        if let Some(selected) = self.selected_node {
            if let Some(found) = arena_get(&self.root, selected) {
                if let Some(parent) = found.1 {
                    self.selected_node = Some(parent);
                    return true;
                }
            }
        }
        false
    }

    /// Returns a reference to the inner `Arena` of the tree, which holds
    /// its shape: the nodes of the tree under their ids, each with its
    /// parent.
    pub fn inner(&self) -> (arena: &indextree::Arena<usize>)
        ensures
            *arena == self.shape(),
            arena_nodes(*arena).dom() == self@.nodes.dom(),
            forall|id: indextree::NodeId| #[trigger]
                self@.nodes.dom().contains(id) ==> arena_nodes(*arena)[id].1
                    == self@.nodes[id].parent,
    {
        assert(arena_nodes(self.root).dom() =~= self@.nodes.dom());
        &self.root
    }
}

} // verus!

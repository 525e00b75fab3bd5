//! The node table: nodes keyed by unique name, kept in the order in which
//! their names were first inserted. Nothing removes a node.

use vstd::prelude::*;
use crate::clock::{is_overdue, overdue};
use crate::node::{Node, NodeView};
use crate::table::{first_index, lemma_first_index, lemma_first_index_is};
use crate::task_list::LookupError;

verus! {

/// No two records carry the same name.
pub open spec fn names_unique(nodes: Seq<NodeView>) -> bool {
    forall|i: int, j: int|
        0 <= i < j < nodes.len() ==> (#[trigger] nodes[i]).name != (#[trigger] nodes[j]).name
}

/// Index of the record named `name`, or the length of `nodes` where there
/// is none.
pub open spec fn position(nodes: Seq<NodeView>, name: Seq<char>) -> int {
    first_index(nodes, |n: NodeView| n.name == name)
}

/// The record named `name`, if the table holds one.
pub open spec fn lookup(nodes: Seq<NodeView>, name: Seq<char>) -> Option<NodeView> {
    let p = position(nodes, name);
    if p < nodes.len() {
        Some(nodes[p])
    } else {
        None
    }
}

/// The table after `node` was inserted: in the place of the record of the
/// same name where there is one, else at the end.
pub open spec fn inserted(nodes: Seq<NodeView>, node: NodeView) -> Seq<NodeView> {
    let p = position(nodes, node.name);
    if p < nodes.len() {
        nodes.update(p, node)
    } else {
        nodes.push(node)
    }
}

/// The table after the record named `name`, if any, was replaced by
/// `change` applied to it.
pub open spec fn changed(
    nodes: Seq<NodeView>,
    name: Seq<char>,
    change: spec_fn(NodeView) -> NodeView,
) -> Seq<NodeView> {
    let p = position(nodes, name);
    if p < nodes.len() {
        nodes.update(p, change(nodes[p]))
    } else {
        nodes
    }
}

/// The table after the node named `name` reported in at the time `now`:
/// type, function and slave id are set, the node is active and was last
/// seen at `now`.
pub open spec fn refreshed(
    nodes: Seq<NodeView>,
    name: Seq<char>,
    node_type: Seq<char>,
    node_function: Seq<char>,
    slave_id: Seq<char>,
    now: i64,
) -> Seq<NodeView> {
    changed(
        nodes,
        name,
        |n: NodeView|
            NodeView {
                node_type: node_type,
                node_function: node_function,
                slave_id: slave_id,
                active: true,
                last_seen: now,
                ..n
            },
    )
}

/// The table after the node named `name` was marked inactive.
pub open spec fn deactivated(nodes: Seq<NodeView>, name: Seq<char>) -> Seq<NodeView> {
    changed(nodes, name, |n: NodeView| NodeView { active: false, ..n })
}

/// Whether `node` is active and was last seen more than `timeout` seconds
/// before `now`.
pub open spec fn is_stale(node: NodeView, timeout: i64, now: i64) -> bool {
    node.active && is_overdue(node.last_seen, timeout, now)
}

/// `node`, inactive where it is stale.
pub open spec fn retired_node(node: NodeView, timeout: i64, now: i64) -> NodeView {
    if is_stale(node, timeout, now) {
        NodeView { active: false, ..node }
    } else {
        node
    }
}

/// The table after every stale node was marked inactive.
pub open spec fn retired(nodes: Seq<NodeView>, timeout: i64, now: i64) -> Seq<NodeView> {
    Seq::new(nodes.len(), |i: int| retired_node(nodes[i], timeout, now))
}

/// The values of a sequence of nodes, in order.
pub open spec fn nodes_view(nodes: Seq<Node>) -> Seq<NodeView> {
    Seq::new(nodes.len(), |i: int| nodes[i]@)
}

/// The node table.
pub struct NodeList {
    nodes: Vec<Node>,
}

impl View for NodeList {
    type V = Seq<NodeView>;

    closed spec fn view(&self) -> Seq<NodeView> {
        nodes_view(self.nodes@)
    }
}

impl NodeList {
    /// The table's invariant: names are unique.
    pub open spec fn wf(&self) -> bool {
        names_unique(self@)
    }

    /// An empty table.
    pub fn new() -> (r: NodeList)
        ensures
            r.wf(),
            r@ == Seq::<NodeView>::empty(),
    {
        let r = NodeList { nodes: Vec::new() };
        assert(r@ =~= Seq::<NodeView>::empty());
        r
    }

    fn find(&self, name: &String) -> (i: usize)
        ensures
            i == position(self@, name@),
            i <= self.nodes@.len(),
            i < self.nodes@.len() ==> self.nodes@[i as int]@.name == name@,
    {
        let mut i: usize = 0;
        while i < self.nodes.len() && !(self.nodes[i].name == *name)
            invariant
                i <= self.nodes@.len(),
                forall|j: int| 0 <= j < i ==> (#[trigger] self@[j]).name != name@,
            decreases self.nodes@.len() - i,
        {
            i += 1;
        }
        proof {
            let pred = |n: NodeView| n.name == name@;
            assert forall|j: int| 0 <= j < i implies !pred(#[trigger] self@[j]) by {}
            lemma_first_index_is(self@, pred, i as int);
        }
        i
    }

    /// Inserts `node` under its name. A node of that name already in the
    /// table is replaced and keeps its place.
    pub fn add_new_node(&mut self, node: &Node)
        requires
            old(self).wf(),
        ensures
            final(self).wf(),
            final(self)@ == inserted(old(self)@, node@),
            lookup(final(self)@, node@.name) == Some(node@),
            forall|other: Seq<char>|
                other != node@.name ==> #[trigger] lookup(final(self)@, other) == lookup(
                    old(self)@,
                    other,
                ),
    {
        let i = self.find(&node.name);
        let copy = node.snapshot();
        if i < self.nodes.len() {
            self.nodes.set(i, copy);
        } else {
            self.nodes.push(copy);
        }
        proof {
            assert(self@ =~= inserted(old(self)@, node@));
            lemma_inserted(old(self)@, node@);
        }
    }

    /// Whether the node named `name` is active; false where there is none.
    pub fn is_node_active(&self, name: &String) -> (r: bool)
        ensures
            r == match lookup(self@, name@) {
                Some(node) => node.active,
                None => false,
            },
    {
        let i = self.find(name);
        if i < self.nodes.len() {
            self.nodes[i].active
        } else {
            false
        }
    }

    /// Records that the node named `name` reported in at the time `now`.
    /// Nothing changes where there is none.
    pub fn update_node(
        &mut self,
        name: &String,
        node_type: String,
        node_function: String,
        slave_id: String,
        now: i64,
    )
        requires
            old(self).wf(),
        ensures
            final(self).wf(),
            final(self)@ == refreshed(
                old(self)@,
                name@,
                node_type@,
                node_function@,
                slave_id@,
                now,
            ),
    {
        let i = self.find(name);
        let ghost change = |n: NodeView|
            NodeView {
                node_type: node_type@,
                node_function: node_function@,
                slave_id: slave_id@,
                active: true,
                last_seen: now,
                ..n
            };
        if i < self.nodes.len() {
            let mut node = self.nodes[i].snapshot();
            node.node_type = node_type;
            node.node_function = node_function;
            node.slave_id = slave_id;
            node.active = true;
            node.last_seen = now;
            self.nodes.set(i, node);
        }
        proof {
            assert(self@ =~= changed(old(self)@, name@, change));
            lemma_changed_keeps_names(old(self)@, name@, change);
        }
    }

    /// Marks the node named `name` inactive. Nothing changes where there
    /// is none.
    pub fn set_node_inactive(&mut self, name: &String)
        requires
            old(self).wf(),
        ensures
            final(self).wf(),
            final(self)@ == deactivated(old(self)@, name@),
    {
        let i = self.find(name);
        let ghost change = |n: NodeView| NodeView { active: false, ..n };
        if i < self.nodes.len() {
            let mut node = self.nodes[i].snapshot();
            node.active = false;
            self.nodes.set(i, node);
        }
        proof {
            assert(self@ =~= changed(old(self)@, name@, change));
            lemma_changed_keeps_names(old(self)@, name@, change);
        }
    }

    /// Marks every stale node inactive.
    pub fn deactivate_stale(&mut self, timeout: i64, now: i64)
        requires
            old(self).wf(),
        ensures
            final(self).wf(),
            final(self)@ == retired(old(self)@, timeout, now),
    {
        let mut i: usize = 0;
        while i < self.nodes.len()
            invariant
                i <= self.nodes@.len(),
                self@.len() == old(self)@.len(),
                self.nodes@.len() == old(self)@.len(),
                forall|j: int|
                    0 <= j < i ==> #[trigger] self@[j] == retired_node(old(self)@[j], timeout, now),
                forall|j: int| i <= j < self@.len() ==> #[trigger] self@[j] == old(self)@[j],
            decreases self.nodes@.len() - i,
        {
            let ghost before = self@;
            assert(before[i as int] == old(self)@[i as int]);
            assert(before[i as int] == self.nodes@[i as int]@);
            if self.nodes[i].active && overdue(self.nodes[i].last_seen, timeout, now) {
                let mut node = self.nodes[i].snapshot();
                node.active = false;
                self.nodes.set(i, node);
                assert(self@ =~= before.update(
                    i as int,
                    retired_node(old(self)@[i as int], timeout, now),
                ));
            }
            i += 1;
        }
        proof {
            assert(self@ =~= retired(old(self)@, timeout, now));
            lemma_same_names(old(self)@, self@);
        }
    }

    /// A copy of the node named `name`.
    pub fn get_node(&self, name: &String) -> (r: Result<Node, LookupError>)
        ensures
            match r {
                Ok(node) => lookup(self@, name@) == Some(node@),
                Err(e) => e == LookupError::NotFound && lookup(self@, name@).is_none(),
            },
    {
        let i = self.find(name);
        if i < self.nodes.len() {
            Ok(self.nodes[i].snapshot())
        } else {
            Err(LookupError::NotFound)
        }
    }

    /// Copies of all nodes, in table order.
    pub fn get_nodes(&self) -> (r: Vec<Node>)
        ensures
            nodes_view(r@) == self@,
    {
        let mut out: Vec<Node> = Vec::new();
        let mut i: usize = 0;
        while i < self.nodes.len()
            invariant
                i <= self.nodes@.len(),
                out@.len() == i,
                forall|j: int| 0 <= j < i ==> out@[j]@ == self.nodes@[j]@,
            decreases self.nodes@.len() - i,
        {
            out.push(self.nodes[i].snapshot());
            i += 1;
        }
        assert(nodes_view(out@) =~= self@);
        out
    }
}

/// After an insertion names are still unique, the inserted node is the
/// record of its name, and every other name has the record it had.
pub proof fn lemma_inserted(nodes: Seq<NodeView>, node: NodeView)
    requires
        names_unique(nodes),
    ensures
        names_unique(inserted(nodes, node)),
        lookup(inserted(nodes, node), node.name) == Some(node),
        forall|other: Seq<char>|
            other != node.name ==> #[trigger] lookup(inserted(nodes, node), other) == lookup(
                nodes,
                other,
            ),
{
    let after = inserted(nodes, node);
    let p = position(nodes, node.name);
    lemma_first_index(nodes, |n: NodeView| n.name == node.name);
    assert(names_unique(after)) by {
        assert forall|i: int, j: int| 0 <= i < j < after.len() implies (#[trigger] after[i]).name
            != (#[trigger] after[j]).name by {
            if p < nodes.len() {
                assert(after[i].name == nodes[i].name);
                assert(after[j].name == nodes[j].name);
            } else {
                if j < nodes.len() {
                } else {
                    assert(after[i] == nodes[i]);
                }
            }
        }
    }
    lemma_first_index_is(after, |n: NodeView| n.name == node.name, p);
    assert forall|other: Seq<char>| other != node.name implies #[trigger] lookup(after, other)
        == lookup(nodes, other) by {
        let pred = |n: NodeView| n.name == other;
        lemma_first_index(nodes, pred);
        let q = first_index(nodes, pred);
        if q < nodes.len() {
            assert(after[q] == nodes[q]);
            assert forall|j: int| 0 <= j < q implies !pred(#[trigger] after[j]) by {
                assert(after[j].name == nodes[j].name || after[j] == node);
            }
            lemma_first_index_is(after, pred, q);
        } else {
            assert forall|j: int| 0 <= j < after.len() implies !pred(#[trigger] after[j]) by {
                if j < nodes.len() {
                    assert(after[j].name == nodes[j].name || after[j] == node);
                }
            }
            lemma_first_index_is(after, pred, after.len() as int);
        }
    }
}

/// Two tables with the same names in the same places find every name in
/// the same place, and names are unique in both or in neither.
pub proof fn lemma_same_names(a: Seq<NodeView>, b: Seq<NodeView>)
    requires
        a.len() == b.len(),
        forall|i: int| 0 <= i < a.len() ==> (#[trigger] a[i]).name == b[i].name,
    ensures
        names_unique(a) ==> names_unique(b),
        forall|name: Seq<char>| #[trigger] position(b, name) == position(a, name),
{
    if names_unique(a) {
        assert forall|i: int, j: int| 0 <= i < j < b.len() implies (#[trigger] b[i]).name != (
        #[trigger] b[j]).name by {
            assert(a[i].name == b[i].name);
            assert(a[j].name == b[j].name);
        }
    }
    assert forall|name: Seq<char>| #[trigger] position(b, name) == position(a, name) by {
        let pred = |n: NodeView| n.name == name;
        lemma_first_index(a, pred);
        let q = first_index(a, pred);
        assert forall|j: int| 0 <= j < q implies !pred(#[trigger] b[j]) by {
            assert(a[j].name == b[j].name);
        }
        if q < a.len() {
            assert(a[q].name == b[q].name);
        }
        lemma_first_index_is(b, pred, q);
    }
}

/// A change that keeps the name of the record keeps every name in its
/// place, and so keeps names unique.
pub proof fn lemma_changed_keeps_names(
    nodes: Seq<NodeView>,
    name: Seq<char>,
    change: spec_fn(NodeView) -> NodeView,
)
    requires
        names_unique(nodes),
        forall|n: NodeView| (#[trigger] change(n)).name == n.name,
    ensures
        names_unique(changed(nodes, name, change)),
        changed(nodes, name, change).len() == nodes.len(),
        forall|i: int|
            0 <= i < nodes.len() ==> (#[trigger] changed(nodes, name, change)[i]).name
                == nodes[i].name,
        forall|other: Seq<char>| #[trigger]
            position(changed(nodes, name, change), other) == position(nodes, other),
{
    let after = changed(nodes, name, change);
    lemma_first_index(nodes, |n: NodeView| n.name == name);
    assert forall|i: int| 0 <= i < nodes.len() implies (#[trigger] after[i]).name
        == nodes[i].name by {}
    assert forall|i: int, j: int| 0 <= i < j < after.len() implies (#[trigger] after[i]).name != (
    #[trigger] after[j]).name by {
        assert(after[i].name == nodes[i].name);
        assert(after[j].name == nodes[j].name);
    }
    assert forall|other: Seq<char>| #[trigger]
        position(after, other) == position(nodes, other) by {
        let pred = |n: NodeView| n.name == other;
        lemma_first_index(nodes, pred);
        let q = first_index(nodes, pred);
        assert forall|j: int| 0 <= j < q implies !pred(#[trigger] after[j]) by {
            assert(after[j].name == nodes[j].name);
        }
        if q < nodes.len() {
            assert(after[q].name == nodes[q].name);
        }
        lemma_first_index_is(after, pred, q);
    }
}

} // verus!

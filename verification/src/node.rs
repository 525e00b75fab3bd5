//! Nodes: the physical hosts that run tasks.

use vstd::prelude::*;

verus! {

/// A node as the tables hold it. `last_seen` is in seconds since the Unix
/// epoch, UTC.
#[derive(Clone, Debug)]
pub struct Node {
    pub name: String,
    pub ip: String,
    pub external_ip: String,
    pub management_ip: String,
    pub node_type: String,
    pub node_function: String,
    pub active: bool,
    pub slave_id: String,
    pub port_id: i64,
    pub last_seen: i64,
}

/// Mathematical value of a [`Node`].
pub struct NodeView {
    pub name: Seq<char>,
    pub ip: Seq<char>,
    pub external_ip: Seq<char>,
    pub management_ip: Seq<char>,
    pub node_type: Seq<char>,
    pub node_function: Seq<char>,
    pub active: bool,
    pub slave_id: Seq<char>,
    pub port_id: i64,
    pub last_seen: i64,
}

impl View for Node {
    type V = NodeView;

    open spec fn view(&self) -> NodeView {
        NodeView {
            name: self.name@,
            ip: self.ip@,
            external_ip: self.external_ip@,
            management_ip: self.management_ip@,
            node_type: self.node_type@,
            node_function: self.node_function@,
            active: self.active,
            slave_id: self.slave_id@,
            port_id: self.port_id,
            last_seen: self.last_seen,
        }
    }
}

impl Node {
    /// A value copy of this node.
    pub fn snapshot(&self) -> (r: Node)
        ensures
            r@ == self@,
    {
        Node {
            name: self.name.clone(),
            ip: self.ip.clone(),
            external_ip: self.external_ip.clone(),
            management_ip: self.management_ip.clone(),
            node_type: self.node_type.clone(),
            node_function: self.node_function.clone(),
            active: self.active,
            slave_id: self.slave_id.clone(),
            port_id: self.port_id,
            last_seen: self.last_seen,
        }
    }
}

} // verus!

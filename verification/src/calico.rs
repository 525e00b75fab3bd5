//! Overlay network: the commands that set the overlay up on the slave
//! nodes, and those that take it down.

use vstd::prelude::*;
use vstd::string::StringExecFns;
use crate::node::{Node, NodeView};
use crate::node_list::nodes_view;
use crate::table::{first_index, lemma_first_index_is};

verus! {

/// Port on which the command executor of every node listens.
pub const DEFAULT_PORT: i16 = 8085;

/// A command for the executor of one node.
#[derive(Clone, Debug)]
pub struct Command {
    pub ip: String,
    pub port: i16,
    pub cmd: String,
    pub env: String,
}

/// Mathematical value of a [`Command`].
pub struct CommandView {
    pub ip: Seq<char>,
    pub port: i16,
    pub cmd: Seq<char>,
    pub env: Seq<char>,
}

impl View for Command {
    type V = CommandView;

    open spec fn view(&self) -> CommandView {
        CommandView { ip: self.ip@, port: self.port, cmd: self.cmd@, env: self.env@ }
    }
}

/// The values of a sequence of commands, in order.
pub open spec fn commands_view(commands: Seq<Command>) -> Seq<CommandView> {
    Seq::new(commands.len(), |i: int| commands[i]@)
}

/// Whether a node takes part in the overlay.
pub open spec fn is_slave(node: NodeView) -> bool {
    node.node_type == "slave"@
}

/// The variable that names the overlay's store.
pub open spec fn etcd_env() -> Seq<char> {
    "ETCD_AUTHORITY=etcd.service.torc:2379"@
}

/// A command for the node at `ip`, on the default port.
pub open spec fn command_for(ip: Seq<char>, cmd: Seq<char>, env: Seq<char>) -> CommandView {
    CommandView { ip: ip, port: DEFAULT_PORT, cmd: cmd, env: env }
}

/// What every slave runs to join the overlay.
pub open spec fn join_commands(node: NodeView) -> Seq<CommandView> {
    seq![command_for(node.ip, "/home/bladerunner/calicoctl node --libnetwork"@, etcd_env())]
}

/// What one slave runs to create the address pool and the network.
pub open spec fn create_commands(node: NodeView) -> Seq<CommandView> {
    seq![
        command_for(
            node.ip,
            "/home/bladerunner/calicoctl pool add 192.168.0.0/16 --nat-outgoing"@,
            etcd_env(),
        ),
        command_for(
            node.ip,
            "docker network create --driver calico --ipam-driver calico torc"@,
            Seq::empty(),
        ),
    ]
}

/// What every slave runs to leave the overlay.
pub open spec fn leave_commands(node: NodeView) -> Seq<CommandView> {
    seq![
        command_for(node.ip, "/home/bladerunner/calicoctl node stop"@, etcd_env()),
        command_for(
            node.ip,
            "/home/bladerunner/calicoctl node remove --remove-endpoints"@,
            etcd_env(),
        ),
    ]
}

/// What one slave runs to remove the address pool and the network.
pub open spec fn remove_commands(node: NodeView) -> Seq<CommandView> {
    seq![
        command_for(
            node.ip,
            "/home/bladerunner/calicoctl pool remove 192.168.0.0/16"@,
            etcd_env(),
        ),
        command_for(node.ip, "docker network rm torc"@, Seq::empty()),
    ]
}

/// The commands of every slave among `nodes`, in table order.
pub open spec fn on_every_slave(
    nodes: Seq<NodeView>,
    commands: spec_fn(NodeView) -> Seq<CommandView>,
) -> Seq<CommandView>
    decreases nodes.len(),
{
    if nodes.len() == 0 {
        Seq::empty()
    } else if is_slave(nodes.last()) {
        on_every_slave(nodes.drop_last(), commands) + commands(nodes.last())
    } else {
        on_every_slave(nodes.drop_last(), commands)
    }
}

/// The commands of the first slave among `nodes`; none where there is no
/// slave.
pub open spec fn on_first_slave(
    nodes: Seq<NodeView>,
    commands: spec_fn(NodeView) -> Seq<CommandView>,
) -> Seq<CommandView> {
    let p = first_index(nodes, |n: NodeView| is_slave(n));
    if p < nodes.len() {
        commands(nodes[p])
    } else {
        Seq::empty()
    }
}

/// Setting up: every slave joins, then the first slave creates the pool
/// and the network.
pub open spec fn configure_plan(nodes: Seq<NodeView>) -> Seq<CommandView> {
    on_every_slave(nodes, |n: NodeView| join_commands(n)) + on_first_slave(
        nodes,
        |n: NodeView| create_commands(n),
    )
}

/// Taking down: every slave leaves, then the first slave removes the pool
/// and the network.
pub open spec fn shutdown_plan(nodes: Seq<NodeView>) -> Seq<CommandView> {
    on_every_slave(nodes, |n: NodeView| leave_commands(n)) + on_first_slave(
        nodes,
        |n: NodeView| remove_commands(n),
    )
}

fn command(ip: &String, cmd: &str, env: &str) -> (r: Command)
    ensures
        r@ == command_for(ip@, cmd@, env@),
{
    Command {
        ip: ip.clone(),
        port: DEFAULT_PORT,
        cmd: String::from_str(cmd),
        env: String::from_str(env),
    }
}

fn slave(node: &Node) -> (r: bool)
    ensures
        r == is_slave(node@),
{
    node.node_type == String::from_str("slave")
}

fn first_slave(nodes: &Vec<Node>) -> (i: usize)
    ensures
        i == first_index(nodes_view(nodes@), |n: NodeView| is_slave(n)),
        i <= nodes@.len(),
{
    let mut i: usize = 0;
    while i < nodes.len() && !slave(&nodes[i])
        invariant
            i <= nodes@.len(),
            forall|j: int| 0 <= j < i ==> !is_slave(#[trigger] nodes_view(nodes@)[j]),
        decreases nodes@.len() - i,
    {
        i += 1;
    }
    proof {
        let pred = |n: NodeView| is_slave(n);
        assert forall|j: int| 0 <= j < i implies !pred(#[trigger] nodes_view(nodes@)[j]) by {}
        lemma_first_index_is(nodes_view(nodes@), pred, i as int);
    }
    i
}

/// The commands that set the overlay up on `nodes`, in the order in which
/// they are to be sent.
pub fn configure_network(nodes: &Vec<Node>) -> (r: Vec<Command>)
    ensures
        commands_view(r@) == configure_plan(nodes_view(nodes@)),
{
    let mut out: Vec<Command> = Vec::new();
    let ghost all = nodes_view(nodes@);
    let ghost join = |n: NodeView| join_commands(n);
    let mut i: usize = 0;
    proof {
        assert(all.take(0) =~= Seq::<NodeView>::empty());
        assert(commands_view(out@) =~= on_every_slave(all.take(0), join));
    }
    while i < nodes.len()
        invariant
            i <= nodes@.len(),
            all == nodes_view(nodes@),
            join == (|n: NodeView| join_commands(n)),
            commands_view(out@) == on_every_slave(all.take(i as int), join),
        decreases nodes@.len() - i,
    {
        proof {
            assert(all.take(i + 1).drop_last() =~= all.take(i as int));
            assert(all.take(i + 1).last() == nodes@[i as int]@);
        }
        let ghost before = commands_view(out@);
        if slave(&nodes[i]) {
            out.push(
                command(
                    &nodes[i].ip,
                    "/home/bladerunner/calicoctl node --libnetwork",
                    "ETCD_AUTHORITY=etcd.service.torc:2379",
                ),
            );
            assert(commands_view(out@) =~= before + join_commands(nodes@[i as int]@));
        }
        i += 1;
    }
    proof {
        assert(all.take(nodes@.len() as int) =~= all);
    }
    let ghost joined = commands_view(out@);
    let first = first_slave(nodes);
    if first < nodes.len() {
        out.push(
            command(
                &nodes[first].ip,
                "/home/bladerunner/calicoctl pool add 192.168.0.0/16 --nat-outgoing",
                "ETCD_AUTHORITY=etcd.service.torc:2379",
            ),
        );
        out.push(
            command(
                &nodes[first].ip,
                "docker network create --driver calico --ipam-driver calico torc",
                "",
            ),
        );
        proof {
            reveal_strlit("");
            assert(""@ =~= Seq::<char>::empty());
            assert(commands_view(out@) =~= joined + create_commands(nodes@[first as int]@));
        }
    } else {
        assert(commands_view(out@) =~= joined + Seq::<CommandView>::empty());
    }
    out
}

/// The commands that take the overlay down on `nodes`, in the order in
/// which they are to be sent.
pub fn shutdown_network(nodes: &Vec<Node>) -> (r: Vec<Command>)
    ensures
        commands_view(r@) == shutdown_plan(nodes_view(nodes@)),
{
    let mut out: Vec<Command> = Vec::new();
    let ghost all = nodes_view(nodes@);
    let ghost leave = |n: NodeView| leave_commands(n);
    let mut i: usize = 0;
    proof {
        assert(all.take(0) =~= Seq::<NodeView>::empty());
        assert(commands_view(out@) =~= on_every_slave(all.take(0), leave));
    }
    while i < nodes.len()
        invariant
            i <= nodes@.len(),
            all == nodes_view(nodes@),
            leave == (|n: NodeView| leave_commands(n)),
            commands_view(out@) == on_every_slave(all.take(i as int), leave),
        decreases nodes@.len() - i,
    {
        proof {
            assert(all.take(i + 1).drop_last() =~= all.take(i as int));
            assert(all.take(i + 1).last() == nodes@[i as int]@);
        }
        let ghost before = commands_view(out@);
        if slave(&nodes[i]) {
            out.push(
                command(
                    &nodes[i].ip,
                    "/home/bladerunner/calicoctl node stop",
                    "ETCD_AUTHORITY=etcd.service.torc:2379",
                ),
            );
            out.push(
                command(
                    &nodes[i].ip,
                    "/home/bladerunner/calicoctl node remove --remove-endpoints",
                    "ETCD_AUTHORITY=etcd.service.torc:2379",
                ),
            );
            assert(commands_view(out@) =~= before + leave_commands(nodes@[i as int]@));
        }
        i += 1;
    }
    proof {
        assert(all.take(nodes@.len() as int) =~= all);
    }
    let ghost left = commands_view(out@);
    let first = first_slave(nodes);
    if first < nodes.len() {
        out.push(
            command(
                &nodes[first].ip,
                "/home/bladerunner/calicoctl pool remove 192.168.0.0/16",
                "ETCD_AUTHORITY=etcd.service.torc:2379",
            ),
        );
        out.push(command(&nodes[first].ip, "docker network rm torc", ""));
        proof {
            reveal_strlit("");
            assert(""@ =~= Seq::<char>::empty());
            assert(commands_view(out@) =~= left + remove_commands(nodes@[first as int]@));
        }
    } else {
        assert(commands_view(out@) =~= left + Seq::<CommandView>::empty());
    }
    out
}

} // verus!

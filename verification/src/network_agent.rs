//! Routing agent: which command, if any, goes to which agent for a change
//! of the forwarding table.

use vstd::prelude::*;
use vstd::string::StringExecFns;
use crate::text::starts_with;

verus! {

/// The routing agents that are known.
#[derive(Clone, Copy, PartialEq, Eq, Structural, Debug)]
pub enum Agent {
    Fboss,
    Snaproute,
}

/// What a routing agent is asked to do.
#[derive(Clone, Copy, PartialEq, Eq, Structural, Debug)]
pub enum RouteOp {
    ResetFib,
    AddRoute,
    DeleteRoute,
}

/// A command for a routing agent. `route_to` is a host route, an address
/// followed by `/32`; it is empty for `ResetFib`, and `route_via` is empty
/// for all but `AddRoute`.
#[derive(Clone, Debug)]
pub struct RouteCommand {
    pub agent: Agent,
    pub op: RouteOp,
    pub connection: String,
    pub route_to: String,
    pub route_via: String,
}

/// Mathematical value of a [`RouteCommand`].
pub struct RouteCommandView {
    pub agent: Agent,
    pub op: RouteOp,
    pub connection: Seq<char>,
    pub route_to: Seq<char>,
    pub route_via: Seq<char>,
}

impl View for RouteCommand {
    type V = RouteCommandView;

    open spec fn view(&self) -> RouteCommandView {
        RouteCommandView {
            agent: self.agent,
            op: self.op,
            connection: self.connection@,
            route_to: self.route_to@,
            route_via: self.route_via@,
        }
    }
}

/// The value of an optional command.
pub open spec fn command_view(command: Option<RouteCommand>) -> Option<RouteCommandView> {
    match command {
        Some(c) => Some(c@),
        None => None,
    }
}

/// The values of a sequence of commands, in order.
pub open spec fn routes_view(commands: Seq<RouteCommand>) -> Seq<RouteCommandView> {
    Seq::new(commands.len(), |i: int| commands[i]@)
}

/// The command of a plan as a sequence: empty where the plan holds none.
pub open spec fn planned(plan: Option<RouteCommandView>) -> Seq<RouteCommandView> {
    match plan {
        Some(c) => seq![c],
        None => Seq::empty(),
    }
}

/// The agent that the configured type names, if it names one.
pub open spec fn agent_of(agent_type: Seq<char>) -> Option<Agent> {
    if agent_type == "fboss"@ {
        Some(Agent::Fboss)
    } else if agent_type == "snaproute"@ {
        Some(Agent::Snaproute)
    } else {
        None
    }
}

/// The host route to the address `to`.
pub open spec fn host_route(to: Seq<char>) -> Seq<char> {
    to + "/32"@
}

/// The command that clears all routes, for a known agent.
pub open spec fn reset_fib_plan(agent_type: Seq<char>, connection: Seq<char>) -> Option<
    RouteCommandView,
> {
    match agent_of(agent_type) {
        Some(agent) => Some(
            RouteCommandView {
                agent: agent,
                op: RouteOp::ResetFib,
                connection: connection,
                route_to: Seq::empty(),
                route_via: Seq::empty(),
            },
        ),
        None => None,
    }
}

/// The command that installs the host route to `route_to` via
/// `route_via`. There is none where `route_via` is empty, where
/// `connection` begins with `route_to`, or where the agent is unknown.
pub open spec fn add_route_plan(
    agent_type: Seq<char>,
    connection: Seq<char>,
    route_to: Seq<char>,
    route_via: Seq<char>,
) -> Option<RouteCommandView> {
    if route_via.len() == 0 || route_to.is_prefix_of(connection) {
        None
    } else {
        match agent_of(agent_type) {
            Some(agent) => Some(
                RouteCommandView {
                    agent: agent,
                    op: RouteOp::AddRoute,
                    connection: connection,
                    route_to: host_route(route_to),
                    route_via: route_via,
                },
            ),
            None => None,
        }
    }
}

/// The command that removes the host route to `route_to`. There is none
/// where `route_to` is empty or the agent is unknown.
pub open spec fn delete_route_plan(
    agent_type: Seq<char>,
    connection: Seq<char>,
    route_to: Seq<char>,
) -> Option<RouteCommandView> {
    if route_to.len() == 0 {
        None
    } else {
        match agent_of(agent_type) {
            Some(agent) => Some(
                RouteCommandView {
                    agent: agent,
                    op: RouteOp::DeleteRoute,
                    connection: connection,
                    route_to: host_route(route_to),
                    route_via: Seq::empty(),
                },
            ),
            None => None,
        }
    }
}

/// The agent that `agent_type` names. An unknown type names none.
pub fn agent(agent_type: &String) -> (r: Option<Agent>)
    ensures
        r == agent_of(agent_type@),
{
    if *agent_type == String::from_str("fboss") {
        Some(Agent::Fboss)
    } else if *agent_type == String::from_str("snaproute") {
        Some(Agent::Snaproute)
    } else {
        None
    }
}

/// Command that clears all routes on the data-plane interface.
pub fn reset_fib(agent_type: &String, connection: &String) -> (r: Option<RouteCommand>)
    ensures
        command_view(r) == reset_fib_plan(agent_type@, connection@),
{
    match agent(agent_type) {
        Some(a) => Some(
            RouteCommand {
                agent: a,
                op: RouteOp::ResetFib,
                connection: connection.clone(),
                route_to: String::new(),
                route_via: String::new(),
            },
        ),
        None => None,
    }
}

/// Command that installs a host route to `route_to` via `route_via`.
pub fn add_route(
    agent_type: &String,
    connection: &String,
    route_to: &String,
    route_via: &String,
) -> (r: Option<RouteCommand>)
    ensures
        command_view(r) == add_route_plan(agent_type@, connection@, route_to@, route_via@),
{
    if route_via.as_str().is_empty() {
        return None;
    }
    if starts_with(connection.as_str(), route_to.as_str()) {
        return None;
    }
    match agent(agent_type) {
        Some(a) => Some(
            RouteCommand {
                agent: a,
                op: RouteOp::AddRoute,
                connection: connection.clone(),
                route_to: route_to.clone().concat("/32"),
                route_via: route_via.clone(),
            },
        ),
        None => None,
    }
}

/// Command that removes the host route to `route_to`.
pub fn delete_route(agent_type: &String, connection: &String, route_to: &String) -> (r: Option<
    RouteCommand,
>)
    ensures
        command_view(r) == delete_route_plan(agent_type@, connection@, route_to@),
{
    if route_to.as_str().is_empty() {
        return None;
    }
    match agent(agent_type) {
        Some(a) => Some(
            RouteCommand {
                agent: a,
                op: RouteOp::DeleteRoute,
                connection: connection.clone(),
                route_to: route_to.clone().concat("/32"),
                route_via: String::new(),
            },
        ),
        None => None,
    }
}

} // verus!

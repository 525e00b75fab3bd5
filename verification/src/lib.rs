//! Control-plane core of a cluster controller: the task and node tables,
//! the custodian that serves requests on them one at a time, the sync and
//! clean ticks that reconcile them, the handling of announcements from
//! other controllers, and the plans for the calls that go out to the
//! service registry, the routing agent and the overlay network.
//!
//! Nothing here sends anything. Where an operation calls for a
//! registration, a route change or a command, it hands back what is to be
//! sent, and the caller sends it before it takes the operation for done.

pub mod announce;
pub mod api;
pub mod calico;
pub mod clean;
pub mod clock;
pub mod config;
pub mod consul;
pub mod manager;
pub mod message;
pub mod network_agent;
pub mod node;
pub mod node_list;
pub mod state;
pub mod sync;
pub mod table;
pub mod task;
pub mod task_list;
pub mod text;

//! Service registry: what is posted to the registry agent on the master to
//! register a service under a name and an address.

use vstd::prelude::*;
use vstd::string::StringExecFns;
use crate::task::Task;

verus! {

/// One registration, ready to be posted: the agent's URL and the service
/// description that goes in the body.
#[derive(Clone, Debug)]
pub struct ServiceRegistration {
    pub address: String,
    pub body: String,
}

/// Mathematical value of a [`ServiceRegistration`].
pub struct ServiceRegistrationView {
    pub address: Seq<char>,
    pub body: Seq<char>,
}

impl View for ServiceRegistration {
    type V = ServiceRegistrationView;

    open spec fn view(&self) -> ServiceRegistrationView {
        ServiceRegistrationView { address: self.address@, body: self.body@ }
    }
}

/// The values of a sequence of registrations, in order.
pub open spec fn registrations_view(r: Seq<ServiceRegistration>) -> Seq<ServiceRegistrationView> {
    Seq::new(r.len(), |i: int| r[i]@)
}

/// URL of the registration endpoint of the agent on `master_ip`.
pub open spec fn register_address(master_ip: Seq<char>) -> Seq<char> {
    "http://"@ + master_ip + ":8500/v1/agent/service/register"@
}

/// Description of the service `name` at the address `ip`.
pub open spec fn service_description(name: Seq<char>, ip: Seq<char>) -> Seq<char> {
    "{\"Name\": \""@ + name + "\",\"Address\": \""@ + ip + "\"}"@
}

/// The registration of `name` at `ip` with the agent on `master_ip`.
pub open spec fn registration(
    master_ip: Seq<char>,
    name: Seq<char>,
    ip: Seq<char>,
) -> ServiceRegistrationView {
    ServiceRegistrationView {
        address: register_address(master_ip),
        body: service_description(name, ip),
    }
}

/// Registration of a running task under its name and ip.
pub fn register_running_task(master_ip: &String, task: &Task) -> (r: ServiceRegistration)
    ensures
        r@ == registration(master_ip@, task@.name, task@.ip),
{
    register_service(master_ip, task)
}

/// Registration of a controller under its name and ip.
pub fn register_torc_controller(
    master_ip: &String,
    controller_name: &String,
    controller_ip: &String,
) -> (r: ServiceRegistration)
    ensures
        r@ == registration(master_ip@, controller_name@, controller_ip@),
{
    register_controller(master_ip, controller_name, controller_ip)
}

/// Registration of a service that the controller does not manage.
pub fn register_unmanaged_service(
    master_ip: &String,
    service_name: &String,
    service_ip: &String,
) -> (r: ServiceRegistration)
    ensures
        r@ == registration(master_ip@, service_name@, service_ip@),
{
    register_controller(master_ip, service_name, service_ip)
}

pub fn register_controller(
    master_ip: &String,
    controller_name: &String,
    controller_ip: &String,
) -> (r: ServiceRegistration)
    ensures
        r@ == registration(master_ip@, controller_name@, controller_ip@),
{
    register(master_ip, controller_name, controller_ip)
}

pub fn register_service(master_ip: &String, task: &Task) -> (r: ServiceRegistration)
    ensures
        r@ == registration(master_ip@, task@.name, task@.ip),
{
    register(master_ip, &task.name, &task.ip)
}

/// Builds the registration of `name` at `ip` with the agent on
/// `master_ip`. Name and ip go into the description as they are.
pub fn register(master_ip: &String, name: &String, ip: &String) -> (r: ServiceRegistration)
    ensures
        r@ == registration(master_ip@, name@, ip@),
{
    let address = String::from_str("http://").concat(master_ip.as_str()).concat(
        ":8500/v1/agent/service/register",
    );
    let body = String::from_str("{\"Name\": \"").concat(name.as_str()).concat(
        "\",\"Address\": \"",
    ).concat(ip.as_str()).concat("\"}");
    ServiceRegistration { address, body }
}

} // verus!

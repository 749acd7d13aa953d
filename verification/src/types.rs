use vstd::prelude::*;
use crate::ip::{IpAddress, IpNet};

verus! {

/// One subnet of a network: a CIDR and, optionally, the gateway used
/// for the default route of this address family.
#[derive(Clone, Copy, Debug, PartialEq)]
#[verifier::ext_equal]
pub struct Subnet {
    pub subnet: IpNet,
    pub gateway: Option<IpAddress>,
}

impl Subnet {
    /// A subnet is well formed when its CIDR is and its gateway, if
    /// present, belongs to the CIDR's address family.
    pub open spec fn wf(self) -> bool {
        &&& self.subnet.wf()
        &&& match self.gateway {
            Some(gw) => gw.same_family(self.subnet.addr),
            None => true,
        }
    }
}

/// The host-side datapath description: the name of the host interface
/// (bridge name in bridge mode, macvlan master otherwise) and the
/// ordered subnet list.
#[derive(Debug)]
pub struct Network {
    pub network_interface: Option<String>,
    pub subnets: Option<Vec<Subnet>>,
}

/// Per-container options: the interface name to create inside the
/// container namespace and the ordered static address list, one entry
/// per subnet.
#[derive(Debug)]
pub struct PerNetworkOptions {
    pub interface_name: String,
    pub static_ips: Option<Vec<IpAddress>>,
}

/// One assigned address in the response: the CIDR given to the
/// container interface and the gateway of its subnet, if any.
#[derive(Clone, Copy, Debug, PartialEq)]
pub struct NetAddress {
    pub gateway: Option<IpAddress>,
    pub ipnet: IpNet,
}

/// The configured container interface as reported to the caller.
#[derive(Debug)]
pub struct NetInterface {
    pub mac_address: String,
    pub subnets: Option<Vec<NetAddress>>,
}

/// One entry of the response mapping: interface name to interface.
#[derive(Debug)]
pub struct InterfaceEntry {
    pub name: String,
    pub interface: NetInterface,
}

/// The response of a setup call. The interface mapping holds exactly
/// one entry per invocation; it is kept as an association list so the
/// contracts can speak of its single entry directly.
#[derive(Debug)]
pub struct StatusBlock {
    pub interfaces: Option<Vec<InterfaceEntry>>,
    pub dns_server_ips: Option<Vec<IpAddress>>,
    pub dns_search_domains: Option<Vec<String>>,
}

/// The failure taxonomy of the core: every failing call reports
/// exactly one of these kinds.
#[derive(Clone, Copy, Debug, PartialEq, Eq, Structural)]
pub enum CoreError {
    /// A required field is missing, the static-address list and the
    /// subnet list differ in length, or an address family does not
    /// match its subnet.
    InvalidRequest,
    /// Bridge, veth or macvlan creation or attachment failed on the host.
    HostSetupFailed,
    /// The namespace inode cannot be opened, or the worker cannot
    /// reassociate to it.
    NamespaceEntryFailed,
    /// Address, route or link configuration inside the namespace failed.
    ContainerSetupFailed,
    /// The namespace worker aborted unexpectedly.
    JoinFailed,
    /// Interface removal failed for a reason other than "not found".
    TeardownFailed,
}

} // verus!

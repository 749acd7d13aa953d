use vstd::prelude::*;
use vstd::string::StringExecFns;
use crate::engine::{
    copy_items, ConfigModel, FailureSource, Phase, SetupConfig, SetupEngine, SetupMode,
};
use crate::ip::{IpAddress, IpNet};
use crate::name::draw_name_pool;
use crate::types::{
    CoreError, InterfaceEntry, NetAddress, NetInterface, Network, PerNetworkOptions, StatusBlock,
    Subnet,
};

verus! {

/// The kernel's encoding of the macvlan bridge mode, the mode every
/// macvlan setup run uses.
pub const MACVLAN_MODE_BRIDGE: u32 = 4;

/// The subnet list of a network; an absent list stands for an empty one.
pub open spec fn subnets_of(network: Network) -> Seq<Subnet> {
    match network.subnets {
        Some(v) => v@,
        None => Seq::empty(),
    }
}

/// The subnet and static-address lists agree: same length, well-formed
/// subnets, and each static address in the family of its subnet.
pub open spec fn lists_valid(subnets: Seq<Subnet>, ips: Seq<IpAddress>) -> bool {
    &&& ips.len() == subnets.len()
    &&& forall|i: int|
        0 <= i < subnets.len() ==> (#[trigger] subnets[i]).wf() && ips[i].same_family(
            subnets[i].subnet.addr,
        )
}

/// A setup request carries every required field and its lists agree.
pub open spec fn valid_setup_request(opts: PerNetworkOptions, network: Network) -> bool {
    &&& network.network_interface is Some
    &&& opts.static_ips is Some
    &&& lists_valid(subnets_of(network), opts.static_ips->Some_0@)
}

/// The container addresses derived from a request: each static address
/// qualified with the prefix length of its subnet.
pub open spec fn derived_addresses(subnets: Seq<Subnet>, ips: Seq<IpAddress>) -> Seq<IpNet> {
    Seq::new(
        subnets.len(),
        |i: int| IpNet { addr: ips[i], prefix_len: subnets[i].subnet.prefix_len },
    )
}

/// The per-subnet response entries derived from a request.
pub open spec fn derived_response(subnets: Seq<Subnet>, ips: Seq<IpAddress>) -> Seq<NetAddress> {
    Seq::new(
        subnets.len(),
        |i: int|
            NetAddress {
                gateway: subnets[i].gateway,
                ipnet: IpNet { addr: ips[i], prefix_len: subnets[i].subnet.prefix_len },
            },
    )
}

/// The gateway CIDRs of a subnet list, in subnet order: each present
/// gateway qualified with the prefix length of its subnet.
pub open spec fn gateway_cidrs(subnets: Seq<Subnet>) -> Seq<IpNet>
    decreases subnets.len(),
{
    if subnets.len() == 0 {
        Seq::empty()
    } else {
        gateway_cidrs(subnets.drop_last()) + match subnets.last().gateway {
            Some(gw) => seq![IpNet { addr: gw, prefix_len: subnets.last().subnet.prefix_len }],
            None => Seq::<IpNet>::empty(),
        }
    }
}

/// The configuration a valid bridge-mode request derives to.
pub open spec fn bridge_config_model(
    opts: PerNetworkOptions,
    network: Network,
    netns: Seq<char>,
) -> ConfigModel {
    ConfigModel {
        mode: SetupMode::Bridge,
        host_ifname: network.network_interface->Some_0@,
        container_ifname: opts.interface_name@,
        netns,
        addresses: derived_addresses(subnets_of(network), opts.static_ips->Some_0@),
        gateways: gateway_cidrs(subnets_of(network)),
        response: derived_response(subnets_of(network), opts.static_ips->Some_0@),
    }
}

/// The configuration a valid macvlan-mode request derives to: same
/// addresses and response, no host-side gateway list.
pub open spec fn macvlan_config_model(
    opts: PerNetworkOptions,
    network: Network,
    netns: Seq<char>,
) -> ConfigModel {
    ConfigModel {
        mode: SetupMode::Macvlan { mode: MACVLAN_MODE_BRIDGE },
        host_ifname: network.network_interface->Some_0@,
        container_ifname: opts.interface_name@,
        netns,
        addresses: derived_addresses(subnets_of(network), opts.static_ips->Some_0@),
        gateways: Seq::empty(),
        response: derived_response(subnets_of(network), opts.static_ips->Some_0@),
    }
}

/// What derivation yields on a valid request.
struct Derived {
    addresses: Vec<IpNet>,
    gateways: Vec<IpNet>,
    response: Vec<NetAddress>,
}

/// Walks the subnet and static-address lists once: validates them and
/// derives the container addresses, the gateway CIDRs and the response
/// entries.
fn derive_config(subnets: &Vec<Subnet>, static_ips: &Vec<IpAddress>) -> (r: Result<
    Derived,
    CoreError,
>)
    ensures
        r is Ok <==> lists_valid(subnets@, static_ips@),
        r matches Err(e) ==> e == CoreError::InvalidRequest,
        r matches Ok(d) ==> {
            &&& d.addresses@ == derived_addresses(subnets@, static_ips@)
            &&& d.gateways@ == gateway_cidrs(subnets@)
            &&& d.response@ == derived_response(subnets@, static_ips@)
        },
{
    if static_ips.len() != subnets.len() {
        return Err(CoreError::InvalidRequest);
    }
    let mut addresses: Vec<IpNet> = Vec::new();
    let mut gateways: Vec<IpNet> = Vec::new();
    let mut response: Vec<NetAddress> = Vec::new();
    let mut i: usize = 0;
    while i < subnets.len()
        invariant
            static_ips@.len() == subnets@.len(),
            i <= subnets@.len(),
            forall|j: int|
                0 <= j < i ==> (#[trigger] subnets@[j]).wf() && static_ips@[j].same_family(
                    subnets@[j].subnet.addr,
                ),
            addresses@.len() == i as int,
            forall|j: int|
                0 <= j < i ==> addresses@[j] == (IpNet {
                    addr: static_ips@[j],
                    prefix_len: subnets@[j].subnet.prefix_len,
                }),
            response@.len() == i as int,
            forall|j: int|
                0 <= j < i ==> response@[j] == (NetAddress {
                    gateway: subnets@[j].gateway,
                    ipnet: IpNet {
                        addr: static_ips@[j],
                        prefix_len: subnets@[j].subnet.prefix_len,
                    },
                }),
            gateways@ == gateway_cidrs(subnets@.take(i as int)),
        decreases subnets@.len() - i,
    {
        let subnet = subnets[i];
        let ip = static_ips[i];
        if !subnet.subnet.check_wf() {
            return Err(CoreError::InvalidRequest);
        }
        if !ip.family_matches(&subnet.subnet.addr) {
            return Err(CoreError::InvalidRequest);
        }
        let gw_ok = match &subnet.gateway {
            Some(gw) => gw.family_matches(&subnet.subnet.addr),
            None => true,
        };
        if !gw_ok {
            return Err(CoreError::InvalidRequest);
        }
        let addr = IpNet { addr: ip, prefix_len: subnet.subnet.prefix_len };
        addresses.push(addr);
        response.push(NetAddress { gateway: subnet.gateway, ipnet: addr });
        match &subnet.gateway {
            Some(gw) => {
                gateways.push(IpNet { addr: *gw, prefix_len: subnet.subnet.prefix_len });
            },
            None => {},
        }
        proof {
            assert(subnets@.take(i as int + 1).drop_last() =~= subnets@.take(i as int));
            assert(subnets@.take(i as int + 1).last() == subnets@[i as int]);
            assert(gateways@ =~= gateway_cidrs(subnets@.take(i as int + 1)));
        }
        i = i + 1;
    }
    proof {
        assert(subnets@.take(subnets@.len() as int) =~= subnets@);
        assert(addresses@ =~= derived_addresses(subnets@, static_ips@));
        assert(response@ =~= derived_response(subnets@, static_ips@));
    }
    Ok(Derived { addresses, gateways, response })
}

/// The orchestration entry points of the core. The value itself only
/// records which namespace path a caller works against.
pub struct Core {
    pub networkns: String,
}

impl Core {
    /// Validates a bridge-mode request and starts its setup run: the
    /// returned engine drives bridge creation, the veth pair, and the
    /// in-namespace configuration. An invalid request is rejected
    /// before any action is emitted, so it creates nothing.
    pub fn bridge_per_podman_network(
        per_network_opts: &PerNetworkOptions,
        network: &Network,
        netns: &str,
    ) -> (r: Result<SetupEngine, CoreError>)
        ensures
            r is Ok <==> valid_setup_request(*per_network_opts, *network),
            r matches Err(e) ==> e == CoreError::InvalidRequest,
            r matches Ok(engine) ==> {
                &&& engine@.wf()
                &&& engine@.phase == Phase::EnsuringBridge
                &&& engine@.cfg == bridge_config_model(*per_network_opts, *network, netns@)
            },
    {
        let bridge_name = match &network.network_interface {
            Some(n) => n.as_str(),
            None => {
                return Err(CoreError::InvalidRequest);
            },
        };
        let static_ips = match &per_network_opts.static_ips {
            Some(v) => v,
            None => {
                return Err(CoreError::InvalidRequest);
            },
        };
        let empty_subnets: Vec<Subnet> = Vec::new();
        let subnets = match &network.subnets {
            Some(v) => v,
            None => &empty_subnets,
        };
        proof {
            assert(subnets@ =~= subnets_of(*network));
        }
        let derived = match derive_config(subnets, static_ips) {
            Ok(d) => d,
            Err(e) => {
                return Err(e);
            },
        };
        let mut engine = Core::add_bridge_and_veth(
            bridge_name,
            derived.addresses,
            derived.gateways,
            per_network_opts.interface_name.as_str(),
            netns,
        );
        engine.cfg.response = derived.response;
        proof {
            assert(engine@.cfg =~= bridge_config_model(*per_network_opts, *network, netns@));
        }
        Ok(engine)
    }

    /// Starts the host phase of a bridge-mode run from already-derived
    /// values: the engine first ensures the bridge, then picks a free
    /// random veth name, creates the pair, and configures the
    /// container side. Its response entries start empty; the
    /// orchestrator fills them.
    pub fn add_bridge_and_veth(
        br_name: &str,
        netns_ipaddr: Vec<IpNet>,
        gw_ipaddr: Vec<IpNet>,
        container_veth_name: &str,
        netns: &str,
    ) -> (engine: SetupEngine)
        ensures
            engine@.wf(),
            engine@.phase == Phase::EnsuringBridge,
            engine@.cfg == (ConfigModel {
                mode: SetupMode::Bridge,
                host_ifname: br_name@,
                container_ifname: container_veth_name@,
                netns: netns@,
                addresses: netns_ipaddr@,
                gateways: gw_ipaddr@,
                response: Seq::empty(),
            }),
    {
        let name_pool = draw_name_pool();
        proof {
            assert(forall|i: int|
                0 <= i < name_pool.deep_view().len() ==> name_pool.deep_view()[i]
                    == name_pool@[i]@);
        }
        let engine = SetupEngine {
            cfg: SetupConfig {
                mode: SetupMode::Bridge,
                host_ifname: String::from_str(br_name),
                container_ifname: String::from_str(container_veth_name),
                netns: String::from_str(netns),
                addresses: netns_ipaddr,
                gateways: gw_ipaddr,
                response: Vec::new(),
            },
            phase: Phase::EnsuringBridge,
            name_pool,
            host_veth: None,
            pending: None,
        };
        proof {
            assert(engine@.cfg =~= (ConfigModel {
                mode: SetupMode::Bridge,
                host_ifname: br_name@,
                container_ifname: container_veth_name@,
                netns: netns@,
                addresses: netns_ipaddr@,
                gateways: gw_ipaddr@,
                response: Seq::empty(),
            }));
        }
        engine
    }

    /// Validates a macvlan-mode request and starts its setup run in
    /// the kernel's bridge macvlan mode: the engine drives the macvlan
    /// child creation and the in-namespace configuration, with no
    /// default routes. An invalid request is rejected before any
    /// action is emitted, so it creates nothing.
    pub fn macvlan_per_podman_network(
        per_network_opts: &PerNetworkOptions,
        network: &Network,
        netns: &str,
    ) -> (r: Result<SetupEngine, CoreError>)
        ensures
            r is Ok <==> valid_setup_request(*per_network_opts, *network),
            r matches Err(e) ==> e == CoreError::InvalidRequest,
            r matches Ok(engine) ==> {
                &&& engine@.wf()
                &&& engine@.phase == Phase::CreatingMacvlan
                &&& engine@.cfg == macvlan_config_model(*per_network_opts, *network, netns@)
            },
    {
        let master_ifname = match &network.network_interface {
            Some(n) => n.as_str(),
            None => {
                return Err(CoreError::InvalidRequest);
            },
        };
        let static_ips = match &per_network_opts.static_ips {
            Some(v) => v,
            None => {
                return Err(CoreError::InvalidRequest);
            },
        };
        let empty_subnets: Vec<Subnet> = Vec::new();
        let subnets = match &network.subnets {
            Some(v) => v,
            None => &empty_subnets,
        };
        proof {
            assert(subnets@ =~= subnets_of(*network));
        }
        let derived = match derive_config(subnets, static_ips) {
            Ok(d) => d,
            Err(e) => {
                return Err(e);
            },
        };
        let mut engine = Core::add_macvlan(
            master_ifname,
            per_network_opts.interface_name.as_str(),
            MACVLAN_MODE_BRIDGE,
            derived.addresses,
            netns,
        );
        engine.cfg.response = derived.response;
        proof {
            assert(engine@.cfg =~= macvlan_config_model(*per_network_opts, *network, netns@));
        }
        Ok(engine)
    }

    /// Starts the host phase of a macvlan-mode run from already-derived
    /// values. Its response entries start empty; the orchestrator
    /// fills them.
    pub fn add_macvlan(
        master_ifname: &str,
        container_macvlan: &str,
        macvlan_mode: u32,
        netns_ipaddr: Vec<IpNet>,
        netns: &str,
    ) -> (engine: SetupEngine)
        ensures
            engine@.wf(),
            engine@.phase == Phase::CreatingMacvlan,
            engine@.cfg == (ConfigModel {
                mode: SetupMode::Macvlan { mode: macvlan_mode },
                host_ifname: master_ifname@,
                container_ifname: container_macvlan@,
                netns: netns@,
                addresses: netns_ipaddr@,
                gateways: Seq::empty(),
                response: Seq::empty(),
            }),
    {
        let name_pool = draw_name_pool();
        proof {
            assert(forall|i: int|
                0 <= i < name_pool.deep_view().len() ==> name_pool.deep_view()[i]
                    == name_pool@[i]@);
        }
        let engine = SetupEngine {
            cfg: SetupConfig {
                mode: SetupMode::Macvlan { mode: macvlan_mode },
                host_ifname: String::from_str(master_ifname),
                container_ifname: String::from_str(container_macvlan),
                netns: String::from_str(netns),
                addresses: netns_ipaddr,
                gateways: Vec::new(),
                response: Vec::new(),
            },
            phase: Phase::CreatingMacvlan,
            name_pool,
            host_veth: None,
            pending: None,
        };
        proof {
            assert(engine@.cfg =~= (ConfigModel {
                mode: SetupMode::Macvlan { mode: macvlan_mode },
                host_ifname: master_ifname@,
                container_ifname: container_macvlan@,
                netns: netns@,
                addresses: netns_ipaddr@,
                gateways: Seq::empty(),
                response: Seq::empty(),
            }));
        }
        engine
    }

    /// Validates a teardown request: the namespace and the name of the
    /// interface to remove there. Removing the container end of a veth
    /// pair removes the host end with it, so teardown emits no
    /// host-side action of its own.
    pub fn remove_interface_per_podman_network(
        per_network_opts: &PerNetworkOptions,
        network: &Network,
        netns: &str,
    ) -> (r: Result<TeardownRequest, CoreError>)
        ensures
            r is Ok <==> network.subnets is Some,
            r matches Err(e) ==> e == CoreError::InvalidRequest,
            r matches Ok(t) ==> t.ifname@ == teardown_target(*per_network_opts) && t.netns@
                == netns@,
    {
        if network.subnets.is_none() {
            return Err(CoreError::InvalidRequest);
        }
        Ok(
            TeardownRequest {
                ifname: per_network_opts.interface_name.clone(),
                netns: String::from_str(netns),
            },
        )
    }
}

/// The one interface name a teardown for these options removes.
pub open spec fn teardown_target(opts: PerNetworkOptions) -> Seq<char> {
    opts.interface_name@
}

/// A validated teardown: remove `ifname` inside the namespace at
/// `netns`.
pub struct TeardownRequest {
    pub ifname: String,
    pub netns: String,
}

/// The outcome the driver reports after attempting the removal.
#[derive(Clone, Copy, Debug, PartialEq, Eq, Structural)]
pub enum TeardownEvent {
    /// The interface existed and was removed.
    Removed,
    /// No interface of that name exists in the namespace.
    NotFound,
    /// The attempt failed here.
    Failed { source: FailureSource },
}

/// The error kind for a failed removal attempt.
pub open spec fn teardown_error(source: FailureSource) -> CoreError {
    match source {
        FailureSource::NetnsOpen => CoreError::NamespaceEntryFailed,
        FailureSource::Reassociate => CoreError::NamespaceEntryFailed,
        FailureSource::WorkerJoin => CoreError::JoinFailed,
        FailureSource::HostOp => CoreError::TeardownFailed,
        FailureSource::WorkerOp => CoreError::TeardownFailed,
    }
}

/// Turns the reported removal outcome into the call's result: a
/// missing interface is no error, so repeating a teardown succeeds.
pub fn conclude_teardown(ev: &TeardownEvent) -> (r: Result<(), CoreError>)
    ensures
        r is Ok <==> (ev is Removed || ev is NotFound),
        r matches Err(e) ==> ev matches TeardownEvent::Failed { source } && e == teardown_error(
            *source,
        ),
{
    match ev {
        TeardownEvent::Removed => Ok(()),
        TeardownEvent::NotFound => Ok(()),
        TeardownEvent::Failed { source } => Err(
            match *source {
                FailureSource::NetnsOpen => CoreError::NamespaceEntryFailed,
                FailureSource::Reassociate => CoreError::NamespaceEntryFailed,
                FailureSource::WorkerJoin => CoreError::JoinFailed,
                FailureSource::HostOp => CoreError::TeardownFailed,
                FailureSource::WorkerOp => CoreError::TeardownFailed,
            },
        ),
    }
}

impl SetupEngine {
    /// Assembles the response of a completed run: exactly one
    /// interface entry, keyed by the container interface name,
    /// carrying the reported hardware address and the per-subnet
    /// entries. Macvlan responses additionally carry the empty,
    /// reserved DNS lists.
    pub fn status_block(&self, mac: String) -> (s: StatusBlock)
        ensures
            s.interfaces matches Some(entries) && entries@.len() == 1 && entries@[0].name@
                == self@.cfg.container_ifname && entries@[0].interface.mac_address@ == mac@ && (
            entries@[0].interface.subnets matches Some(subs) && subs@ == self@.cfg.response),
            self@.cfg.mode is Macvlan ==> (s.dns_server_ips matches Some(v) && v@.len() == 0) && (
            s.dns_search_domains matches Some(w) && w@.len() == 0),
            self@.cfg.mode is Bridge ==> s.dns_server_ips is None && s.dns_search_domains is None,
    {
        let subs = copy_items(&self.cfg.response);
        let iface = NetInterface { mac_address: mac, subnets: Some(subs) };
        let mut entries: Vec<InterfaceEntry> = Vec::new();
        entries.push(InterfaceEntry { name: self.cfg.container_ifname.clone(), interface: iface });
        match self.cfg.mode {
            SetupMode::Bridge => StatusBlock {
                interfaces: Some(entries),
                dns_server_ips: None,
                dns_search_domains: None,
            },
            SetupMode::Macvlan { .. } => StatusBlock {
                interfaces: Some(entries),
                dns_server_ips: Some(Vec::new()),
                dns_search_domains: Some(Vec::new()),
            },
        }
    }
}

} // verus!

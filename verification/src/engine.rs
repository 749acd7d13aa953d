use vstd::prelude::*;
use vstd::pervasive::unreached;
use crate::ip::IpNet;
use crate::name::{is_veth_candidate, VETH_NAME_ATTEMPTS};
use crate::types::{CoreError, NetAddress};

verus! {

/// Which host-side datapath a setup run builds.
#[derive(Clone, Copy, Debug, PartialEq, Eq, Structural)]
pub enum SetupMode {
    /// A Linux bridge with a veth pair into the container namespace.
    Bridge,
    /// A macvlan child of a master interface, in the given kernel
    /// macvlan mode.
    Macvlan { mode: u32 },
}

/// Where, within one outside operation, a failure arose. The driver
/// reports the place; the engine decides the error kind.
#[derive(Clone, Copy, Debug, PartialEq, Eq, Structural)]
pub enum FailureSource {
    /// The host-side operation itself failed.
    HostOp,
    /// The namespace inode could not be opened.
    NetnsOpen,
    /// The worker could not reassociate to the namespace.
    Reassociate,
    /// An operation inside the namespace failed.
    WorkerOp,
    /// The worker aborted and could not be joined.
    WorkerJoin,
}

/// What the driver reports back after performing an action.
pub enum SetupEvent {
    /// The requested operation succeeded.
    Succeeded,
    /// The container interface is configured; here is its hardware
    /// address.
    Configured { mac: String },
    /// Whether the probed host interface name is already taken.
    LinkProbed { exists: bool },
    /// The requested operation failed.
    Failed { source: FailureSource },
}

/// The abstract value of an event.
pub enum EventModel {
    Succeeded,
    Configured { mac: Seq<char> },
    LinkProbed { exists: bool },
    Failed { source: FailureSource },
}

impl View for SetupEvent {
    type V = EventModel;

    open spec fn view(&self) -> EventModel {
        match self {
            SetupEvent::Succeeded => EventModel::Succeeded,
            SetupEvent::Configured { mac } => EventModel::Configured { mac: mac@ },
            SetupEvent::LinkProbed { exists } => EventModel::LinkProbed { exists: *exists },
            SetupEvent::Failed { source } => EventModel::Failed { source: *source },
        }
    }
}

/// What the engine asks the driver to do next.
#[derive(Debug, PartialEq)]
pub enum SetupAction {
    /// Create the bridge if it is absent, add the missing gateway
    /// addresses, bring it up.
    EnsureBridge { bridge: String, gateways: Vec<IpNet> },
    /// Report whether a host interface of this name exists.
    ProbeLink { name: String },
    /// Create a veth pair, move the container end into the namespace,
    /// attach the host end to the bridge and bring it up.
    CreateVethPair { host_name: String, container_name: String, bridge: String, netns: String },
    /// Create a macvlan child of the master and move it into the
    /// namespace.
    CreateMacvlan { master: String, child_name: String, mode: u32, netns: String },
    /// Inside the namespace: add the addresses to the interface, bring
    /// it up, install one default route per gateway, bring `lo` up,
    /// and report the interface's hardware address.
    ConfigureInNetns { netns: String, ifname: String, addresses: Vec<IpNet>, gateways: Vec<IpNet> },
    /// Remove a host interface; failure is logged, never surfaced.
    RemoveHostLink { name: String },
    /// Setup finished; the container interface has this hardware
    /// address.
    Complete { mac: String },
    /// Setup failed with this error after any required cleanup was
    /// ordered.
    Abort { error: CoreError },
}

/// The abstract value of an action.
pub enum ActionModel {
    EnsureBridge { bridge: Seq<char>, gateways: Seq<IpNet> },
    ProbeLink { name: Seq<char> },
    CreateVethPair { host_name: Seq<char>, container_name: Seq<char>, bridge: Seq<char>, netns: Seq<char> },
    CreateMacvlan { master: Seq<char>, child_name: Seq<char>, mode: u32, netns: Seq<char> },
    ConfigureInNetns { netns: Seq<char>, ifname: Seq<char>, addresses: Seq<IpNet>, gateways: Seq<IpNet> },
    RemoveHostLink { name: Seq<char> },
    Complete { mac: Seq<char> },
    Abort { error: CoreError },
}

impl View for SetupAction {
    type V = ActionModel;

    open spec fn view(&self) -> ActionModel {
        match self {
            SetupAction::EnsureBridge { bridge, gateways } => ActionModel::EnsureBridge {
                bridge: bridge@,
                gateways: gateways@,
            },
            SetupAction::ProbeLink { name } => ActionModel::ProbeLink { name: name@ },
            SetupAction::CreateVethPair { host_name, container_name, bridge, netns } => {
                ActionModel::CreateVethPair {
                    host_name: host_name@,
                    container_name: container_name@,
                    bridge: bridge@,
                    netns: netns@,
                }
            },
            SetupAction::CreateMacvlan { master, child_name, mode, netns } => {
                ActionModel::CreateMacvlan {
                    master: master@,
                    child_name: child_name@,
                    mode: *mode,
                    netns: netns@,
                }
            },
            SetupAction::ConfigureInNetns { netns, ifname, addresses, gateways } => {
                ActionModel::ConfigureInNetns {
                    netns: netns@,
                    ifname: ifname@,
                    addresses: addresses@,
                    gateways: gateways@,
                }
            },
            SetupAction::RemoveHostLink { name } => ActionModel::RemoveHostLink { name: name@ },
            SetupAction::Complete { mac } => ActionModel::Complete { mac: mac@ },
            SetupAction::Abort { error } => ActionModel::Abort { error: *error },
        }
    }
}

/// Where a setup run stands: which action is outstanding.
#[derive(Clone, Copy, Debug, PartialEq, Eq, Structural)]
pub enum Phase {
    /// `EnsureBridge` outstanding.
    EnsuringBridge,
    /// `ProbeLink` outstanding for candidate number `attempts`.
    ProbingName { attempts: usize },
    /// `CreateVethPair` outstanding.
    CreatingVeth,
    /// `CreateMacvlan` outstanding.
    CreatingMacvlan,
    /// `ConfigureInNetns` outstanding.
    Configuring,
    /// `RemoveHostLink` outstanding; an error waits to be surfaced.
    Compensating,
    /// Terminal: the run completed.
    Done,
    /// Terminal: the run aborted.
    Failed,
}

/// The request-derived data a setup run works from; it never changes
/// while the run proceeds.
pub struct SetupConfig {
    /// Bridge mode or macvlan mode.
    pub mode: SetupMode,
    /// Bridge name in bridge mode; master interface name otherwise.
    pub host_ifname: String,
    /// The interface name inside the container namespace.
    pub container_ifname: String,
    /// Filesystem path of the namespace inode.
    pub netns: String,
    /// The addresses to assign to the container interface.
    pub addresses: Vec<IpNet>,
    /// The gateway CIDRs to assign to the bridge; empty in macvlan mode.
    pub gateways: Vec<IpNet>,
    /// The per-subnet entries of the response.
    pub response: Vec<NetAddress>,
}

/// The abstract value of a setup configuration.
#[verifier::ext_equal]
pub struct ConfigModel {
    pub mode: SetupMode,
    pub host_ifname: Seq<char>,
    pub container_ifname: Seq<char>,
    pub netns: Seq<char>,
    pub addresses: Seq<IpNet>,
    pub gateways: Seq<IpNet>,
    pub response: Seq<NetAddress>,
}

impl View for SetupConfig {
    type V = ConfigModel;

    open spec fn view(&self) -> ConfigModel {
        ConfigModel {
            mode: self.mode,
            host_ifname: self.host_ifname@,
            container_ifname: self.container_ifname@,
            netns: self.netns@,
            addresses: self.addresses@,
            gateways: self.gateways@,
            response: self.response@,
        }
    }
}

/// The setup state machine. The driver performs each emitted action
/// against the host and feeds the outcome back through `step`; the
/// engine alone decides what happens next, and in particular that
/// every failure path orders the removal of whatever this run may
/// have created on the host before it aborts.
pub struct SetupEngine {
    pub cfg: SetupConfig,
    pub phase: Phase,
    /// The candidate host-side veth names for this run.
    pub name_pool: Vec<String>,
    /// The chosen host-side veth name, once one was drawn.
    pub host_veth: Option<String>,
    /// The error to surface once compensation was ordered.
    pub pending: Option<CoreError>,
}

/// The abstract value of the machine's state.
#[verifier::ext_equal]
pub struct EngineModel {
    pub cfg: ConfigModel,
    pub phase: Phase,
    pub name_pool: Seq<Seq<char>>,
    pub host_veth: Option<Seq<char>>,
    pub pending: Option<CoreError>,
}

impl View for SetupEngine {
    type V = EngineModel;

    open spec fn view(&self) -> EngineModel {
        EngineModel {
            cfg: self.cfg@,
            phase: self.phase,
            name_pool: self.name_pool.deep_view(),
            host_veth: match self.host_veth {
                Some(n) => Some(n@),
                None => None,
            },
            pending: self.pending,
        }
    }
}

/// The error kind for a failure while configuring inside the
/// namespace: entry failures, worker aborts and in-namespace
/// operation failures are told apart.
pub open spec fn configure_error(source: FailureSource) -> CoreError {
    match source {
        FailureSource::NetnsOpen => CoreError::NamespaceEntryFailed,
        FailureSource::Reassociate => CoreError::NamespaceEntryFailed,
        FailureSource::WorkerJoin => CoreError::JoinFailed,
        FailureSource::HostOp => CoreError::ContainerSetupFailed,
        FailureSource::WorkerOp => CoreError::ContainerSetupFailed,
    }
}

impl EngineModel {
    /// The machine's invariant: the name pool is full-sized and holds
    /// synthesized veth names, macvlan runs carry no gateway list, and
    /// each phase owns exactly the bookkeeping it needs.
    pub open spec fn wf(self) -> bool {
        &&& self.name_pool.len() == VETH_NAME_ATTEMPTS
        &&& (forall|i: int|
            0 <= i < self.name_pool.len() ==> is_veth_candidate(#[trigger] self.name_pool[i]))
        &&& (self.cfg.mode is Macvlan ==> self.cfg.gateways.len() == 0)
        &&& match self.phase {
            Phase::EnsuringBridge => self.cfg.mode is Bridge && self.host_veth is None
                && self.pending is None,
            Phase::ProbingName { attempts } => self.cfg.mode is Bridge
                && attempts < VETH_NAME_ATTEMPTS && self.pending is None
                && self.host_veth == Some(self.name_pool[attempts as int]),
            Phase::CreatingVeth => self.cfg.mode is Bridge && self.host_veth is Some
                && self.pending is None,
            Phase::CreatingMacvlan => self.cfg.mode is Macvlan && self.host_veth is None
                && self.pending is None,
            Phase::Configuring => self.pending is None
                && (self.host_veth is Some <==> self.cfg.mode is Bridge),
            Phase::Compensating => self.pending is Some,
            Phase::Done => true,
            Phase::Failed => true,
        }
    }

    /// The run has ended; no action is outstanding.
    pub open spec fn is_terminal(self) -> bool {
        self.phase is Done || self.phase is Failed
    }

    /// Which events the driver may report in the current phase: the
    /// outcome shapes of the outstanding action.
    pub open spec fn accepts(self, ev: EventModel) -> bool {
        match self.phase {
            Phase::EnsuringBridge => ev is Succeeded || ev is Failed,
            Phase::ProbingName { .. } => ev is LinkProbed || ev is Failed,
            Phase::CreatingVeth => ev is Succeeded || ev is Failed,
            Phase::CreatingMacvlan => ev is Succeeded || ev is Failed,
            Phase::Configuring => ev is Configured || ev is Failed,
            Phase::Compensating => ev is Succeeded || ev is Failed,
            Phase::Done => false,
            Phase::Failed => false,
        }
    }

    /// A host interface created by this run may still exist on the
    /// host in the current phase. The bridge itself is never counted:
    /// it is an idempotently reused, possibly pre-existing object that
    /// this core never collects.
    pub open spec fn host_residue(self) -> bool {
        match self.phase {
            Phase::CreatingVeth => true,
            Phase::CreatingMacvlan => true,
            Phase::Configuring => self.cfg.mode is Bridge,
            _ => false,
        }
    }

    /// The name of the one host interface this run may have created
    /// and not yet ordered removed.
    pub open spec fn residue_name(self) -> Seq<char> {
        match self.cfg.mode {
            SetupMode::Bridge => self.host_veth->Some_0,
            SetupMode::Macvlan { .. } => self.cfg.container_ifname,
        }
    }

    /// The first action of a run: the host-side creation of the mode's
    /// datapath object.
    pub open spec fn initial_action(self) -> ActionModel {
        match self.cfg.mode {
            SetupMode::Bridge => ActionModel::EnsureBridge {
                bridge: self.cfg.host_ifname,
                gateways: self.cfg.gateways,
            },
            SetupMode::Macvlan { mode } => ActionModel::CreateMacvlan {
                master: self.cfg.host_ifname,
                child_name: self.cfg.container_ifname,
                mode,
                netns: self.cfg.netns,
            },
        }
    }

    /// The full transition table of the machine.
    pub open spec fn step(self, ev: EventModel) -> (EngineModel, ActionModel) {
        match (self.phase, ev) {
            (Phase::EnsuringBridge, EventModel::Succeeded) => (
                EngineModel {
                    phase: Phase::ProbingName { attempts: 0 },
                    host_veth: Some(self.name_pool[0]),
                    ..self
                },
                ActionModel::ProbeLink { name: self.name_pool[0] },
            ),
            (Phase::EnsuringBridge, EventModel::Failed { .. }) => (
                EngineModel { phase: Phase::Failed, ..self },
                ActionModel::Abort { error: CoreError::HostSetupFailed },
            ),
            (Phase::ProbingName { attempts }, EventModel::LinkProbed { exists }) => if !exists {
                (
                    EngineModel { phase: Phase::CreatingVeth, ..self },
                    ActionModel::CreateVethPair {
                        host_name: self.host_veth->Some_0,
                        container_name: self.cfg.container_ifname,
                        bridge: self.cfg.host_ifname,
                        netns: self.cfg.netns,
                    },
                )
            } else if attempts + 1 < VETH_NAME_ATTEMPTS {
                (
                    EngineModel {
                        phase: Phase::ProbingName { attempts: (attempts + 1) as usize },
                        host_veth: Some(self.name_pool[attempts + 1]),
                        ..self
                    },
                    ActionModel::ProbeLink { name: self.name_pool[attempts + 1] },
                )
            } else {
                (
                    EngineModel { phase: Phase::Failed, ..self },
                    ActionModel::Abort { error: CoreError::HostSetupFailed },
                )
            },
            (Phase::ProbingName { .. }, EventModel::Failed { .. }) => (
                EngineModel { phase: Phase::Failed, ..self },
                ActionModel::Abort { error: CoreError::HostSetupFailed },
            ),
            (Phase::CreatingVeth, EventModel::Succeeded) => (
                EngineModel { phase: Phase::Configuring, ..self },
                ActionModel::ConfigureInNetns {
                    netns: self.cfg.netns,
                    ifname: self.cfg.container_ifname,
                    addresses: self.cfg.addresses,
                    gateways: self.cfg.gateways,
                },
            ),
            (Phase::CreatingVeth, EventModel::Failed { .. }) => (
                EngineModel {
                    phase: Phase::Compensating,
                    pending: Some(CoreError::HostSetupFailed),
                    ..self
                },
                ActionModel::RemoveHostLink { name: self.host_veth->Some_0 },
            ),
            (Phase::CreatingMacvlan, EventModel::Succeeded) => (
                EngineModel { phase: Phase::Configuring, ..self },
                ActionModel::ConfigureInNetns {
                    netns: self.cfg.netns,
                    ifname: self.cfg.container_ifname,
                    addresses: self.cfg.addresses,
                    gateways: self.cfg.gateways,
                },
            ),
            (Phase::CreatingMacvlan, EventModel::Failed { .. }) => (
                EngineModel {
                    phase: Phase::Compensating,
                    pending: Some(CoreError::HostSetupFailed),
                    ..self
                },
                ActionModel::RemoveHostLink { name: self.cfg.container_ifname },
            ),
            (Phase::Configuring, EventModel::Configured { mac }) => (
                EngineModel { phase: Phase::Done, ..self },
                ActionModel::Complete { mac },
            ),
            (Phase::Configuring, EventModel::Failed { source }) => if self.cfg.mode is Bridge {
                (
                    EngineModel {
                        phase: Phase::Compensating,
                        pending: Some(configure_error(source)),
                        ..self
                    },
                    ActionModel::RemoveHostLink { name: self.host_veth->Some_0 },
                )
            } else {
                (
                    EngineModel { phase: Phase::Failed, ..self },
                    ActionModel::Abort { error: configure_error(source) },
                )
            },
            (Phase::Compensating, _) => (
                EngineModel { phase: Phase::Failed, ..self },
                ActionModel::Abort { error: self.pending->Some_0 },
            ),
            _ => (self, ActionModel::Abort { error: CoreError::JoinFailed }),
        }
    }
}

impl SetupEngine {
    /// The first action of a run.
    pub fn initial_action(&self) -> (a: SetupAction)
        requires
            self@.wf(),
            self.phase == Phase::EnsuringBridge || self.phase == Phase::CreatingMacvlan,
        ensures
            a@ == self@.initial_action(),
    {
        match self.cfg.mode {
            SetupMode::Bridge => SetupAction::EnsureBridge {
                bridge: self.cfg.host_ifname.clone(),
                gateways: copy_items(&self.cfg.gateways),
            },
            SetupMode::Macvlan { mode } => SetupAction::CreateMacvlan {
                master: self.cfg.host_ifname.clone(),
                child_name: self.cfg.container_ifname.clone(),
                mode,
                netns: self.cfg.netns.clone(),
            },
        }
    }

    /// Advance the machine by one reported outcome: returns the next
    /// state and the next action the driver must perform.
    pub fn step(self, ev: SetupEvent) -> (r: (SetupEngine, SetupAction))
        requires
            self@.wf(),
            self@.accepts(ev@),
        ensures
            (r.0@, r.1@) == self@.step(ev@),
    {
        let SetupEngine { cfg, phase, name_pool, host_veth, pending } = self;
        match (phase, ev) {
            (Phase::EnsuringBridge, SetupEvent::Succeeded) => {
                let chosen = name_pool[0].clone();
                let chosen2 = name_pool[0].clone();
                let next = SetupEngine {
                    cfg,
                    phase: Phase::ProbingName { attempts: 0 },
                    name_pool,
                    host_veth: Some(chosen),
                    pending,
                };
                (next, SetupAction::ProbeLink { name: chosen2 })
            },
            (Phase::EnsuringBridge, SetupEvent::Failed { .. }) => {
                let next = SetupEngine { cfg, phase: Phase::Failed, name_pool, host_veth, pending };
                (next, SetupAction::Abort { error: CoreError::HostSetupFailed })
            },
            (Phase::ProbingName { attempts }, SetupEvent::LinkProbed { exists }) => {
                if !exists {
                    let host_name = clone_present(&host_veth);
                    let action = SetupAction::CreateVethPair {
                        host_name,
                        container_name: cfg.container_ifname.clone(),
                        bridge: cfg.host_ifname.clone(),
                        netns: cfg.netns.clone(),
                    };
                    let next = SetupEngine {
                        cfg,
                        phase: Phase::CreatingVeth,
                        name_pool,
                        host_veth,
                        pending,
                    };
                    (next, action)
                } else if attempts + 1 < VETH_NAME_ATTEMPTS {
                    let chosen = name_pool[attempts + 1].clone();
                    let chosen2 = name_pool[attempts + 1].clone();
                    let next = SetupEngine {
                        cfg,
                        phase: Phase::ProbingName { attempts: attempts + 1 },
                        name_pool,
                        host_veth: Some(chosen),
                        pending,
                    };
                    (next, SetupAction::ProbeLink { name: chosen2 })
                } else {
                    let next = SetupEngine {
                        cfg,
                        phase: Phase::Failed,
                        name_pool,
                        host_veth,
                        pending,
                    };
                    (next, SetupAction::Abort { error: CoreError::HostSetupFailed })
                }
            },
            (Phase::ProbingName { .. }, SetupEvent::Failed { .. }) => {
                let next = SetupEngine { cfg, phase: Phase::Failed, name_pool, host_veth, pending };
                (next, SetupAction::Abort { error: CoreError::HostSetupFailed })
            },
            (Phase::CreatingVeth, SetupEvent::Succeeded) => {
                let action = SetupAction::ConfigureInNetns {
                    netns: cfg.netns.clone(),
                    ifname: cfg.container_ifname.clone(),
                    addresses: copy_items(&cfg.addresses),
                    gateways: copy_items(&cfg.gateways),
                };
                let next = SetupEngine {
                    cfg,
                    phase: Phase::Configuring,
                    name_pool,
                    host_veth,
                    pending,
                };
                (next, action)
            },
            (Phase::CreatingVeth, SetupEvent::Failed { .. }) => {
                let name = clone_present(&host_veth);
                let next = SetupEngine {
                    cfg,
                    phase: Phase::Compensating,
                    name_pool,
                    host_veth,
                    pending: Some(CoreError::HostSetupFailed),
                };
                (next, SetupAction::RemoveHostLink { name })
            },
            (Phase::CreatingMacvlan, SetupEvent::Succeeded) => {
                let action = SetupAction::ConfigureInNetns {
                    netns: cfg.netns.clone(),
                    ifname: cfg.container_ifname.clone(),
                    addresses: copy_items(&cfg.addresses),
                    gateways: copy_items(&cfg.gateways),
                };
                let next = SetupEngine {
                    cfg,
                    phase: Phase::Configuring,
                    name_pool,
                    host_veth,
                    pending,
                };
                (next, action)
            },
            (Phase::CreatingMacvlan, SetupEvent::Failed { .. }) => {
                let name = cfg.container_ifname.clone();
                let next = SetupEngine {
                    cfg,
                    phase: Phase::Compensating,
                    name_pool,
                    host_veth,
                    pending: Some(CoreError::HostSetupFailed),
                };
                (next, SetupAction::RemoveHostLink { name })
            },
            (Phase::Configuring, SetupEvent::Configured { mac }) => {
                let next = SetupEngine { cfg, phase: Phase::Done, name_pool, host_veth, pending };
                (next, SetupAction::Complete { mac })
            },
            (Phase::Configuring, SetupEvent::Failed { source }) => {
                let is_bridge = matches!(cfg.mode, SetupMode::Bridge);
                let error = configure_error_kind(source);
                if is_bridge {
                    let name = clone_present(&host_veth);
                    let next = SetupEngine {
                        cfg,
                        phase: Phase::Compensating,
                        name_pool,
                        host_veth,
                        pending: Some(error),
                    };
                    (next, SetupAction::RemoveHostLink { name })
                } else {
                    let next = SetupEngine {
                        cfg,
                        phase: Phase::Failed,
                        name_pool,
                        host_veth,
                        pending,
                    };
                    (next, SetupAction::Abort { error })
                }
            },
            (Phase::Compensating, _) => {
                let error = match pending {
                    Some(e) => e,
                    None => unreached(),
                };
                let next = SetupEngine { cfg, phase: Phase::Failed, name_pool, host_veth, pending };
                (next, SetupAction::Abort { error })
            },
            _ => unreached(),
        }
    }
}

/// The executable counterpart of `configure_error`.
fn configure_error_kind(source: FailureSource) -> (e: CoreError)
    ensures
        e == configure_error(source),
{
    match source {
        FailureSource::NetnsOpen => CoreError::NamespaceEntryFailed,
        FailureSource::Reassociate => CoreError::NamespaceEntryFailed,
        FailureSource::WorkerJoin => CoreError::JoinFailed,
        FailureSource::HostOp => CoreError::ContainerSetupFailed,
        FailureSource::WorkerOp => CoreError::ContainerSetupFailed,
    }
}

/// Copies a list of plain values.
pub(crate) fn copy_items<T: Copy>(v: &Vec<T>) -> (r: Vec<T>)
    ensures
        r@ == v@,
{
    let mut r: Vec<T> = Vec::new();
    let mut i: usize = 0;
    while i < v.len()
        invariant
            i <= v.len(),
            r@ == v@.take(i as int),
        decreases v.len() - i,
    {
        r.push(v[i]);
        proof {
            assert(r@ =~= v@.take(i as int + 1));
        }
        i = i + 1;
    }
    proof {
        assert(v@.take(v.len() as int) =~= v@);
    }
    r
}

/// Extracts the present string by cloning it.
fn clone_present(s: &Option<String>) -> (r: String)
    requires
        s is Some,
    ensures
        Some(r) == *s,
{
    match s {
        Some(n) => n.clone(),
        None => unreached(),
    }
}

} // verus!

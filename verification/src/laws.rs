use vstd::prelude::*;
use crate::engine::{
    configure_error, ActionModel, EngineModel, EventModel, FailureSource, Phase,
};
use crate::setup::{
    bridge_config_model, derived_addresses, gateway_cidrs, subnets_of, teardown_target,
};
use crate::types::{Network, PerNetworkOptions};

verus! {

/// How far along its run a phase stands; compensation and the terminal
/// phases come after every productive phase.
pub open spec fn phase_rank(p: Phase) -> int {
    match p {
        Phase::EnsuringBridge => 0,
        Phase::ProbingName { .. } => 1,
        Phase::CreatingVeth => 2,
        Phase::CreatingMacvlan => 2,
        Phase::Configuring => 3,
        Phase::Compensating => 4,
        Phase::Done => 5,
        Phase::Failed => 5,
    }
}

/// Every step preserves the machine's invariant.
pub proof fn law_step_preserves_wf(st: EngineModel, ev: EventModel)
    requires
        st.wf(),
        st.accepts(ev),
    ensures
        st.step(ev).0.wf(),
{
}

/// The request-derived configuration never changes while a run
/// proceeds: every action a run emits speaks of the one validated
/// request.
pub proof fn law_step_preserves_cfg(st: EngineModel, ev: EventModel)
    requires
        st.wf(),
        st.accepts(ev),
    ensures
        st.step(ev).0.cfg == st.cfg,
{
}

/// A run never moves backwards: except for drawing the next candidate
/// veth name, every step strictly advances the phase, so each
/// host-changing action is emitted at most once per run.
pub proof fn law_phase_advances(st: EngineModel, ev: EventModel)
    requires
        st.wf(),
        st.accepts(ev),
    ensures
        (phase_rank(st.step(ev).0.phase) > phase_rank(st.phase) || (st.phase matches
            Phase::ProbingName { attempts } && st.step(ev).0.phase == (Phase::ProbingName {
            attempts: (attempts + 1) as usize,
        }))),
{
}

/// A run aborts only when nothing it created can remain on the host:
/// either no such object may exist in its phase, or it stands in the
/// compensation phase, which was entered by ordering the removal.
pub proof fn law_abort_only_after_cleanup(st: EngineModel, ev: EventModel)
    requires
        st.wf(),
        st.accepts(ev),
        (st.step(ev).1 is Abort),
    ensures
        (st.phase is Compensating || !st.host_residue()),
{
}

/// Whenever a run enters the compensation phase, the very step that
/// enters it orders the removal of exactly the one interface this run
/// may have created on the host.
pub proof fn law_compensation_removes_residue(st: EngineModel, ev: EventModel)
    requires
        st.wf(),
        st.accepts(ev),
        (st.step(ev).0.phase is Compensating),
    ensures
        st.host_residue(),
        (st.step(ev).1 == ActionModel::RemoveHostLink { name: st.residue_name() }),
{
}

/// After compensation, the run aborts with the error that caused the
/// compensation, whether the cleanup itself succeeded or failed: a
/// cleanup failure never masks the original error.
pub proof fn law_compensation_then_abort(st: EngineModel, ev: EventModel)
    requires
        st.wf(),
        st.accepts(ev),
        (st.phase is Compensating),
    ensures
        (st.step(ev).0.phase is Failed),
        (st.step(ev).1 == ActionModel::Abort { error: st.pending->Some_0 }),
{
}

/// The in-namespace configuration is requested exactly on the
/// transition out of a successful host-side creation, and only then.
pub proof fn law_configure_follows_creation(st: EngineModel, ev: EventModel)
    requires
        st.wf(),
        st.accepts(ev),
    ensures
        (st.step(ev).1 is ConfigureInNetns <==> ((st.phase is CreatingVeth
            || st.phase is CreatingMacvlan) && ev is Succeeded)),
        (st.step(ev).1 is ConfigureInNetns ==> st.step(ev).0.phase is Configuring),
{
}

/// What a bridge-mode run asks to be configured inside the namespace
/// is exactly what the validated request derives to: the container
/// interface name, each static address under its subnet's prefix
/// length, and one default route per present gateway.
pub proof fn law_bridge_configures_request(
    opts: PerNetworkOptions,
    network: Network,
    netns: Seq<char>,
    st: EngineModel,
    ev: EventModel,
)
    requires
        st.wf(),
        st.accepts(ev),
        st.cfg == bridge_config_model(opts, network, netns),
        (st.step(ev).1 is ConfigureInNetns),
    ensures
        st.step(ev).1 == (ActionModel::ConfigureInNetns {
            netns,
            ifname: opts.interface_name@,
            addresses: derived_addresses(subnets_of(network), opts.static_ips->Some_0@),
            gateways: gateway_cidrs(subnets_of(network)),
        }),
{
}

/// A macvlan-mode run installs no default route: the gateway list of
/// its in-namespace configuration is empty.
pub proof fn law_macvlan_no_routes(st: EngineModel, ev: EventModel)
    requires
        st.wf(),
        st.accepts(ev),
        (st.cfg.mode is Macvlan),
        (st.step(ev).1 matches ActionModel::ConfigureInNetns { gateways, .. }),
    ensures
        st.step(ev).1->ConfigureInNetns_gateways.len() == 0,
{
}

/// A run completes exactly when the in-namespace configuration
/// reported back, and it reports the hardware address it was handed.
pub proof fn law_complete_reports_mac(st: EngineModel, ev: EventModel)
    requires
        st.wf(),
        st.accepts(ev),
    ensures
        (st.step(ev).1 is Complete <==> (st.phase is Configuring && ev is Configured)),
        (st.step(ev).1 matches ActionModel::Complete { mac } ==> ev == (EventModel::Configured {
            mac,
        }) && st.step(ev).0.phase is Done),
{
}

/// In bridge mode, a failure while configuring inside the namespace
/// first removes the host-side veth this run created, then aborts with
/// the kind the failure's place dictates; a pre-existing container
/// interface surfaces as a container setup failure, never as a silent
/// overwrite.
pub proof fn law_bridge_configure_failure(st: EngineModel, source: FailureSource, ev2: EventModel)
    requires
        st.wf(),
        (st.phase is Configuring),
        (st.cfg.mode is Bridge),
        (ev2 is Succeeded || ev2 is Failed),
    ensures
        ({
            let (st1, a1) = st.step(EventModel::Failed { source });
            let (st2, a2) = st1.step(ev2);
            &&& a1 == ActionModel::RemoveHostLink { name: st.residue_name() }
            &&& a2 == ActionModel::Abort { error: configure_error(source) }
            &&& st2.phase is Failed
        }),
{
}

/// In macvlan mode nothing of this run remains on the host once the
/// child moved into the namespace, so a configuration failure aborts
/// directly, with the kind the failure's place dictates.
pub proof fn law_macvlan_configure_failure(st: EngineModel, source: FailureSource)
    requires
        st.wf(),
        (st.phase is Configuring),
        (st.cfg.mode is Macvlan),
    ensures
        st.step(EventModel::Failed { source }).1 == (ActionModel::Abort {
            error: configure_error(source),
        }),
        (st.step(EventModel::Failed { source }).0.phase is Failed),
{
}

/// The actions a run emits on a whole sequence of reported outcomes,
/// in order.
pub open spec fn run_actions(st: EngineModel, evs: Seq<EventModel>) -> Seq<ActionModel>
    decreases evs.len(),
{
    if evs.len() == 0 {
        Seq::empty()
    } else {
        seq![st.step(evs[0]).1] + run_actions(st.step(evs[0]).0, evs.drop_first())
    }
}

/// How many of these actions ask for the in-namespace configuration.
pub open spec fn configure_count(actions: Seq<ActionModel>) -> int
    decreases actions.len(),
{
    if actions.len() == 0 {
        0
    } else {
        (if actions[0] is ConfigureInNetns {
            1int
        } else {
            0int
        }) + configure_count(actions.drop_first())
    }
}

/// No step ever moves the phase backwards, whatever the event.
pub proof fn lemma_rank_never_decreases(st: EngineModel, ev: EventModel)
    ensures
        phase_rank(st.step(ev).0.phase) >= phase_rank(st.phase),
{
}

/// Once a run stands at or past the configuration phase, no later step
/// asks for the in-namespace configuration again.
pub proof fn lemma_no_configure_from_configuring(st: EngineModel, evs: Seq<EventModel>)
    requires
        phase_rank(st.phase) >= 3,
    ensures
        configure_count(run_actions(st, evs)) == 0,
    decreases evs.len(),
{
    if evs.len() > 0 {
        let a = st.step(evs[0]).1;
        let rest = run_actions(st.step(evs[0]).0, evs.drop_first());
        assert(run_actions(st, evs) == seq![a] + rest);
        assert((seq![a] + rest)[0] == a);
        assert((seq![a] + rest).drop_first() =~= rest);
        lemma_rank_never_decreases(st, evs[0]);
        lemma_no_configure_from_configuring(st.step(evs[0]).0, evs.drop_first());
    }
}

/// Over any whole run, however the outcomes fall, the in-namespace
/// configuration is asked for at most once: the run creates at most
/// one interface inside the target namespace, and never overwrites one
/// behind a repeated request.
pub proof fn law_configure_at_most_once(st: EngineModel, evs: Seq<EventModel>)
    ensures
        configure_count(run_actions(st, evs)) <= 1,
    decreases evs.len(),
{
    if evs.len() > 0 {
        let st1 = st.step(evs[0]).0;
        let a = st.step(evs[0]).1;
        let rest = run_actions(st1, evs.drop_first());
        assert(run_actions(st, evs) == seq![a] + rest);
        assert((seq![a] + rest)[0] == a);
        assert((seq![a] + rest).drop_first() =~= rest);
        if a is ConfigureInNetns {
            lemma_no_configure_from_configuring(st1, evs.drop_first());
        } else {
            law_configure_at_most_once(st1, evs.drop_first());
        }
    }
}

/// Setup followed by teardown acts on one and the same interface name:
/// what a bridge-mode run configures inside the namespace is exactly
/// what a teardown for the same options later removes, and teardown
/// emits no host-side action, so a pre-existing bridge stays intact.
pub proof fn law_round_trip_same_interface(
    opts: PerNetworkOptions,
    network: Network,
    netns: Seq<char>,
    st: EngineModel,
    ev: EventModel,
)
    requires
        st.wf(),
        st.accepts(ev),
        st.cfg == bridge_config_model(opts, network, netns),
        (st.step(ev).1 is ConfigureInNetns),
    ensures
        st.step(ev).1->ConfigureInNetns_ifname == teardown_target(opts),
{
}

} // verus!

use netavark::engine::{FailureSource, SetupAction, SetupEvent, SetupMode};
use netavark::ip::{IpAddress, IpNet};
use netavark::setup::Core;
use netavark::types::{CoreError, NetAddress, Network, PerNetworkOptions, Subnet};

fn v4(a: u8, b: u8, c: u8, d: u8) -> IpAddress {
    IpAddress::V4(u32::from_be_bytes([a, b, c, d]))
}

fn net4(a: u8, b: u8, c: u8, d: u8, prefix: u8) -> IpNet {
    IpNet { addr: v4(a, b, c, d), prefix_len: prefix }
}

fn single_v4_request() -> (PerNetworkOptions, Network) {
    let opts = PerNetworkOptions {
        interface_name: String::from("eth0"),
        static_ips: Some(vec![v4(10, 0, 0, 42)]),
    };
    let network = Network {
        network_interface: Some(String::from("cni0")),
        subnets: Some(vec![Subnet {
            subnet: net4(10, 0, 0, 0, 24),
            gateway: Some(v4(10, 0, 0, 1)),
        }]),
    };
    (opts, network)
}

fn assert_veth_shaped(name: &str) {
    assert_eq!(name.len(), 12);
    assert!(name.starts_with("veth"));
    for c in name[4..].chars() {
        assert!(c.is_ascii_hexdigit() && !c.is_ascii_uppercase());
    }
}

#[test]
fn single_ipv4_bridge_full_run() {
    let (opts, network) = single_v4_request();
    let engine = Core::bridge_per_podman_network(&opts, &network, "/run/netns/s1").unwrap();

    match engine.initial_action() {
        SetupAction::EnsureBridge { bridge, gateways } => {
            assert_eq!(bridge, "cni0");
            assert_eq!(gateways, vec![net4(10, 0, 0, 1, 24)]);
        }
        other => panic!("expected EnsureBridge, got {:?}", other),
    }

    let (engine, act) = engine.step(SetupEvent::Succeeded);
    let probed = match act {
        SetupAction::ProbeLink { name } => {
            assert_veth_shaped(&name);
            name
        }
        other => panic!("expected ProbeLink, got {:?}", other),
    };

    let (engine, act) = engine.step(SetupEvent::LinkProbed { exists: false });
    match &act {
        SetupAction::CreateVethPair { host_name, container_name, bridge, netns } => {
            assert_eq!(host_name, &probed);
            assert_eq!(container_name, "eth0");
            assert_eq!(bridge, "cni0");
            assert_eq!(netns, "/run/netns/s1");
        }
        other => panic!("expected CreateVethPair, got {:?}", other),
    }

    let (engine, act) = engine.step(SetupEvent::Succeeded);
    match &act {
        SetupAction::ConfigureInNetns { netns, ifname, addresses, gateways } => {
            assert_eq!(netns, "/run/netns/s1");
            assert_eq!(ifname, "eth0");
            assert_eq!(addresses, &vec![net4(10, 0, 0, 42, 24)]);
            assert_eq!(gateways, &vec![net4(10, 0, 0, 1, 24)]);
        }
        other => panic!("expected ConfigureInNetns, got {:?}", other),
    }

    let (engine, act) = engine.step(SetupEvent::Configured {
        mac: String::from("aa:bb:cc:dd:ee:ff"),
    });
    let mac = match act {
        SetupAction::Complete { mac } => mac,
        other => panic!("expected Complete, got {:?}", other),
    };
    assert_eq!(mac, "aa:bb:cc:dd:ee:ff");

    let status = engine.status_block(mac);
    let entries = status.interfaces.unwrap();
    assert_eq!(entries.len(), 1);
    assert_eq!(entries[0].name, "eth0");
    assert_eq!(entries[0].interface.mac_address, "aa:bb:cc:dd:ee:ff");
    assert_eq!(
        entries[0].interface.subnets,
        Some(vec![NetAddress { gateway: Some(v4(10, 0, 0, 1)), ipnet: net4(10, 0, 0, 42, 24) }])
    );
    assert!(status.dns_server_ips.is_none());
    assert!(status.dns_search_domains.is_none());
}

#[test]
fn dual_stack_bridge_configures_both_families() {
    let opts = PerNetworkOptions {
        interface_name: String::from("eth0"),
        static_ips: Some(vec![v4(10, 0, 0, 7), IpAddress::V6(0xfd00u128 << 112 | 7)]),
    };
    let network = Network {
        network_interface: Some(String::from("cni0")),
        subnets: Some(vec![
            Subnet { subnet: net4(10, 0, 0, 0, 24), gateway: Some(v4(10, 0, 0, 1)) },
            Subnet {
                subnet: IpNet { addr: IpAddress::V6(0xfd00u128 << 112), prefix_len: 64 },
                gateway: Some(IpAddress::V6(0xfd00u128 << 112 | 1)),
            },
        ]),
    };
    let engine = Core::bridge_per_podman_network(&opts, &network, "/run/netns/s2").unwrap();
    let (engine, _) = engine.step(SetupEvent::Succeeded);
    let (engine, _) = engine.step(SetupEvent::LinkProbed { exists: false });
    let (_, act) = engine.step(SetupEvent::Succeeded);
    match act {
        SetupAction::ConfigureInNetns { addresses, gateways, .. } => {
            assert_eq!(
                addresses,
                vec![
                    net4(10, 0, 0, 7, 24),
                    IpNet { addr: IpAddress::V6(0xfd00u128 << 112 | 7), prefix_len: 64 },
                ]
            );
            assert_eq!(
                gateways,
                vec![
                    net4(10, 0, 0, 1, 24),
                    IpNet { addr: IpAddress::V6(0xfd00u128 << 112 | 1), prefix_len: 64 },
                ]
            );
        }
        other => panic!("expected ConfigureInNetns, got {:?}", other),
    }
}

#[test]
fn omitted_gateway_installs_no_route() {
    let opts = PerNetworkOptions {
        interface_name: String::from("eth0"),
        static_ips: Some(vec![v4(10, 0, 0, 8)]),
    };
    let network = Network {
        network_interface: Some(String::from("cni0")),
        subnets: Some(vec![Subnet { subnet: net4(10, 0, 0, 0, 24), gateway: None }]),
    };
    let engine = Core::bridge_per_podman_network(&opts, &network, "/run/netns/s3").unwrap();
    match engine.initial_action() {
        SetupAction::EnsureBridge { gateways, .. } => assert!(gateways.is_empty()),
        other => panic!("expected EnsureBridge, got {:?}", other),
    }
    let (engine, _) = engine.step(SetupEvent::Succeeded);
    let (engine, _) = engine.step(SetupEvent::LinkProbed { exists: false });
    let (engine, act) = engine.step(SetupEvent::Succeeded);
    match act {
        SetupAction::ConfigureInNetns { addresses, gateways, .. } => {
            assert_eq!(addresses, vec![net4(10, 0, 0, 8, 24)]);
            assert!(gateways.is_empty());
        }
        other => panic!("expected ConfigureInNetns, got {:?}", other),
    }
    let (engine, act) = engine.step(SetupEvent::Configured { mac: String::from("02:00:00:00:00:01") });
    assert!(matches!(act, SetupAction::Complete { .. }));
    let status = engine.status_block(String::from("02:00:00:00:00:01"));
    let entries = status.interfaces.unwrap();
    assert_eq!(
        entries[0].interface.subnets,
        Some(vec![NetAddress { gateway: None, ipnet: net4(10, 0, 0, 8, 24) }])
    );
}

#[test]
fn veth_create_failure_cleans_up_then_aborts() {
    let (opts, network) = single_v4_request();
    let engine = Core::bridge_per_podman_network(&opts, &network, "/run/netns/p2").unwrap();
    let (engine, _) = engine.step(SetupEvent::Succeeded);
    let (engine, act) = engine.step(SetupEvent::LinkProbed { exists: false });
    let chosen = match act {
        SetupAction::CreateVethPair { host_name, .. } => host_name,
        other => panic!("expected CreateVethPair, got {:?}", other),
    };
    let (engine, act) = engine.step(SetupEvent::Failed { source: FailureSource::HostOp });
    assert_eq!(act, SetupAction::RemoveHostLink { name: chosen });
    let (_, act) = engine.step(SetupEvent::Succeeded);
    assert_eq!(act, SetupAction::Abort { error: CoreError::HostSetupFailed });
}

#[test]
fn configure_failure_removes_veth_and_reports_container_setup() {
    let (opts, network) = single_v4_request();
    let engine = Core::bridge_per_podman_network(&opts, &network, "/run/netns/p4").unwrap();
    let (engine, _) = engine.step(SetupEvent::Succeeded);
    let (engine, act) = engine.step(SetupEvent::LinkProbed { exists: false });
    let chosen = match act {
        SetupAction::CreateVethPair { host_name, .. } => host_name,
        other => panic!("expected CreateVethPair, got {:?}", other),
    };
    let (engine, _) = engine.step(SetupEvent::Succeeded);
    // The container interface already exists: the in-namespace
    // configuration fails; no silent overwrite.
    let (engine, act) = engine.step(SetupEvent::Failed { source: FailureSource::WorkerOp });
    assert_eq!(act, SetupAction::RemoveHostLink { name: chosen });
    let (_, act) = engine.step(SetupEvent::Succeeded);
    assert_eq!(act, SetupAction::Abort { error: CoreError::ContainerSetupFailed });
}

#[test]
fn cleanup_failure_never_masks_the_original_error() {
    let (opts, network) = single_v4_request();
    let engine = Core::bridge_per_podman_network(&opts, &network, "/run/netns/p2b").unwrap();
    let (engine, _) = engine.step(SetupEvent::Succeeded);
    let (engine, _) = engine.step(SetupEvent::LinkProbed { exists: false });
    let (engine, _) = engine.step(SetupEvent::Failed { source: FailureSource::HostOp });
    let (_, act) = engine.step(SetupEvent::Failed { source: FailureSource::HostOp });
    assert_eq!(act, SetupAction::Abort { error: CoreError::HostSetupFailed });
}

#[test]
fn namespace_entry_and_join_failures_are_told_apart() {
    let (opts, network) = single_v4_request();
    for (source, expected) in [
        (FailureSource::NetnsOpen, CoreError::NamespaceEntryFailed),
        (FailureSource::Reassociate, CoreError::NamespaceEntryFailed),
        (FailureSource::WorkerJoin, CoreError::JoinFailed),
        (FailureSource::WorkerOp, CoreError::ContainerSetupFailed),
    ] {
        let engine = Core::bridge_per_podman_network(&opts, &network, "/run/netns/e").unwrap();
        let (engine, _) = engine.step(SetupEvent::Succeeded);
        let (engine, _) = engine.step(SetupEvent::LinkProbed { exists: false });
        let (engine, _) = engine.step(SetupEvent::Succeeded);
        let (engine, _) = engine.step(SetupEvent::Failed { source });
        let (_, act) = engine.step(SetupEvent::Succeeded);
        assert_eq!(act, SetupAction::Abort { error: expected });
    }
}

#[test]
fn name_collisions_retry_then_give_up() {
    let (opts, network) = single_v4_request();
    let engine = Core::bridge_per_podman_network(&opts, &network, "/run/netns/r").unwrap();
    let (mut engine, mut act) = engine.step(SetupEvent::Succeeded);
    let mut probes = 1;
    loop {
        match act {
            SetupAction::ProbeLink { ref name } => {
                assert_veth_shaped(name);
                let r = engine.step(SetupEvent::LinkProbed { exists: true });
                engine = r.0;
                act = r.1;
                if matches!(act, SetupAction::ProbeLink { .. }) {
                    probes += 1;
                }
            }
            SetupAction::Abort { error } => {
                assert_eq!(error, CoreError::HostSetupFailed);
                break;
            }
            other => panic!("expected ProbeLink or Abort, got {:?}", other),
        }
    }
    assert_eq!(probes, 16);
}

#[test]
fn bridge_mode_matches_macvlan_mode_nowhere() {
    let (opts, network) = single_v4_request();
    let engine = Core::bridge_per_podman_network(&opts, &network, "/run/netns/m").unwrap();
    assert_eq!(engine.cfg.mode, SetupMode::Bridge);
}

#[test]
fn setup_twice_succeeds_while_the_interface_is_free() {
    // Against an already-configured bridge the run is the same: every
    // step is idempotent as long as the container interface is free.
    for _ in 0..2 {
        let (opts, network) = single_v4_request();
        let engine = Core::bridge_per_podman_network(&opts, &network, "/run/netns/i").unwrap();
        let (engine, _) = engine.step(SetupEvent::Succeeded);
        let (engine, _) = engine.step(SetupEvent::LinkProbed { exists: false });
        let (engine, _) = engine.step(SetupEvent::Succeeded);
        let (_, act) = engine.step(SetupEvent::Configured { mac: String::from("02:aa:bb:cc:dd:ee") });
        assert!(matches!(act, SetupAction::Complete { .. }));
    }
}

#[test]
fn round_trip_removes_what_setup_configured() {
    let (opts, network) = single_v4_request();
    let engine = Core::bridge_per_podman_network(&opts, &network, "/run/netns/rt").unwrap();
    let (engine, _) = engine.step(SetupEvent::Succeeded);
    let (engine, _) = engine.step(SetupEvent::LinkProbed { exists: false });
    let (_, act) = engine.step(SetupEvent::Succeeded);
    let configured = match act {
        SetupAction::ConfigureInNetns { ifname, .. } => ifname,
        other => panic!("expected ConfigureInNetns, got {:?}", other),
    };
    // Teardown for the same options targets exactly that interface and
    // emits no host-side action, so a pre-existing bridge stays.
    let t = Core::remove_interface_per_podman_network(&opts, &network, "/run/netns/rt").unwrap();
    assert_eq!(t.ifname, configured);
}

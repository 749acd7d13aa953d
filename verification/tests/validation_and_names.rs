use netavark::ip::{IpAddress, IpNet};
use netavark::name::{draw_name_pool, veth_name, VETH_NAME_ATTEMPTS};
use netavark::setup::Core;
use netavark::types::{CoreError, Network, PerNetworkOptions, Subnet};

fn v4(a: u8, b: u8, c: u8, d: u8) -> IpAddress {
    IpAddress::V4(u32::from_be_bytes([a, b, c, d]))
}

fn net4(a: u8, b: u8, c: u8, d: u8, prefix: u8) -> IpNet {
    IpNet { addr: v4(a, b, c, d), prefix_len: prefix }
}

fn one_subnet_network() -> Network {
    Network {
        network_interface: Some(String::from("cni0")),
        subnets: Some(vec![Subnet {
            subnet: net4(10, 0, 0, 0, 24),
            gateway: Some(v4(10, 0, 0, 1)),
        }]),
    }
}

#[test]
fn length_mismatch_is_an_invalid_request() {
    let opts = PerNetworkOptions {
        interface_name: String::from("eth0"),
        static_ips: Some(vec![v4(10, 0, 0, 2), v4(10, 0, 0, 3)]),
    };
    let network = one_subnet_network();
    let r = Core::bridge_per_podman_network(&opts, &network, "/run/netns/s4");
    assert_eq!(r.err(), Some(CoreError::InvalidRequest));
    let r = Core::macvlan_per_podman_network(&opts, &network, "/run/netns/s4");
    assert_eq!(r.err(), Some(CoreError::InvalidRequest));
}

#[test]
fn missing_interface_name_is_an_invalid_request() {
    let opts = PerNetworkOptions {
        interface_name: String::from("eth0"),
        static_ips: Some(vec![v4(10, 0, 0, 2)]),
    };
    let mut network = one_subnet_network();
    network.network_interface = None;
    let r = Core::bridge_per_podman_network(&opts, &network, "/run/netns/v");
    assert_eq!(r.err(), Some(CoreError::InvalidRequest));
}

#[test]
fn missing_static_ips_is_an_invalid_request() {
    let opts = PerNetworkOptions { interface_name: String::from("eth0"), static_ips: None };
    let network = one_subnet_network();
    let r = Core::bridge_per_podman_network(&opts, &network, "/run/netns/v");
    assert_eq!(r.err(), Some(CoreError::InvalidRequest));
}

#[test]
fn family_mismatch_is_an_invalid_request() {
    let opts = PerNetworkOptions {
        interface_name: String::from("eth0"),
        static_ips: Some(vec![IpAddress::V6(1)]),
    };
    let network = one_subnet_network();
    let r = Core::bridge_per_podman_network(&opts, &network, "/run/netns/v");
    assert_eq!(r.err(), Some(CoreError::InvalidRequest));
}

#[test]
fn gateway_family_mismatch_is_an_invalid_request() {
    let opts = PerNetworkOptions {
        interface_name: String::from("eth0"),
        static_ips: Some(vec![v4(10, 0, 0, 2)]),
    };
    let network = Network {
        network_interface: Some(String::from("cni0")),
        subnets: Some(vec![Subnet {
            subnet: net4(10, 0, 0, 0, 24),
            gateway: Some(IpAddress::V6(1)),
        }]),
    };
    let r = Core::bridge_per_podman_network(&opts, &network, "/run/netns/v");
    assert_eq!(r.err(), Some(CoreError::InvalidRequest));
}

#[test]
fn absent_subnet_list_needs_an_empty_address_list() {
    let network = Network { network_interface: Some(String::from("cni0")), subnets: None };
    let with_ip = PerNetworkOptions {
        interface_name: String::from("eth0"),
        static_ips: Some(vec![v4(10, 0, 0, 2)]),
    };
    assert_eq!(
        Core::bridge_per_podman_network(&with_ip, &network, "/run/netns/v").err(),
        Some(CoreError::InvalidRequest)
    );
    let without_ip = PerNetworkOptions {
        interface_name: String::from("eth0"),
        static_ips: Some(vec![]),
    };
    assert!(Core::bridge_per_podman_network(&without_ip, &network, "/run/netns/v").is_ok());
}

#[test]
fn ip_net_new_checks_the_prefix_length() {
    assert_eq!(
        IpNet::new(v4(10, 0, 0, 1), 24),
        Some(IpNet { addr: v4(10, 0, 0, 1), prefix_len: 24 })
    );
    assert_eq!(IpNet::new(v4(10, 0, 0, 1), 32), Some(net4(10, 0, 0, 1, 32)));
    assert_eq!(IpNet::new(v4(10, 0, 0, 1), 33), None);
    assert!(IpNet::new(IpAddress::V6(1), 128).is_some());
    assert!(IpNet::new(IpAddress::V6(1), 129).is_none());
}

#[test]
fn veth_name_renders_eight_lowercase_hex_digits() {
    assert_eq!(veth_name(0), "veth00000000");
    assert_eq!(veth_name(0x89abcdef), "veth89abcdef");
    assert_eq!(veth_name(0x01234567), "veth01234567");
    assert_eq!(veth_name(0xffffffff), "vethffffffff");
    assert_eq!(veth_name(0x0000002a), "veth0000002a");
}

#[test]
fn name_pool_holds_sixteen_candidates() {
    let pool = draw_name_pool();
    assert_eq!(pool.len(), VETH_NAME_ATTEMPTS);
    for name in &pool {
        assert_eq!(name.len(), 12);
        assert!(name.starts_with("veth"));
        assert!(name[4..].chars().all(|c| c.is_ascii_hexdigit() && !c.is_ascii_uppercase()));
    }
}

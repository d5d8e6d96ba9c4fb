use toy_container::net::{
    address_from_octets, bring_up_container_net, cleanup_network, create_bridge,
    create_veth_pair, dotted_quad_string, ips_from_cidr, move_into_container,
    setup_network_host, Ipv4Network, NetError, BRIDGE_NAME, VETH_CONTAINER, VETH_HOST,
};
use toy_container::plan::{Op, Step};

fn ip(args: &[&str]) -> Step {
    Step {
        op: Op::Ip { args: args.iter().map(|a| a.to_string()).collect() },
        required: true,
    }
}

fn default_network() -> Ipv4Network {
    Ipv4Network::new(address_from_octets(192, 168, 200, 0), 24).expect("a /24 network")
}

#[test]
fn names_of_the_devices() {
    assert_eq!(BRIDGE_NAME, "br0");
    assert_eq!(VETH_HOST, "veth0h0");
    assert_eq!(VETH_CONTAINER, "veth0c0");
}

#[test]
fn addresses_are_the_second_and_third_host_address() {
    let ips = ips_from_cidr(&default_network()).expect("a /24 has host addresses");
    assert_eq!(ips.0, address_from_octets(192, 168, 200, 2));
    assert_eq!(ips.1, address_from_octets(192, 168, 200, 3));
    assert_eq!(dotted_quad_string(ips.0), "192.168.200.2");
    assert_eq!(dotted_quad_string(ips.1), "192.168.200.3");
}

#[test]
fn addresses_agree_with_the_walk_through_the_network() {
    for text in ["192.168.200.0/24", "10.0.0.0/8", "172.16.4.48/28", "0.0.0.0/0", "10.1.2.4/30"] {
        let parsed: cidr::Ipv4Cidr = text.parse().expect("a network");
        let network =
            Ipv4Network::new(u32::from(parsed.first_address()), parsed.network_length())
                .expect("a network");
        let mut walk = parsed.iter().addresses();
        assert_eq!(walk.next().map(u32::from), Some(network.first_address()));
        walk.next();
        let host = walk.next().map(u32::from).expect("a host address");
        let container = walk.next().map(u32::from).expect("a container address");
        assert_eq!(ips_from_cidr(&network), Ok((host, container)), "{}", text);
    }
}

#[test]
fn small_networks_have_no_addresses_to_give() {
    let pair = Ipv4Network::new(address_from_octets(10, 0, 0, 2), 31).expect("a /31 network");
    assert_eq!(ips_from_cidr(&pair), Err(NetError::NoHostAddress));
    let single = Ipv4Network::new(address_from_octets(10, 0, 0, 3), 32).expect("a /32 network");
    assert_eq!(ips_from_cidr(&single), Err(NetError::NoHostAddress));
    let four = Ipv4Network::new(address_from_octets(10, 0, 0, 4), 30).expect("a /30 network");
    assert_eq!(
        ips_from_cidr(&four),
        Ok((address_from_octets(10, 0, 0, 6), address_from_octets(10, 0, 0, 7)))
    );
    assert_eq!(setup_network_host(&pair), Err(NetError::NoHostAddress));
    assert_eq!(bring_up_container_net(&single, false), Err(NetError::NoHostAddress));
    assert_eq!(bring_up_container_net(&pair, true), Err(NetError::NoHostAddress));
}

#[test]
fn a_network_starts_at_its_first_address() {
    assert!(Ipv4Network::new(address_from_octets(192, 168, 200, 0), 24).is_some());
    assert!(Ipv4Network::new(address_from_octets(192, 168, 200, 1), 24).is_none());
    assert!(Ipv4Network::new(address_from_octets(192, 168, 200, 128), 25).is_some());
    assert!(Ipv4Network::new(address_from_octets(192, 168, 200, 128), 24).is_none());
    assert!(Ipv4Network::new(0, 0).is_some());
    assert!(Ipv4Network::new(1, 0).is_none());
    assert!(Ipv4Network::new(u32::MAX, 32).is_some());
    assert!(Ipv4Network::new(0, 33).is_none());
    assert!(Ipv4Network::new(0, 255).is_none());
    let network = default_network();
    assert_eq!(network.first_address(), 0xC0A8_C800);
    assert_eq!(network.network_length(), 24);
}

#[test]
fn a_network_is_one_to_the_outside_crate_too() {
    for (base, len) in [
        (0xC0A8_C800u32, 24u8),
        (0xC0A8_C801, 24),
        (0, 0),
        (1, 0),
        (u32::MAX, 32),
        (0, 33),
        (0x8000_0000, 1),
        (0x4000_0000, 1),
    ] {
        let theirs = cidr::Ipv4Cidr::new(base.into(), len).is_ok();
        assert_eq!(Ipv4Network::new(base, len).is_some(), theirs, "{:#x}/{}", base, len);
    }
}

#[test]
fn dotted_quads() {
    assert_eq!(dotted_quad_string(0), "0.0.0.0");
    assert_eq!(dotted_quad_string(u32::MAX), "255.255.255.255");
    assert_eq!(dotted_quad_string(address_from_octets(10, 20, 30, 40)), "10.20.30.40");
    assert_eq!(address_from_octets(1, 2, 3, 4), 0x0102_0304);
}

#[test]
fn bridge_is_created_addressed_and_brought_up() {
    assert_eq!(
        create_bridge(address_from_octets(192, 168, 200, 2)),
        vec![
            ip(&["link", "add", "name", "br0", "type", "bridge"]),
            ip(&["addr", "add", "192.168.200.2/24", "dev", "br0"]),
            ip(&["link", "set", "dev", "br0", "up"]),
        ]
    );
}

#[test]
fn veth_pair_is_created_and_attached() {
    assert_eq!(
        create_veth_pair(),
        vec![
            ip(&["link", "add", "name", "veth0h0", "type", "veth", "peer", "name", "veth0c0"]),
            ip(&["link", "set", "dev", "veth0h0", "up"]),
            ip(&["link", "set", "dev", "veth0h0", "master", "br0"]),
        ]
    );
}

#[test]
fn container_side_moves_to_the_child() {
    assert_eq!(
        move_into_container(31337),
        vec![ip(&["link", "set", "dev", "veth0c0", "netns", "31337"])]
    );
}

#[test]
fn host_setup_is_bridge_then_veth() {
    let plan = setup_network_host(&default_network()).expect("a plan");
    let mut expected = create_bridge(address_from_octets(192, 168, 200, 2));
    expected.extend(create_veth_pair());
    assert_eq!(plan, expected);
    assert_eq!(plan.len(), 6);
    assert_eq!(plan[1], ip(&["addr", "add", "192.168.200.2/24", "dev", "br0"]));
}

#[test]
fn container_network_as_root() {
    assert_eq!(
        bring_up_container_net(&default_network(), true),
        Ok(vec![
            ip(&["addr", "add", "192.168.200.3/24", "dev", "veth0c0"]),
            ip(&["link", "set", "dev", "veth0c0", "up"]),
            ip(&["route", "add", "default", "via", "192.168.200.2", "dev", "veth0c0"]),
            ip(&["link", "set", "dev", "lo", "up"]),
        ])
    );
}

#[test]
fn container_network_without_root_is_loopback_only() {
    assert_eq!(
        bring_up_container_net(&default_network(), false),
        Ok(vec![ip(&["link", "set", "dev", "lo", "up"])])
    );
}

#[test]
fn cleanup_deletes_the_bridge_and_may_fail() {
    assert_eq!(
        cleanup_network(),
        vec![Step {
            op: Op::Ip { args: vec!["link".to_string(), "delete".to_string(), "br0".to_string()] },
            required: false,
        }]
    );
}

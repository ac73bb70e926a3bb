use nodenet_native::discovery::InterfaceAddressEntry;
use nodenet_native::discovery_plan::{
    DiscoveryScopeSelection, ValidatedDiscoveryOperation, ValidatedDiscoveryPlan,
};
use nodenet_native::discovery_products::{
    compare_targets, discovery_products, eligible_interfaces, query_setup, resolve_targets,
    AddressFamilies, DiscoveryEndpoint, NetworkInterface, QueryContextKind, QueryProduct,
    SocketEndpoint,
};
use nodenet_native::discovery_order::Precedence;
use nodenet_native::observation::{
    decode_link_header, observation_row, NativeObservationMetadataField, PassiveMetadata,
    PassiveProtocol, TransportFields,
};
use nodenet_native::results::IpAddress;

const MDNS_V4: [u8; 4] = [224, 0, 0, 251];
const MDNS_V6: [u8; 16] = [0xff, 0x02, 0, 0, 0, 0, 0, 0, 0, 0, 0, 0, 0, 0, 0, 0xfb];
const LINK_LOCAL: [u8; 16] = [0xfe, 0x80, 0, 0, 0, 0, 0, 0, 0, 0, 0, 0, 0, 0, 0, 1];

fn endpoints() -> Vec<DiscoveryEndpoint> {
    vec![
        DiscoveryEndpoint {
            id: 1,
            families: AddressFamilies::Both,
            destination_port: 5353,
            ipv4_multicast: Some(MDNS_V4),
            ipv6_multicast: Some(MDNS_V6),
        },
        DiscoveryEndpoint {
            id: 5,
            families: AddressFamilies::Ipv4,
            destination_port: 5351,
            ipv4_multicast: None,
            ipv6_multicast: None,
        },
        DiscoveryEndpoint {
            id: 7,
            families: AddressFamilies::Both,
            destination_port: 111,
            ipv4_multicast: None,
            ipv6_multicast: None,
        },
    ]
}

fn interface(index: u32, name: &str, flags: u32) -> NetworkInterface {
    NetworkInterface { index, name: name.into(), flags }
}

fn entry(interface_index: u32, address: IpAddress) -> InterfaceAddressEntry {
    InterfaceAddressEntry {
        family: match address {
            IpAddress::V4(_) => 2,
            IpAddress::V6(_) => 10,
        },
        interface_index,
        local: None,
        address: Some(address),
        prefix_length: match address {
            IpAddress::V4(_) => 24,
            IpAddress::V6(_) => 64,
        },
    }
}

fn operation(id: u16) -> ValidatedDiscoveryOperation {
    ValidatedDiscoveryOperation { id, query: None, follow_up: false }
}

fn plan(scope: DiscoveryScopeSelection, ids: &[u16]) -> ValidatedDiscoveryPlan {
    ValidatedDiscoveryPlan {
        scope,
        operations: ids.iter().map(|id| operation(*id)).collect(),
        deadline_ms: 5_000,
        max_results: 8_192,
        max_metadata_bytes: 16_777_216,
        packets_per_second: 100,
        burst: 16,
        allow_risks: 0,
    }
}

fn links(names: &[&str]) -> DiscoveryScopeSelection {
    DiscoveryScopeSelection::Links {
        interfaces: names.iter().map(|n| n.to_string()).collect(),
        ipv4: true,
        ipv6: true,
    }
}

fn summary(p: &QueryProduct) -> (usize, IpAddress, u16, u32, IpAddress, Option<u32>) {
    (
        p.operation,
        p.destination.address,
        p.destination.port,
        p.destination.scope_id,
        p.source.address,
        p.interface_index,
    )
}

#[test]
fn a_link_scope_queries_each_multicast_group_from_the_interface() {
    let interfaces = vec![interface(2, "eth0", 1)];
    let entries = vec![
        entry(2, IpAddress::V4([192, 168, 1, 5])),
        entry(2, IpAddress::V6(LINK_LOCAL)),
    ];
    let products = discovery_products(
        &plan(links(&["eth0"]), &[1]),
        &endpoints(),
        &interfaces,
        &entries,
        &Vec::new(),
        None,
        false,
    )
    .unwrap();
    let summaries: Vec<_> = products.iter().map(summary).collect();
    assert_eq!(
        summaries,
        vec![
            (0, IpAddress::V4(MDNS_V4), 5353, 0, IpAddress::V4([192, 168, 1, 5]), Some(2)),
            (0, IpAddress::V6(MDNS_V6), 5353, 2, IpAddress::V6(LINK_LOCAL), Some(2)),
        ]
    );
    assert!(products.iter().all(|p| p.expected_target.is_none() && p.source.port == 0));
}

#[test]
fn a_link_scope_fails_on_an_absent_interface_or_missing_family() {
    let interfaces = vec![interface(2, "eth0", 1)];
    let entries = vec![entry(2, IpAddress::V4([192, 168, 1, 5]))];
    let error = discovery_products(
        &plan(links(&["eth9"]), &[1]),
        &endpoints(),
        &interfaces,
        &entries,
        &Vec::new(),
        None,
        false,
    )
    .unwrap_err();
    assert_eq!(error.code, "ERR_ROUTE_CONTEXT");
    assert_eq!(error.message, "interface eth9 is absent");
    let error = discovery_products(
        &plan(links(&["eth0"]), &[1]),
        &endpoints(),
        &interfaces,
        &entries,
        &Vec::new(),
        None,
        false,
    )
    .unwrap_err();
    assert_eq!(error.message, "interface eth0 has no IPv6 address");
    let error = discovery_products(
        &plan(links(&["eth0"]), &[9]),
        &endpoints(),
        &interfaces,
        &entries,
        &Vec::new(),
        None,
        false,
    )
    .unwrap_err();
    assert_eq!(error.code, "ERR_INTERNAL");
}

#[test]
fn all_eligible_takes_up_non_loopback_interfaces_sorted_by_name() {
    let interfaces = vec![
        interface(3, "eth1", 1),
        interface(1, "lo", 1 | 8),
        interface(4, "eth2", 0),
        interface(2, "eth0", 1),
        interface(5, "eth3", 1),
    ];
    let entries = vec![
        entry(1, IpAddress::V4([127, 0, 0, 1])),
        entry(2, IpAddress::V4([192, 168, 1, 5])),
        entry(3, IpAddress::V4([192, 168, 2, 5])),
        entry(4, IpAddress::V4([192, 168, 3, 5])),
    ];
    let names = eligible_interfaces(&interfaces, &entries, true, false).unwrap();
    assert_eq!(names, vec!["eth0".to_string(), "eth1".to_string()]);
    let scope = DiscoveryScopeSelection::Links { interfaces: Vec::new(), ipv4: true, ipv6: false };
    let products = discovery_products(
        &plan(scope, &[1]),
        &endpoints(),
        &interfaces,
        &entries,
        &Vec::new(),
        None,
        false,
    )
    .unwrap();
    let bound: Vec<_> = products.iter().map(|p| p.interface_index).collect();
    assert_eq!(bound, vec![Some(2), Some(3)]);
    let error = eligible_interfaces(&interfaces, &entries, false, true).unwrap_err();
    assert_eq!(
        error.message,
        "allEligible selected zero or more than 16 eligible interfaces"
    );
}

#[test]
fn targets_are_ordered_deduplicated_and_gain_the_gateway() {
    let a = (IpAddress::V4([192, 0, 2, 20]), None);
    let b = (IpAddress::V4([192, 0, 2, 3]), Some(2));
    let c = (IpAddress::V6(LINK_LOCAL), Some(2));
    let gateway = (IpAddress::V4([192, 0, 2, 1]), Some(2));
    let resolved = resolve_targets(&vec![c, a, b, a], true, Some(gateway), false).unwrap();
    assert_eq!(resolved, vec![gateway, b, a, c]);
    let resolved = resolve_targets(&vec![a], true, Some(gateway), true).unwrap();
    assert_eq!(resolved, vec![a]);
    let error = resolve_targets(&vec![a], true, None, false).unwrap_err();
    assert_eq!(error.message, "no kernel-selected IPv4 gateway is available");
    let error = resolve_targets(&Vec::new(), true, Some(gateway), true).unwrap_err();
    assert_eq!(error.message, "discovery exclusions removed every target");
    assert_eq!(compare_targets(&b, &a), Precedence::Before);
    assert_eq!(compare_targets(&a, &(IpAddress::V4([192, 0, 2, 20]), Some(1))), Precedence::Before);
    assert_eq!(compare_targets(&c, &a), Precedence::After);
}

#[test]
fn a_target_scope_queries_served_families_and_checks_nat_pmp_links() {
    let v4 = (IpAddress::V4([192, 168, 1, 1]), None);
    let v6 = (IpAddress::V6(LINK_LOCAL), Some(2));
    let entries = vec![entry(2, IpAddress::V4([192, 168, 1, 5]))];
    let targets = DiscoveryScopeSelection::Targets {
        ipv4: true,
        ipv6: true,
        kernel_default_ipv4_gateway: false,
    };
    let products = discovery_products(
        &plan(targets.clone(), &[7]),
        &endpoints(),
        &Vec::new(),
        &entries,
        &vec![v6, v4],
        None,
        false,
    )
    .unwrap();
    let summaries: Vec<_> = products.iter().map(summary).collect();
    assert_eq!(
        summaries,
        vec![
            (0, v4.0, 111, 0, IpAddress::V4([0, 0, 0, 0]), None),
            (0, v6.0, 111, 2, IpAddress::V6([0; 16]), Some(2)),
        ]
    );
    assert!(products.iter().all(|p| p.expected_target == Some(p.destination.address)));
    let nat_pmp = discovery_products(
        &plan(targets.clone(), &[5]),
        &endpoints(),
        &Vec::new(),
        &entries,
        &vec![v4],
        None,
        false,
    )
    .unwrap();
    assert_eq!(nat_pmp.len(), 1);
    let error = discovery_products(
        &plan(targets, &[5]),
        &endpoints(),
        &Vec::new(),
        &entries,
        &vec![(IpAddress::V4([10, 0, 0, 1]), None)],
        None,
        false,
    )
    .unwrap_err();
    assert_eq!(
        error.message,
        "explicit NAT-PMP targets must be on a directly attached IPv4 link"
    );
}

#[test]
fn an_observed_frame_row_takes_the_passive_protocol_and_checksum_field() {
    let mut frame = vec![0xff; 6];
    frame.extend_from_slice(&[2, 0, 0, 0, 0, 1]);
    frame.extend_from_slice(&[0x81, 0x00, 0x20, 0x05, 0x08, 0x00]);
    let link = decode_link_header(&frame);
    assert_eq!(link.vlan_ids, vec![5]);
    let network = TransportFields {
        protocol: "udp".into(),
        source_address: Some("192.0.2.1".into()),
        destination_address: Some("224.0.0.251".into()),
        source_port: Some(5353),
        destination_port: Some(5353),
    };
    let passive = PassiveMetadata {
        protocol: PassiveProtocol::Mdns,
        fields: vec![NativeObservationMetadataField { key: "name".into(), value: b"x".to_vec() }],
    };
    let row = observation_row(
        link,
        network,
        Some(passive),
        0x80,
        120,
        100,
        3,
        4,
        "17".into(),
        None,
    );
    assert_eq!(row.protocol, "mdns");
    assert_eq!(row.direction, "outgoing");
    assert_eq!(row.ether_type, 0x0800);
    assert_eq!(row.source_mac, vec![2, 0, 0, 0, 0, 1]);
    assert!(row.truncated);
    assert_eq!(row.original_length, 120);
    assert_eq!(row.captured_length, 100);
    assert_eq!(row.source_port, Some(5353));
    assert_eq!(
        row.metadata,
        vec![
            NativeObservationMetadataField { key: "name".into(), value: b"x".to_vec() },
            NativeObservationMetadataField {
                key: "transportChecksumStatus".into(),
                value: b"kernelValidated".to_vec(),
            },
        ]
    );
    let bare = TransportFields {
        protocol: "arp".into(),
        source_address: None,
        destination_address: None,
        source_port: None,
        destination_port: None,
    };
    let row = observation_row(decode_link_header(&[]), bare, None, 0x80, 60, 60, 3, 0, "1".into(), None);
    assert_eq!(row.protocol, "arp");
    assert_eq!(row.direction, "incoming");
    assert!(row.metadata.is_empty());
    assert!(!row.truncated);
}

#[test]
fn query_setup_follows_the_operation_and_destination() {
    let group = SocketEndpoint { address: IpAddress::V4(MDNS_V4), port: 5353, scope_id: 0 };
    let setup = query_setup(1, &group).unwrap();
    assert_eq!(setup.multicast_hops, Some(255));
    assert_eq!(setup.context, QueryContextKind::Mdns);
    let six = SocketEndpoint { address: IpAddress::V6(MDNS_V6), port: 5355, scope_id: 2 };
    let setup = query_setup(4, &six).unwrap();
    assert_eq!(setup.multicast_hops, Some(1));
    assert_eq!(setup.context, QueryContextKind::Llmnr { query_type: 28 });
    let unicast = SocketEndpoint { address: IpAddress::V4([192, 0, 2, 1]), port: 111, scope_id: 0 };
    assert_eq!(query_setup(7, &unicast).unwrap().multicast_hops, None);
    let error = query_setup(2, &unicast).unwrap_err();
    assert_eq!(error.message, "operation is not executable");
}

use nodenet_native::discovery_products::AddressFamilies;
use nodenet_native::probe::{UdpFallback, UdpProfile};
use nodenet_native::udp_program::{catalogue_program, CatalogueEntry, Eligibility};

fn probe(id: u16, profile: UdpProfile, intensity: u8, risks: u8, families: AddressFamilies) -> CatalogueEntry {
    CatalogueEntry {
        id,
        builder: Some(id + 100),
        profile,
        minimum_intensity: intensity,
        risks,
        ephemeral_source: true,
        request_tuple_only: true,
        ports: vec![(53, 53), (5000, 5010)],
        families,
        maximum_response_bytes: 512,
        maximum_parser_bytes: 1024,
        maximum_state_lifetime_ms: 3_000,
        service_family: 9,
    }
}

#[test]
fn the_catalogue_programme_keeps_selected_probes_per_family() {
    let catalogue = vec![
        probe(1, UdpProfile::Safe, 1, 0, AddressFamilies::Both),
        probe(2, UdpProfile::Comprehensive, 1, 0, AddressFamilies::Ipv4),
        probe(3, UdpProfile::Safe, 9, 0, AddressFamilies::Both),
        probe(4, UdpProfile::Safe, 1, 0b10, AddressFamilies::Ipv6),
    ];
    let program = catalogue_program(&catalogue, UdpProfile::Safe, 7, 0, UdpFallback::Unmapped).unwrap();
    let v4: Vec<_> = program.ipv4.iter().map(|r| (r.catalogue_probe_id, r.eligibility)).collect();
    assert_eq!(
        v4,
        vec![
            (Some(1), Eligibility::DestinationPort(53)),
            (Some(1), Eligibility::DestinationPortRange(5000, 5010)),
            (None, Eligibility::UnmappedFallback),
        ]
    );
    assert_eq!(program.ipv6.len(), 3);
    assert_eq!(program.ipv4[0].builder, Some(101));
    assert_eq!(program.ipv4[0].maximum_response_bytes, 512);

    let wider =
        catalogue_program(&catalogue, UdpProfile::Comprehensive, 9, 0b10, UdpFallback::Never).unwrap();
    let v4: Vec<_> = wider.ipv4.iter().map(|r| r.catalogue_probe_id).collect();
    let v6: Vec<_> = wider.ipv6.iter().map(|r| r.catalogue_probe_id).collect();
    assert_eq!(v4, vec![Some(1), Some(1), Some(2), Some(2), Some(3), Some(3)]);
    assert_eq!(v6, vec![Some(1), Some(1), Some(3), Some(3), Some(4), Some(4)]);

    let after = catalogue_program(&[], UdpProfile::Safe, 7, 0, UdpFallback::AfterProtocol).unwrap();
    assert_eq!(after.ipv4.len(), 1);
    assert_eq!(after.ipv4[0].eligibility, Eligibility::AfterProgrammeFallback);
}

#[test]
fn unsupported_endpoint_policies_and_unknown_builders_are_handled() {
    let mut fixed = probe(1, UdpProfile::Safe, 1, 0, AddressFamilies::Both);
    fixed.ephemeral_source = false;
    let error = catalogue_program(&[fixed.clone()], UdpProfile::Safe, 7, 0, UdpFallback::Never).unwrap_err();
    assert_eq!(error.code, "ERR_UNSUPPORTED");
    let ignored = catalogue_program(&[fixed], UdpProfile::Safe, 0, 0, UdpFallback::Never).unwrap();
    assert!(ignored.ipv4.is_empty());
    let mut unknown = probe(2, UdpProfile::Safe, 1, 0, AddressFamilies::Both);
    unknown.builder = None;
    let program = catalogue_program(&[unknown], UdpProfile::Safe, 7, 0, UdpFallback::Never).unwrap();
    assert!(program.ipv4.is_empty() && program.ipv6.is_empty());
    let mut zero = probe(3, UdpProfile::Safe, 1, 0, AddressFamilies::Both);
    zero.ports = vec![(0, 10)];
    let error = catalogue_program(&[zero], UdpProfile::Safe, 7, 0, UdpFallback::Never).unwrap_err();
    assert_eq!(error.message, "catalogue port must be from 1 through 65535");
}

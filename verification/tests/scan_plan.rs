use nodenet_native::discovery_products::AddressFamilies;
use nodenet_native::plan::{
    NativePortSelection, NativeRateOptions, NativeScanPlan, NativeScanProbe, NativeScanTarget,
    NativeTimingOptions, NativeVlanOptions, MAX_UDP_USER_PAYLOAD_BYTES,
};
use nodenet_native::probe::{PayloadFamily, PayloadMode, UdpCorrelation, UdpPolicy, UdpProfile};
use nodenet_native::results::ProbeFamily;
use nodenet_native::scan_plan::{validate_scan_plan, ValidatedScanPlan};
use nodenet_native::scan_error::ScannerError;
use nodenet_native::udp_program::CatalogueEntry;

fn udp_plan(payload_bytes: usize) -> NativeScanPlan {
    NativeScanPlan {
        targets: vec![NativeScanTarget {
            cidr: Some("127.0.0.1/32".into()),
            start: None,
            end: None,
        }],
        exclude: None,
        probes: vec![NativeScanProbe {
            kind: "udp".into(),
            family: None,
            ports: Some(vec![NativePortSelection { start: 7, end: 7 }]),
            payload: Some(vec![0; payload_bytes]),
            udp_mode: None,
            udp_profile: None,
            udp_intensity: None,
            udp_strategy: None,
            udp_empty_fallback: None,
            udp_allow_risks: None,
            udp_correlation: None,
        }],
        deadline_ms: 1_000,
        rate: Some(NativeRateOptions {
            packets_per_second: Some(1),
            burst: Some(1),
            max_outstanding: Some(1),
        }),
        timing: None,
        seed: None,
        source_address: None,
        interface: None,
        vlan: None,
        source_port_start: None,
        source_port_end: None,
    }
}

fn validate(plan: &NativeScanPlan) -> Result<ValidatedScanPlan, ScannerError> {
    validate_scan_plan(plan, &[], false, true)
}

fn stateful_entry() -> CatalogueEntry {
    CatalogueEntry {
        id: 21,
        builder: Some(4),
        profile: UdpProfile::Comprehensive,
        minimum_intensity: 5,
        risks: 2,
        ephemeral_source: true,
        request_tuple_only: true,
        ports: vec![(5060, 5060)],
        families: AddressFamilies::Both,
        maximum_response_bytes: 1_500,
        maximum_parser_bytes: 1_500,
        maximum_state_lifetime_ms: 10_000,
        service_family: 9,
    }
}

#[test]
fn udp_payload_limit_accounts_for_every_ipv4_wire_header() {
    assert!(validate(&udp_plan(MAX_UDP_USER_PAYLOAD_BYTES)).is_ok());
    let error = validate(&udp_plan(MAX_UDP_USER_PAYLOAD_BYTES + 1))
        .err()
        .expect("oversized UDP payload must fail before session admission");
    assert_eq!(error.operation, "validate UDP payload");
}

#[test]
fn udp_policy_normalizes_exact_and_legacy_programmes() {
    let legacy = validate(&udp_plan(3)).unwrap();
    match legacy.probes.udp_policy {
        Some(UdpPolicy::Payload { mode, correlation, family, payload }) => {
            assert_eq!(mode, PayloadMode::Custom);
            assert_eq!(family, PayloadFamily::Both);
            assert_eq!(correlation, UdpCorrelation::PrefixToken);
            assert_eq!(payload, vec![0; 3]);
        }
        _ => panic!("a payload implies the prefix-token payload policy"),
    }

    let mut exact = udp_plan(3);
    exact.probes[0].udp_mode = Some("custom".into());
    exact.probes[0].udp_correlation = Some("tuple".into());
    let exact = validate(&exact).unwrap();
    match exact.probes.udp_policy {
        Some(UdpPolicy::Payload { correlation, payload, .. }) => {
            assert_eq!(payload, [0; 3]);
            assert_eq!(correlation, UdpCorrelation::Tuple);
        }
        _ => panic!("custom mode keeps its payload"),
    }

    let mut empty = udp_plan(0);
    empty.probes[0].udp_mode = Some("empty".into());
    let empty = validate(&empty).unwrap();
    match empty.probes.udp_policy {
        Some(UdpPolicy::Payload { mode, correlation, payload, .. }) => {
            assert_eq!(mode, PayloadMode::Empty);
            assert!(payload.is_empty());
            assert_eq!(correlation, UdpCorrelation::Tuple);
        }
        _ => panic!("empty mode is a payload policy"),
    }
}

#[test]
fn admitted_plan_fills_defaults_and_reports_schema_one_without_catalogue() {
    let plan = validate(&udp_plan(3)).unwrap();
    assert_eq!(plan.probes.selections.len(), 1);
    assert_eq!(plan.probes.selections[0].family, ProbeFamily::Udp);
    assert_eq!(plan.probes.selections[0].ports, vec![7]);
    assert!(plan.probes.udp_catalogue.is_none());
    assert_eq!(plan.scheduler.max_outstanding, 1);
    assert_eq!(plan.scheduler.maximum_timeout_ms, 10_000);
    assert_eq!((plan.source_port_start, plan.source_port_end), (49_152, 65_535));
    assert!(plan.vlan.is_none());
    assert_eq!(plan.seed, 0);
    assert_eq!(plan.result_schema_version, 1);
}

#[test]
fn zero_deadline_is_refused_first() {
    let mut plan = udp_plan(MAX_UDP_USER_PAYLOAD_BYTES + 1);
    plan.deadline_ms = 0;
    let error = validate(&plan).unwrap_err();
    assert_eq!(error.operation, "validate scan plan");
    assert_eq!(error.message, "deadlineMs must be greater than zero");
}

#[test]
fn second_udp_probe_is_refused() {
    let mut duplicate = udp_plan(0);
    duplicate.probes.push(duplicate.probes[0].clone());
    let error = validate(&duplicate).err().expect("duplicate UDP definitions must fail");
    assert_eq!(error.operation, "validate scan probes");
    assert_eq!(error.message, "a scan plan may contain exactly one UDP probe definition");
}

#[test]
fn catalogue_policy_builds_its_programme_and_reports_schema_two() {
    let mut plan = udp_plan(0);
    plan.probes[0].udp_mode = Some("protocol".into());
    plan.probes[0].udp_profile = Some("comprehensive".into());
    plan.probes[0].udp_allow_risks = Some(vec!["statefulHandshake".into()]);
    let catalogue = vec![stateful_entry()];
    let admitted = validate_scan_plan(&plan, &catalogue, false, true).unwrap();
    let programme = admitted.probes.udp_catalogue.expect("catalogue policy has a programme");
    assert_eq!(programme.ipv4.len(), 2);
    assert_eq!(programme.ipv4[0].catalogue_probe_id, Some(21));
    assert_eq!(programme.ipv4[1].catalogue_probe_id, None);
    assert_eq!(admitted.result_schema_version, 2);

    let without = validate_scan_plan(&plan, &[], false, true).unwrap();
    assert_eq!(without.result_schema_version, 1);
}

#[test]
fn stateful_catalogue_lifetime_bounds_the_maximum_timeout() {
    let mut plan = udp_plan(0);
    let probe = &mut plan.probes[0];
    probe.udp_mode = Some("protocol".into());
    probe.udp_profile = Some("comprehensive".into());
    probe.udp_intensity = Some(7);
    probe.udp_allow_risks = Some(vec!["statefulHandshake".into()]);
    plan.timing = Some(NativeTimingOptions {
        timeout_ms: Some(1_000),
        minimum_timeout_ms: Some(100),
        maximum_timeout_ms: Some(10_001),
        retries: Some(0),
        fixed: Some(true),
    });
    let catalogue = vec![stateful_entry()];
    let error = validate_scan_plan(&plan, &catalogue, false, true).unwrap_err();
    assert_eq!(error.operation, "validate UDP timing");
    plan.timing.as_mut().unwrap().maximum_timeout_ms = Some(10_000);
    assert!(validate_scan_plan(&plan, &catalogue, false, true).is_ok());

    let mut duplicate = udp_plan(0);
    duplicate.probes[0].udp_mode = Some("protocol".into());
    duplicate.probes[0].udp_allow_risks =
        Some(vec!["sensitiveRead".into(), "sensitiveRead".into()]);
    assert_eq!(validate(&duplicate).unwrap_err().operation, "validate UDP policy");
}

#[test]
fn multicast_catalogue_targets_need_consent_and_interface() {
    let mut multicast = udp_plan(0);
    multicast.probes[0].udp_mode = Some("protocol".into());
    multicast.probes[0].udp_allow_risks = Some(Vec::new());
    let error = validate_scan_plan(&multicast, &[], true, true).unwrap_err();
    assert_eq!(error.operation, "validate UDP targets");
    assert!(error.message.ends_with("require multicastOrBroadcast consent"));

    multicast.probes[0].udp_allow_risks = Some(vec!["multicastOrBroadcast".into()]);
    let error = validate_scan_plan(&multicast, &[], true, true).unwrap_err();
    assert_eq!(error.operation, "validate UDP targets");
    assert!(error.message.ends_with("require an explicit interface"));

    multicast.interface = Some("fixture0".into());
    assert!(validate_scan_plan(&multicast, &[], true, true).is_ok());

    let payload = udp_plan(4);
    assert!(validate_scan_plan(&payload, &[], true, true).is_ok());
}

#[test]
fn plan_options_are_checked_in_order() {
    let mut plan = udp_plan(0);
    plan.timing = Some(NativeTimingOptions {
        timeout_ms: None,
        minimum_timeout_ms: None,
        maximum_timeout_ms: None,
        retries: Some(300),
        fixed: None,
    });
    plan.source_port_start = Some(10);
    plan.source_port_end = Some(9);
    assert_eq!(validate(&plan).unwrap_err().operation, "validate timing");
    plan.timing = None;
    assert_eq!(
        validate_scan_plan(&plan, &[], false, false).unwrap_err().operation,
        "validate address"
    );
    assert_eq!(validate(&plan).unwrap_err().message, "source port range is reversed");
    plan.source_port_start = None;
    plan.source_port_end = None;
    plan.vlan = Some(NativeVlanOptions { identifier: 4095, priority: None, drop_eligible: None });
    plan.seed = Some("x".into());
    assert_eq!(validate(&plan).unwrap_err().operation, "validate VLAN");
    plan.vlan = Some(NativeVlanOptions { identifier: 12, priority: Some(3), drop_eligible: None });
    assert_eq!(validate(&plan).unwrap_err().operation, "validate seed");
    plan.seed = Some("42".into());
    let admitted = validate(&plan).unwrap();
    assert_eq!(admitted.seed, 42);
    let vlan = admitted.vlan.unwrap();
    assert_eq!((vlan.identifier, vlan.priority, vlan.drop_eligible), (12, 3, false));
}

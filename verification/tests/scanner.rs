use std::time::Duration;

use nodenet_native::backend::{
    BackendCounters, BackendLifecycle, BackendTime, FrameDestination, FrameTemplate, InputIdentity,
    ReceivedFrame, ScannerIoBackend, SubmissionOutcome, SubmissionStatus,
};
use nodenet_native::discovery::{
    parse_uuid_urn, same_link_ipv4_target, uuid_urn, DiscoveryControl, DiscoveryPacer,
    InterfaceAddressEntry,
};
use nodenet_native::discovery_plan::{
    check_target_members, DiscoveryOperationDescriptor, DiscoveryScopeSelection,
};
use nodenet_native::observation::{
    decode_network, ether_type_name, network_transport_fields, DecodedIpHeader,
    NativeObservationPlan, UpperLayer,
};
use nodenet_native::path::{pace_deadline, pace_step, NativePathPlan, PaceStep, PathControl};
use nodenet_native::plan::{
    admit_source_ports, check_state_lifetimes, checked_port, parse_decimal_u64,
    parse_discovery_families, parse_risk_set, parse_seed, risk_names, scheduler_settings,
    validate_vlan,
    NativeDiscoveryOperation, NativeDiscoveryPlan, NativeDiscoveryScope, NativePortSelection,
    NativeRateOptions, NativeScanProbe, NativeScanTarget, NativeTimingOptions, NativeVlanOptions,
};
use nodenet_native::probe::{
    expand_ports, parse_probe, parse_udp_policy, profile_includes, risks_are_allowed,
    validate_protocol_policy, PayloadFamily, PayloadMode, UdpCorrelation, UdpFallback,
    UdpPolicy, UdpProfile, UdpStrategy,
};
use nodenet_native::results::{
    IpAddress, NetworkState, ProbeFamily, ProbeOutcome, ScanResult, TerminalReason,
    UdpResultEvidence, UdpServiceEvidence, EvidenceStrength,
};
use nodenet_native::scan_error::ScannerError;
use nodenet_native::service::{
    NativeServiceIdentificationPlan, ServiceDescriptor, ServiceRisk, ServiceTarget,
};
use nodenet_native::session::{
    multicast_mac, native_failure, progress_snapshot, pull_status, scan_summary, select_source,
    six_bytes, NativePullResult, ProgressSample, PullResult, ResultQueue, SchedulerDiagnostics,
    SessionLifecycle, SinkReservation, UdpPolicySummary, MAX_SESSION_METADATA_BYTES,
};

#[derive(Default)]
struct ModelBackend {
    cancelled: bool,
    closed: bool,
    counters: BackendCounters,
}

impl ScannerIoBackend for ModelBackend {
    type Error = &'static str;

    fn submit(&mut self, frames: &[FrameTemplate]) -> Result<SubmissionOutcome, Self::Error> {
        if self.closed {
            return Err("closed");
        }
        if self.cancelled {
            return Ok(SubmissionOutcome { accepted: 0, status: SubmissionStatus::Cancelled });
        }
        self.counters.submitted = self
            .counters
            .submitted
            .saturating_add(u64::try_from(frames.len()).unwrap_or(u64::MAX));
        Ok(SubmissionOutcome { accepted: frames.len(), status: SubmissionStatus::Complete })
    }

    fn receive(&mut self, _maximum: usize) -> Result<Vec<ReceivedFrame>, Self::Error> {
        Ok(Vec::new())
    }

    fn counters(&mut self) -> Result<BackendCounters, Self::Error> {
        Ok(self.counters)
    }

    fn lifecycle(&self) -> BackendLifecycle {
        if self.closed {
            BackendLifecycle::Closed
        } else if self.cancelled {
            BackendLifecycle::Cancelling
        } else {
            BackendLifecycle::Running
        }
    }

    fn cancel(&mut self) {
        if !self.closed {
            self.cancelled = true;
        }
    }

    fn shutdown(&mut self) -> Result<(), Self::Error> {
        self.cancelled = true;
        self.closed = true;
        Ok(())
    }
}

#[test]
fn contract_models_bounded_submission_and_idempotent_shutdown() {
    let frame = FrameTemplate {
        submission_id: 7,
        destination: FrameDestination::RawIp(IpAddress::V4([127, 0, 0, 1])),
        bytes: vec![1, 2, 3],
    };
    let mut backend = ModelBackend::default();
    assert_eq!(
        backend.submit(&[frame]).unwrap(),
        SubmissionOutcome { accepted: 1, status: SubmissionStatus::Complete }
    );
    backend.cancel();
    assert_eq!(backend.lifecycle(), BackendLifecycle::Cancelling);
    assert_eq!(backend.submit(&[]).unwrap().status, SubmissionStatus::Cancelled);
    backend.shutdown().unwrap();
    backend.shutdown().unwrap();
    assert_eq!(backend.lifecycle(), BackendLifecycle::Closed);
    assert_eq!(backend.counters().unwrap().submitted, 1);
}

#[test]
fn receive_value_owns_bytes_and_records_monotonic_identity() {
    let received = ReceivedFrame {
        bytes: vec![4, 5, 6],
        input: InputIdentity { interface_index: 2, queue_id: Some(0) },
        received_at: BackendTime::from_duration(Duration::from_nanos(9)),
        original_length: 3,
        checksum_not_ready: false,
    };
    let mut moved = received.bytes;
    moved[0] = 9;
    assert_eq!(moved, [9, 5, 6]);
    assert_eq!(received.received_at.duration(), Duration::from_nanos(9));
}

fn sample_result(logical_id: u64, port: u16) -> ScanResult {
    ScanResult {
        logical_id,
        address: IpAddress::V4([127, 0, 0, 1]),
        scope: None,
        family: ProbeFamily::Udp,
        port: Some(port),
        outcome: ProbeOutcome::Network(NetworkState::Open),
        evidence_strength: None,
        attempt: 1,
        transmissions: 1,
        rtt_micros: None,
        terminal_at_micros: 1,
        route_generation: 1,
        terminal_reason: TerminalReason::Timeout,
        udp: None,
    }
}

#[test]
fn result_queue_reserves_before_commit_and_saturates() {
    let mut environment: usize = 0;
    let mut queue = ResultQueue::new(1, 1);
    assert_eq!(queue.try_reserve().unwrap(), SinkReservation::Reserved);
    assert_eq!(queue.try_reserve().unwrap(), SinkReservation::Saturated);
    let result = sample_result(0, 7);
    queue.commit_reserved(result.clone()).unwrap();
    assert_eq!(queue.take_completed_ids(), vec![0]);
    let batch = queue.take(&mut environment, 1).unwrap();
    assert_eq!(batch.schema_version, 1);
    assert_eq!(batch.row_count, 1);
    assert_eq!(batch.families, vec![4]);

    let mut queue = ResultQueue::new(4, 1);
    for logical_id in 0..4 {
        assert_eq!(queue.try_reserve().unwrap(), SinkReservation::Reserved);
        let mut value = result.clone();
        value.logical_id = logical_id;
        queue.commit_reserved(value).unwrap();
    }
    assert_eq!(queue.try_reserve().unwrap(), SinkReservation::Saturated);
    assert_eq!(queue.application_backpressured(), 1);
    assert_eq!(queue.take(&mut environment, 1).unwrap().row_count, 1);
    assert_eq!(queue.try_reserve().unwrap(), SinkReservation::Saturated);
    assert_eq!(queue.take(&mut environment, 1).unwrap().row_count, 1);
    assert_eq!(queue.try_reserve().unwrap(), SinkReservation::Reserved);

    let mut metadata_queue = ResultQueue::new(2, 1);
    assert_eq!(
        metadata_queue
            .try_reserve_with_bytes(&mut environment, MAX_SESSION_METADATA_BYTES + 1)
            .unwrap(),
        SinkReservation::Saturated
    );
    assert_eq!(metadata_queue.reserved(), 0);
    assert_eq!(
        metadata_queue.try_reserve_with_bytes(&mut environment, 1_024).unwrap(),
        SinkReservation::Reserved
    );
    assert_eq!(metadata_queue.reserved_metadata_bytes(), 1_024);
    metadata_queue.commit_reserved_with_bytes(&mut environment, result, 0, 1_024).unwrap();
    assert_eq!(metadata_queue.reserved_metadata_bytes(), 0);
}

#[test]
fn schema_two_seals_bounded_udp_service_evidence_and_releases_bytes() {
    let mut environment: usize = 0;
    let mut queue = ResultQueue::new(1, 2);
    assert_eq!(
        queue.try_reserve_with_bytes(&mut environment, 1_024).unwrap(),
        SinkReservation::Reserved
    );
    let metadata: Vec<u8> = vec![1, 3, 0, b'D', b'N', b'S', 0, 0, 0];
    let mut result = sample_result(0, 53);
    result.evidence_strength = Some(EvidenceStrength::ProtocolTransaction16);
    result.terminal_reason = TerminalReason::Evidence("UdpReply".to_string());
    result.udp = Some(UdpResultEvidence {
        terminal_probe_id: Some(1),
        variants_attempted: 1,
        response_kind: 1,
        service: Some(UdpServiceEvidence { family: 1, confidence: 3, metadata: metadata.clone() }),
    });
    queue.commit_reserved_with_bytes(&mut environment, result, metadata.len(), 1_024).unwrap();
    assert_eq!(environment, metadata.len());
    let batch = queue.take(&mut environment, 1).unwrap();
    assert_eq!(batch.schema_version, 2);
    assert_eq!(batch.terminal_udp_probe_ids.unwrap(), 1_u16.to_le_bytes());
    assert_eq!(batch.udp_service_families.unwrap(), 1_u16.to_le_bytes());
    assert_eq!(batch.udp_service_confidences.unwrap(), [3]);
    assert_eq!(batch.service_metadata_bytes.unwrap(), metadata);
    assert_eq!(environment, 0);
}

#[test]
fn completion_queue_survives_long_run_saturation_and_drain_cycles() {
    const CAPACITY: usize = 64;
    const CYCLES: u64 = 4_096;
    let mut environment: usize = 0;
    let mut queue = ResultQueue::new(CAPACITY as u64, 1);
    let template = sample_result(0, 7);
    for cycle in 0..CYCLES {
        for offset in 0..CAPACITY {
            assert_eq!(queue.try_reserve().unwrap(), SinkReservation::Reserved);
            let mut value = template.clone();
            value.logical_id = cycle * CAPACITY as u64 + offset as u64;
            queue.commit_reserved(value).unwrap();
        }
        assert_eq!(queue.try_reserve().unwrap(), SinkReservation::Saturated);
        assert_eq!(queue.take_completed_ids().len(), CAPACITY);
        assert_eq!(
            queue.take(&mut environment, CAPACITY).unwrap().row_count,
            u32::try_from(CAPACITY).expect("test capacity fits u32")
        );
    }
    assert_eq!(queue.queued_results(), 0);
    assert_eq!(queue.pending_completions(), 0);
    assert_eq!(queue.reserved(), 0);
    assert_eq!(queue.counters().results, CYCLES * CAPACITY as u64);
    assert_eq!(queue.application_backpressured(), CYCLES);
}

#[test]
fn multicast_mac_mapping_is_protocol_correct() {
    assert_eq!(multicast_mac(IpAddress::V4([224, 0, 0, 1])), Some([1, 0, 94, 0, 0, 1]));
    let mut all_nodes = [0u8; 16];
    all_nodes[0] = 0xff;
    all_nodes[1] = 0x02;
    all_nodes[15] = 1;
    assert_eq!(multicast_mac(IpAddress::V6(all_nodes)), Some([0x33, 0x33, 0, 0, 0, 1]));
    assert_eq!(multicast_mac(IpAddress::V4([192, 0, 2, 1])), None);
}

#[test]
fn validation_requires_explicit_promiscuous_consent() {
    let error = NativeObservationPlan {
        interfaces: vec!["lo".into()],
        protocols: vec!["ipv4".into()],
        duration_ms: Some(1),
        snap_length: Some(64),
        max_results: Some(1),
        max_metadata_bytes: Some(1),
        include_outgoing: None,
        promiscuous: Some(true),
        allow_risks: Some(vec!["passiveMetadata".into()]),
    }
    .validate()
    .err()
    .expect("consent must be required");
    assert_eq!(error.kind, "invalidPlan");
}

fn path_plan(pacing_ms: u32) -> NativePathPlan {
    NativePathPlan {
        target: "192.0.2.1".into(),
        mode: "udp".into(),
        port: Some(33_434),
        first_hop: Some(1),
        maximum_hop: Some(2),
        attempts_per_hop: Some(1),
        pacing_ms: Some(pacing_ms),
        deadline_ms: 1_000,
    }
}

#[test]
fn pacing_is_bounded_and_cancellation_aware() {
    let target = Some(IpAddress::V4([192, 0, 2, 1]));
    assert!(path_plan(1_000).validate(target).is_ok());
    assert!(path_plan(1_001).validate(target).is_err());

    let mut control = PathControl::new();
    control.cancel();
    let now: u128 = 5_000_000_000;
    let deadline = now + 1_000_000_000;
    let wait_end = pace_deadline(now, 1_000_000_000, deadline);
    assert_eq!(pace_step(now, wait_end, deadline, control.is_cancelled()), PaceStep::Done(false));
}

#[test]
fn pacing_sleeps_in_bounded_slices_and_stops_at_the_deadline() {
    assert_eq!(pace_deadline(10, 100, 50), 50);
    assert_eq!(pace_deadline(10, 20, 50), 30);
    assert_eq!(pace_deadline(u128::MAX - 1, 5, 70), 70);
    assert_eq!(pace_step(0, 100_000_000, 200_000_000, false), PaceStep::Wait(25_000_000));
    assert_eq!(pace_step(90, 100, 200, false), PaceStep::Wait(10));
    assert_eq!(pace_step(100, 100, 200, false), PaceStep::Done(true));
    assert_eq!(pace_step(200, 100, 200, false), PaceStep::Done(false));
}

fn redis_registry() -> Vec<ServiceDescriptor> {
    vec![ServiceDescriptor {
        id: "redis-ping".into(),
        no_go: false,
        risk: ServiceRisk::ClientNegotiation,
        maximum_request_bytes: 64,
        maximum_response_bytes: 4096,
    }]
}

fn loopback_target() -> Option<ServiceTarget> {
    Some(ServiceTarget { address: IpAddress::V4([127, 0, 0, 1]), host: "127.0.0.1".into() })
}

#[test]
fn duplicate_risk_authorizations_are_rejected() {
    let error = NativeServiceIdentificationPlan {
        capability_id: "redis-ping".into(),
        target: "127.0.0.1".into(),
        port: 6_379,
        deadline_ms: 1_000,
        allow_risks: vec!["clientNegotiation".into(), "clientNegotiation".into()],
    }
    .validate(loopback_target(), &redis_registry())
    .err()
    .expect("duplicate authorization must fail");
    assert!(error.message.contains("must not contain duplicates"));
}

#[test]
fn service_plan_builds_the_registered_request() {
    let plan = NativeServiceIdentificationPlan {
        capability_id: "redis-ping".into(),
        target: "127.0.0.1".into(),
        port: 6_379,
        deadline_ms: 1_000,
        allow_risks: vec!["clientNegotiation".into()],
    }
    .validate(loopback_target(), &redis_registry())
    .unwrap();
    assert_eq!(plan.port, 6_379);
    assert_eq!(plan.request, b"*1\r\n$4\r\nPING\r\n".to_vec());
    assert_eq!(plan.maximum_response_bytes, 4096);
}

fn discovery_registry() -> Vec<DiscoveryOperationDescriptor> {
    vec![
        DiscoveryOperationDescriptor {
            id: 1,
            required_risks: 8,
            link_scope: true,
            permits_kernel_default_ipv4_gateway: false,
        },
        DiscoveryOperationDescriptor {
            id: 5,
            required_risks: 32,
            link_scope: false,
            permits_kernel_default_ipv4_gateway: true,
        },
    ]
}

fn target_discovery_plan() -> NativeDiscoveryPlan {
    NativeDiscoveryPlan {
        scope: NativeDiscoveryScope {
            kind: "targets".into(),
            interfaces: None,
            all_eligible: None,
            families: vec!["ipv4".into()],
            targets: Some(vec![NativeScanTarget {
                cidr: Some("127.0.0.1/32".into()),
                start: None,
                end: None,
            }]),
            exclude: None,
            kernel_default_ipv4_gateway: None,
        },
        operations: vec![NativeDiscoveryOperation {
            id: 5,
            query: None,
            follow_up: None,
            receive_mode: None,
        }],
        deadline_ms: 100,
        limits: None,
        rate: None,
        allow_risks: Some(vec!["sensitiveRead".into()]),
    }
}

#[test]
fn discovery_scope_risks_and_operation_parameters_fail_before_transport() {
    let registry = discovery_registry();
    let plan = target_discovery_plan();
    assert!(plan.clone().validate(&registry).is_ok());

    let mut missing_risk = plan.clone();
    missing_risk.allow_risks = Some(Vec::new());
    assert_eq!(
        missing_risk.validate(&registry).err().unwrap().operation,
        "validate discovery operation"
    );

    let mut wrong_parameter = plan.clone();
    wrong_parameter.operations[0].query = Some("unexpected".into());
    assert_eq!(
        wrong_parameter.validate(&registry).err().unwrap().operation,
        "validate discovery operation"
    );

    let mut wrong_follow_up = plan.clone();
    wrong_follow_up.operations[0].follow_up = Some(false);
    assert_eq!(
        wrong_follow_up.validate(&registry).err().unwrap().operation,
        "validate discovery operation"
    );

    let mut wrong_scope = plan;
    wrong_scope.operations[0].id = 1;
    wrong_scope.operations[0].receive_mode = Some("legacyUnicast".into());
    wrong_scope.allow_risks = Some(vec!["multicastOrBroadcast".into(), "sensitiveRead".into()]);
    assert_eq!(
        wrong_scope.validate(&registry).err().unwrap().operation,
        "validate discovery scope"
    );
}

#[test]
fn admitted_discovery_fills_defaults_and_sorts_link_interfaces() {
    let registry = discovery_registry();
    let mut plan = target_discovery_plan();
    let admitted = plan.clone().validate(&registry).unwrap();
    assert_eq!(admitted.max_results, 8192);
    assert_eq!(admitted.max_metadata_bytes, 16 * 1024 * 1024);
    assert_eq!(admitted.packets_per_second, 100);
    assert_eq!(admitted.burst, 16);
    assert_eq!(admitted.allow_risks, 32);
    assert!(admitted.operations[0].follow_up);
    assert!(matches!(
        admitted.scope,
        DiscoveryScopeSelection::Targets { ipv4: true, ipv6: false, kernel_default_ipv4_gateway: false }
    ));

    plan.operations[0].id = 1;
    plan.operations[0].receive_mode = Some("legacyUnicast".into());
    plan.allow_risks = Some(vec!["multicastOrBroadcast".into()]);
    plan.scope = NativeDiscoveryScope {
        kind: "links".into(),
        interfaces: Some(vec!["eth1".into(), "eth0".into()]),
        all_eligible: None,
        families: vec!["ipv4".into(), "ipv6".into()],
        targets: None,
        exclude: None,
        kernel_default_ipv4_gateway: None,
    };
    let admitted = plan.clone().validate(&registry).unwrap();
    match admitted.scope {
        DiscoveryScopeSelection::Links { interfaces, ipv4, ipv6 } => {
            assert_eq!(interfaces, vec!["eth0".to_string(), "eth1".to_string()]);
            assert!(ipv4 && ipv6);
        }
        _ => panic!("link scope expected"),
    }

    plan.scope.interfaces = Some(vec!["eth0".into(), "eth0".into()]);
    let error = plan.clone().validate(&registry).err().unwrap();
    assert_eq!(error.message, "interfaces must be a unique bounded nonempty list");

    plan.deadline_ms = 60_001;
    let error = plan.validate(&registry).err().unwrap();
    assert_eq!(error.operation, "validate discovery plan");
}

#[test]
fn target_members_are_checked_after_normalization() {
    let registry = discovery_registry();
    let plan = target_discovery_plan().validate(&registry).unwrap();
    assert!(check_target_members(1, 1, false, true, &plan.operations, &registry).is_ok());
    let error = check_target_members(65_537, 1, false, true, &plan.operations, &registry).unwrap_err();
    assert_eq!(error.kind, "resource");
    let error = check_target_members(0, 0, false, true, &plan.operations, &registry).unwrap_err();
    assert_eq!(error.message, "target scope requires targets or kernelDefaultIpv4Gateway");
    let error = check_target_members(0, 0, true, false, &plan.operations, &registry).unwrap_err();
    assert_eq!(error.message, "kernelDefaultIpv4Gateway requires the ipv4 family");
    assert!(check_target_members(0, 0, true, true, &plan.operations, &registry).is_ok());
}

#[test]
fn compact_port_lists_expand_in_order_and_refuse_reversed_ranges() {
    assert!(expand_ports(&[NativePortSelection { start: 2, end: 1 }]).is_err());
    assert_eq!(
        expand_ports(&[
            NativePortSelection { start: 80, end: 82 },
            NativePortSelection { start: 22, end: 22 },
        ])
        .unwrap(),
        vec![80, 81, 82, 22]
    );
    let error = expand_ports(&[NativePortSelection { start: 0, end: 5 }]).unwrap_err();
    assert_eq!(error.message, "port.start must be from 1 through 65535");
    let error = expand_ports(&[
        NativePortSelection { start: 1, end: 65_535 },
        NativePortSelection { start: 1, end: 2 },
    ])
    .unwrap_err();
    assert_eq!(error.kind, "resource");
    assert_eq!(expand_ports(&[NativePortSelection { start: 1, end: 65_535 }]).unwrap().len(), 65_535);
}

fn udp_probe(payload_bytes: usize) -> NativeScanProbe {
    NativeScanProbe {
        kind: "udp".into(),
        family: None,
        ports: Some(vec![NativePortSelection { start: 7, end: 7 }]),
        payload: Some(vec![0; payload_bytes]),
        udp_mode: None,
        udp_profile: None,
        udp_intensity: None,
        udp_strategy: None,
        udp_empty_fallback: None,
        udp_allow_risks: None,
        udp_correlation: None,
    }
}

#[test]
fn udp_probe_payload_limit_is_checked_first() {
    assert!(parse_probe(&udp_probe(65_491)).is_ok());
    let error = parse_probe(&udp_probe(65_492)).err().unwrap();
    assert_eq!(error.operation, "validate UDP payload");
}

#[test]
fn udp_payload_modes_select_their_correlation() {
    let (family, ports, policy) = parse_probe(&udp_probe(3)).unwrap();
    assert_eq!(family, ProbeFamily::Udp);
    assert_eq!(ports, vec![7]);
    match policy.unwrap() {
        UdpPolicy::Payload { mode, correlation, family, payload } => {
            assert_eq!(mode, PayloadMode::Custom);
            assert_eq!(correlation, UdpCorrelation::PrefixToken);
            assert_eq!(family, PayloadFamily::Both);
            assert_eq!(payload, vec![0; 3]);
        }
        _ => panic!("payload policy expected"),
    }

    let mut exact = udp_probe(3);
    exact.udp_mode = Some("custom".into());
    exact.udp_correlation = Some("tuple".into());
    match parse_udp_policy(&exact, vec![0; 3]).unwrap() {
        UdpPolicy::Payload { correlation, .. } => assert_eq!(correlation, UdpCorrelation::Tuple),
        _ => panic!("payload policy expected"),
    }

    let mut empty = udp_probe(0);
    empty.udp_mode = Some("empty".into());
    match parse_udp_policy(&empty, Vec::new()).unwrap() {
        UdpPolicy::Payload { mode, correlation, payload, .. } => {
            assert_eq!(mode, PayloadMode::Empty);
            assert_eq!(correlation, UdpCorrelation::Tuple);
            assert!(payload.is_empty());
        }
        _ => panic!("payload policy expected"),
    }
    let error = parse_udp_policy(&empty, vec![1]).err().unwrap();
    assert_eq!(error.message, "empty UDP policy cannot contain payload bytes");
}

#[test]
fn protocol_policy_fills_defaults_and_checks_consents() {
    let probe = udp_probe(0);
    match parse_udp_policy(&probe, Vec::new()).unwrap() {
        UdpPolicy::Protocol { strategy, profile, intensity, allowed_risks, empty_fallback } => {
            assert_eq!(strategy, UdpStrategy::Exhaustive);
            assert_eq!(profile, UdpProfile::Safe);
            assert_eq!(intensity, 7);
            assert_eq!(allowed_risks, 0);
            assert_eq!(empty_fallback, UdpFallback::Unmapped);
        }
        _ => panic!("protocol policy expected"),
    }
    let mut adaptive = udp_probe(0);
    adaptive.udp_mode = Some("protocol".into());
    adaptive.udp_strategy = Some("adaptive".into());
    adaptive.udp_profile = Some("legacy".into());
    adaptive.udp_allow_risks = Some(vec!["highAmplification".into(), "sensitiveRead".into()]);
    match parse_udp_policy(&adaptive, Vec::new()).unwrap() {
        UdpPolicy::Protocol { strategy, profile, allowed_risks, .. } => {
            assert_eq!(strategy, UdpStrategy::Adaptive);
            assert_eq!(profile, UdpProfile::Legacy);
            assert_eq!(allowed_risks, 1 | 32);
        }
        _ => panic!("protocol policy expected"),
    }

    let mut duplicate = udp_probe(0);
    duplicate.udp_mode = Some("protocol".into());
    duplicate.udp_allow_risks = Some(vec!["sensitiveRead".into(), "sensitiveRead".into()]);
    let error = validate_protocol_policy(&duplicate).unwrap_err();
    assert_eq!(error.operation, "validate UDP policy");
    assert_eq!(error.message, "UDP risk consent must be unique and canonical");

    let mut loud = udp_probe(0);
    loud.udp_intensity = Some(10);
    assert_eq!(
        validate_protocol_policy(&loud).unwrap_err().message,
        "UDP intensity must be from 0 through 9"
    );
}

#[test]
fn non_udp_probes_refuse_udp_fields() {
    let mut probe = udp_probe(0);
    probe.kind = "tcpSyn".into();
    probe.payload = None;
    let (family, ports, policy) = parse_probe(&probe).unwrap();
    assert_eq!(family, ProbeFamily::TcpSyn);
    assert_eq!(ports, vec![7]);
    assert!(policy.is_none());
    probe.udp_mode = Some("custom".into());
    assert_eq!(
        parse_probe(&probe).err().unwrap().message,
        "payload is supported only for UDP probes"
    );
    let mut icmp = udp_probe(0);
    icmp.kind = "icmpEcho".into();
    icmp.payload = None;
    assert_eq!(
        parse_probe(&icmp).err().unwrap().message,
        "unsupported probe kind/family combination"
    );
    icmp.family = Some("ipv6".into());
    assert_eq!(parse_probe(&icmp).unwrap().0, ProbeFamily::Icmpv6Echo);
}

#[test]
fn risk_consents_must_be_known_unique_and_canonical() {
    assert_eq!(parse_risk_set(&[]).unwrap(), 0);
    assert_eq!(
        parse_risk_set(&["statefulHandshake".into(), "multicastOrBroadcast".into()]).unwrap(),
        2 | 8
    );
    assert!(parse_risk_set(&["multicastOrBroadcast".into(), "statefulHandshake".into()]).is_err());
    assert_eq!(
        parse_risk_set(&["nope".into()]).unwrap_err().message,
        "UDP risk consent is unsupported"
    );
}

#[test]
fn profiles_and_consents_only_widen() {
    assert!(profile_includes(UdpProfile::Safe, UdpProfile::Safe));
    assert!(!profile_includes(UdpProfile::Safe, UdpProfile::Comprehensive));
    assert!(profile_includes(UdpProfile::Comprehensive, UdpProfile::Safe));
    assert!(!profile_includes(UdpProfile::Comprehensive, UdpProfile::Legacy));
    assert!(profile_includes(UdpProfile::Legacy, UdpProfile::Legacy));
    assert!(risks_are_allowed(0, 0));
    assert!(risks_are_allowed(8, 8 | 32));
    assert!(!risks_are_allowed(8 | 1, 8));
}

#[test]
fn source_port_capacity_is_validated_before_runtime_admission() {
    assert_eq!(admit_source_ports(Some(60_000), Some(60_004), 1).unwrap(), (60_000, 60_004));
    let error = admit_source_ports(Some(60_000), Some(60_004), 2).unwrap_err();
    assert_eq!(error.operation, "validate source port range");
    assert_eq!(admit_source_ports(None, None, 4_096).unwrap(), (49_152, 65_535));
    assert_eq!(
        admit_source_ports(Some(70_000), None, 1).unwrap_err().message,
        "sourcePortRange.start must be from 1 through 65535"
    );
    assert_eq!(
        admit_source_ports(Some(10), Some(9), 1).unwrap_err().message,
        "source port range is reversed"
    );
}

#[test]
fn scheduler_settings_fill_documented_defaults() {
    let settings = scheduler_settings(1_000, None, None).unwrap();
    assert_eq!(settings.rate_per_second, 100);
    assert_eq!(settings.max_outstanding, 4_096);
    assert_eq!(settings.burst, 32);
    assert_eq!(settings.max_retransmissions, 1);
    assert_eq!(settings.initial_timeout_ms, 1_000);
    assert_eq!(settings.minimum_timeout_ms, 100);
    assert_eq!(settings.maximum_timeout_ms, 10_000);
    assert_eq!(settings.max_per_target, 64);
    assert_eq!(settings.max_per_prefix, 1_024);
    assert!(!settings.fixed_rate);

    let settings = scheduler_settings(
        5,
        Some(NativeRateOptions { packets_per_second: Some(1), burst: None, max_outstanding: Some(3) }),
        Some(NativeTimingOptions {
            timeout_ms: Some(20_000),
            minimum_timeout_ms: None,
            maximum_timeout_ms: None,
            retries: Some(0),
            fixed: Some(true),
        }),
    )
    .unwrap();
    assert_eq!(settings.burst, 3);
    assert_eq!(settings.minimum_timeout_ms, 100);
    assert_eq!(settings.maximum_timeout_ms, 20_000);
    assert_eq!(settings.max_per_target, 3);
    assert!(settings.fixed_rate);

    assert_eq!(
        scheduler_settings(0, None, None).unwrap_err().message,
        "deadlineMs must be greater than zero"
    );
    let many_retries = NativeTimingOptions {
        timeout_ms: None,
        minimum_timeout_ms: None,
        maximum_timeout_ms: None,
        retries: Some(256),
        fixed: None,
    };
    assert_eq!(
        scheduler_settings(1, None, Some(many_retries)).unwrap_err().operation,
        "validate timing"
    );
}

#[test]
fn stateful_probe_lifetimes_bound_the_maximum_timeout() {
    assert!(check_state_lifetimes(&[0, 10_000], 10_000).is_ok());
    assert_eq!(
        check_state_lifetimes(&[0, 10_000], 10_001).unwrap_err().operation,
        "validate UDP timing"
    );
}

#[test]
fn seeds_parse_as_unsigned_decimal_numbers() {
    assert_eq!(parse_seed(&None).unwrap(), 0);
    assert_eq!(parse_seed(&Some("42".into())).unwrap(), 42);
    assert_eq!(parse_seed(&Some("+7".into())).unwrap(), 7);
    assert_eq!(parse_seed(&Some("18446744073709551615".into())).unwrap(), u64::MAX);
    assert_eq!(
        parse_seed(&Some("18446744073709551616".into())).unwrap_err().message,
        "seed must fit an unsigned 64-bit integer"
    );
    assert!(parse_seed(&Some("-1".into())).is_err());
    assert_eq!(parse_decimal_u64("0007"), Some(7));
    assert_eq!(parse_decimal_u64(""), None);
    assert_eq!(parse_decimal_u64("+"), None);
    assert_eq!(parse_decimal_u64("1 2"), None);
    assert_eq!(parse_decimal_u64("١"), None);
    for text in ["0", "9", "123456789", "+00", "99999999999999999999"] {
        assert_eq!(parse_decimal_u64(text), text.parse::<u64>().ok());
    }
}

#[test]
fn ports_vlans_and_families_are_checked() {
    assert_eq!(checked_port(443, "port").unwrap(), 443);
    assert_eq!(checked_port(0, "port").unwrap_err().message, "port must be from 1 through 65535");
    let vlan = validate_vlan(&NativeVlanOptions { identifier: 4_094, priority: None, drop_eligible: None })
        .unwrap();
    assert_eq!((vlan.identifier, vlan.priority, vlan.drop_eligible), (4_094, 0, false));
    assert!(validate_vlan(&NativeVlanOptions { identifier: 4_095, priority: None, drop_eligible: None }).is_err());
    assert!(validate_vlan(&NativeVlanOptions { identifier: 1, priority: Some(8), drop_eligible: None }).is_err());
    assert_eq!(parse_discovery_families(&["ipv4".into(), "ipv6".into()]).unwrap(), (true, true));
    assert!(parse_discovery_families(&["ipv6".into(), "ipv4".into()]).is_err());
}

#[test]
fn discovery_controls_pause_resume_and_cancel() {
    let mut control = DiscoveryControl::new();
    assert_eq!(control.state_name(), "running");
    control.pause().unwrap();
    assert_eq!(control.state_name(), "paused");
    assert!(control.pause().is_err());
    control.resume().unwrap();
    control.cancel();
    assert!(control.cancelling());
    assert!(control.resume().is_err());
}

#[test]
fn pacer_admits_one_burst_then_refills_with_time() {
    let mut pacer = DiscoveryPacer::new(10, 2, 0);
    assert!(pacer.try_take(0));
    assert!(pacer.try_take(0));
    assert!(!pacer.try_take(0));
    assert!(pacer.try_take(100_000_000));
}

#[test]
fn uuid_urns_round_trip() {
    let bytes: [u8; 16] = [
        0x12, 0x34, 0x56, 0x78, 0x9a, 0xbc, 0xde, 0xf0, 0x01, 0x23, 0x45, 0x67, 0x89, 0xab, 0xcd,
        0xef,
    ];
    let text = uuid_urn(bytes);
    assert_eq!(text, "urn:uuid:12345678-9abc-def0-0123-456789abcdef");
    assert_eq!(parse_uuid_urn(&text), Some(bytes));
    assert_eq!(parse_uuid_urn("urn:uuid:12345678-9ABC-DEF0-0123-456789ABCDEF"), Some(bytes));
    assert_eq!(parse_uuid_urn("urn:uuid:1234"), None);
}

#[test]
fn failures_and_pull_outcomes_are_reported_by_name() {
    let error = ScannerError::invalid("validate seed", "seed must fit an unsigned 64-bit integer");
    let failure = native_failure(&error);
    assert_eq!(failure.kind, "invalidPlan");
    assert_eq!(failure.code, "ERR_INVALID_PLAN");
    assert_eq!(failure.operation, "validate seed");
    assert_eq!(failure.errno, None);
    assert_eq!(pull_status(&PullResult::Terminal), "terminal");
    assert_eq!(pull_status(&PullResult::Aborted), "aborted");
    assert_eq!(six_bytes(&[1, 2, 3, 4, 5, 6]), Some([1, 2, 3, 4, 5, 6]));
    assert_eq!(six_bytes(&[1, 2, 3]), None);
}

#[test]
fn risk_names_spell_consent_bits_that_parse_back() {
    assert_eq!(risk_names(0), Vec::<String>::new());
    assert_eq!(risk_names(1 | 32), vec!["highAmplification".to_string(), "sensitiveRead".to_string()]);
    for bits in 0..64u8 {
        assert_eq!(parse_risk_set(&risk_names(bits)).unwrap(), bits);
    }
    assert_eq!(risk_names(64), Vec::<String>::new());
}

#[test]
fn same_link_targets_share_an_interface_prefix() {
    let entries = [
        InterfaceAddressEntry {
            family: 2,
            interface_index: 2,
            local: None,
            address: Some(IpAddress::V4([192, 168, 1, 10])),
            prefix_length: 24,
        },
        InterfaceAddressEntry {
            family: 10,
            interface_index: 3,
            local: None,
            address: Some(IpAddress::V4([10, 0, 0, 1])),
            prefix_length: 8,
        },
    ];
    assert!(same_link_ipv4_target(IpAddress::V4([192, 168, 1, 200]), None, &entries));
    assert!(same_link_ipv4_target(IpAddress::V4([192, 168, 1, 200]), Some(2), &entries));
    assert!(!same_link_ipv4_target(IpAddress::V4([192, 168, 1, 200]), Some(3), &entries));
    assert!(!same_link_ipv4_target(IpAddress::V4([192, 168, 2, 1]), None, &entries));
    assert!(!same_link_ipv4_target(IpAddress::V4([10, 1, 2, 3]), None, &entries));
    let everything = [InterfaceAddressEntry {
        family: 2,
        interface_index: 1,
        local: Some(IpAddress::V4([1, 2, 3, 4])),
        address: None,
        prefix_length: 0,
    }];
    assert!(same_link_ipv4_target(IpAddress::V4([200, 0, 0, 1]), None, &everything));
    assert!(!same_link_ipv4_target(IpAddress::V6([0; 16]), None, &everything));
}

fn udp_datagram(checksum: u16, length: u16) -> Vec<u8> {
    let mut datagram = vec![0u8; 12];
    datagram[0..2].copy_from_slice(&53u16.to_be_bytes());
    datagram[2..4].copy_from_slice(&5353u16.to_be_bytes());
    datagram[4..6].copy_from_slice(&length.to_be_bytes());
    datagram[6..8].copy_from_slice(&checksum.to_be_bytes());
    datagram
}

#[test]
fn transport_ports_are_reported_only_for_trusted_headers() {
    let upper = UpperLayer::Payload { protocol: 17, payload: udp_datagram(0, 12), unfragmented: true, known: true };
    let fields = network_transport_fields(&upper, "192.0.2.1".into(), "192.0.2.2".into(), true, 0, false);
    assert_eq!(fields.protocol, "udp");
    assert_eq!(fields.source_address.as_deref(), Some("192.0.2.1"));
    assert_eq!(fields.source_port, Some(53));
    assert_eq!(fields.destination_port, Some(5353));

    let bad = UpperLayer::Payload { protocol: 17, payload: udp_datagram(0x1234, 12), unfragmented: true, known: true };
    let fields = network_transport_fields(&bad, "a".into(), "b".into(), true, 0, false);
    assert_eq!(fields.source_port, None);
    let fields = network_transport_fields(&bad, "a".into(), "b".into(), true, 0x8, false);
    assert_eq!(fields.source_port, Some(53));
    let fields = network_transport_fields(&bad, "a".into(), "b".into(), true, 0, true);
    assert_eq!(fields.destination_port, Some(5353));

    let overlong = UpperLayer::Payload { protocol: 17, payload: udp_datagram(0, 13), unfragmented: true, known: true };
    assert_eq!(network_transport_fields(&overlong, "a".into(), "b".into(), true, 0x80, true).source_port, None);
    let fragment = UpperLayer::NonFirstFragment { protocol: 6 };
    let fields = network_transport_fields(&fragment, "a".into(), "b".into(), true, 0, true);
    assert_eq!(fields.protocol, "tcp");
    assert_eq!(fields.source_port, None);
    assert_eq!(network_transport_fields(&UpperLayer::Opaque, "a".into(), "b".into(), true, 0, true).protocol, "ip");
}

#[test]
fn network_columns_name_unknown_ether_types() {
    assert_eq!(ether_type_name(0x88cc), "etherType-0x88cc");
    assert_eq!(ether_type_name(0x0042), "etherType-0x0042");
    assert_eq!(decode_network(0x0806, None, 0, false).protocol, "arp");
    assert_eq!(decode_network(0x0800, None, 0, false).protocol, "ipv4");
    assert_eq!(decode_network(0x86dd, None, 0, false).protocol, "ipv6");
    let header = DecodedIpHeader {
        source: "2001:db8::1".into(),
        destination: "2001:db8::2".into(),
        upper: UpperLayer::Payload { protocol: 17, payload: udp_datagram(0, 12), unfragmented: true, known: true },
    };
    let fields = decode_network(0x86dd, Some(header), 0, false);
    assert_eq!(fields.protocol, "udp");
    assert_eq!(fields.source_port, None);
    assert_eq!(fields.destination_address.as_deref(), Some("2001:db8::2"));
}

#[test]
fn source_selection_takes_the_first_specified_address_of_the_family() {
    let entries = [
        InterfaceAddressEntry { family: 2, interface_index: 3, local: None, address: Some(IpAddress::V4([0, 0, 0, 0])), prefix_length: 0 },
        InterfaceAddressEntry { family: 10, interface_index: 3, local: None, address: Some(IpAddress::V6([0xfe, 0x80, 0, 0, 0, 0, 0, 0, 0, 0, 0, 0, 0, 0, 0, 1])), prefix_length: 64 },
        InterfaceAddressEntry { family: 2, interface_index: 3, local: Some(IpAddress::V4([192, 0, 2, 7])), address: Some(IpAddress::V4([192, 0, 2, 8])), prefix_length: 24 },
        InterfaceAddressEntry { family: 2, interface_index: 4, local: None, address: Some(IpAddress::V4([198, 51, 100, 1])), prefix_length: 24 },
    ];
    assert_eq!(select_source(&entries, 3, IpAddress::V4([192, 0, 2, 1])), Some(IpAddress::V4([192, 0, 2, 7])));
    assert!(matches!(select_source(&entries, 3, IpAddress::V6([0; 16])), Some(IpAddress::V6(_))));
    assert_eq!(select_source(&entries, 4, IpAddress::V4([1, 1, 1, 1])), Some(IpAddress::V4([198, 51, 100, 1])));
    assert_eq!(select_source(&entries, 5, IpAddress::V4([1, 1, 1, 1])), None);
}

#[test]
fn pull_outcomes_keep_their_batch() {
    let mut environment = 0usize;
    let mut queue = ResultQueue::new(1, 1);
    queue.try_reserve().unwrap();
    queue.commit_reserved(sample_result(9, 7)).unwrap();
    let batch = queue.take(&mut environment, 1).unwrap();
    let pulled = NativePullResult::from_pull(PullResult::Batch(Box::new(batch)));
    assert_eq!(pulled.status, "batch");
    assert_eq!(pulled.batch.unwrap().row_count, 1);
    let terminal = NativePullResult::from_pull(PullResult::Terminal);
    assert_eq!(terminal.status, "terminal");
    assert!(terminal.batch.is_none());
}

#[test]
fn summaries_spell_counts_and_carry_the_failure() {
    let mut environment = 0usize;
    let mut queue = ResultQueue::new(2, 1);
    queue.try_reserve().unwrap();
    queue.commit_reserved(sample_result(0, 7)).unwrap();
    queue.discard(&mut environment);
    let progress = progress_snapshot(&ProgressSample {
        sent: 3,
        received: 2,
        matched: 1,
        duplicates: 0,
        wire_invalid: 0,
        forged_or_unrelated: 0,
        non_first_fragment: 0,
        opaque_protocol: 0,
        insufficient_quote: 0,
        timed_out: 0,
        retried: 0,
        kernel_dropped: 0,
        application_backpressured: 0,
    });
    let error = Some(ScannerError::invalid("validate seed", "bad seed"));
    let summary = scan_summary(
        1,
        SessionLifecycle::Failed,
        1_000_000,
        &queue.counters(),
        4,
        &SchedulerDiagnostics { forged_or_unrelated: 5, duplicates: 6, late_responses: 7, udp_icmp_pacing: 8 },
        UdpPolicySummary {
            catalogue_version: None,
            catalogue_sha256: None,
            mode: Some("custom".into()),
            profile: None,
            intensity: Some(7),
            strategy: None,
            empty_fallback: None,
            allow_risks: None,
            custom_correlation: Some("prefixToken".into()),
        },
        progress,
        Some(u64::MAX),
        false,
        &error,
    );
    assert_eq!(summary.state, "failed");
    assert_eq!(summary.logical_probes, "1000000");
    assert_eq!(summary.results, "1");
    assert_eq!(summary.open, "1");
    assert_eq!(summary.discarded, "1");
    assert_eq!(summary.kernel_dropped, "4");
    assert_eq!(summary.udp_icmp_pacing, "8");
    assert_eq!(summary.udp_intensity, Some(7));
    assert_eq!(summary.scheduling_seed.as_deref(), Some("18446744073709551615"));
    assert_eq!(summary.progress.sent, "3");
    assert_eq!(summary.progress.coalesced_updates, "5");
    let failure = summary.error.unwrap();
    assert_eq!(failure.code, "ERR_INVALID_PLAN");
    assert_eq!(failure.message, "bad seed");
}

#[test]
fn accepted_consent_lists_are_the_names_of_their_bits() {
    let list: Vec<String> = vec!["highAmplification".into(), "fixedSourcePort".into(), "sensitiveRead".into()];
    let bits = parse_risk_set(&list).unwrap();
    assert_eq!(risk_names(bits), list);
}

use nodenet_native::discovery::{
    parse_uuid_urn, DiscoveryControl, DiscoveryCounters, NativeDiscoveryMetadataField,
    NativeDiscoveryRow,
};
use nodenet_native::discovery_replies::ReplyContext;
use nodenet_native::discovery_run::finish_discovery;
use nodenet_native::harvest::{Harvest, QueryBudget};
use nodenet_native::results::IpAddress;
use nodenet_native::rpcbind::{
    awaited_nfs_request, rpcbind_address_step, rpcbind_nfs_step, NfsFollowUp, RpcbindStage,
};

fn row(operation: u32, identity: &str, addresses: &[&str]) -> NativeDiscoveryRow {
    NativeDiscoveryRow {
        entity_id: String::new(),
        parent_entity_id: None,
        derivation_kind: None,
        operation_id: operation,
        protocol: "mdns".into(),
        kind: "service".into(),
        evidence: "response".into(),
        outcome: "complete".into(),
        responder: "192.0.2.9".into(),
        responder_port: 5353,
        interface_index: Some(2),
        identity: identity.as_bytes().to_vec(),
        addresses: addresses.iter().map(|a| a.to_string()).collect(),
        metadata: vec![
            NativeDiscoveryMetadataField { key: "z".into(), value: b"1".to_vec(), text: None },
            NativeDiscoveryMetadataField { key: "a".into(), value: b"2".to_vec(), text: None },
        ],
        truncated: false,
    }
}

fn budget() -> QueryBudget {
    QueryBudget {
        retained_entities: 0,
        retained_metadata_bytes: 0,
        maximum_entities: 16,
        maximum_metadata_bytes: 65_536,
    }
}

fn harvest_of(rows: Vec<NativeDiscoveryRow>, max_results: usize) -> (Harvest, DiscoveryCounters) {
    let mut harvest = Harvest { rows: Vec::new(), retained_metadata_bytes: 0 };
    let mut query = budget();
    let mut counters = DiscoveryCounters::default();
    for r in rows {
        harvest.take(&mut query, &mut counters, r, max_results, 65_536).unwrap();
    }
    (harvest, counters)
}

#[test]
fn finished_report_is_strictly_ordered_numbered_and_capped() {
    let (harvest, mut counters) = harvest_of(
        vec![
            row(4, "b", &["192.0.2.2", "192.0.2.1", "192.0.2.2"]),
            row(1, "z", &[]),
            row(4, "a", &[]),
            row(1, "z", &["192.0.2.3"]),
            row(9, "late", &[]),
        ],
        3,
    );
    assert_eq!(harvest.rows.len(), 3);
    let mut control = DiscoveryControl::new();
    let report = finish_discovery(harvest, &mut counters, &mut control, 3);
    let keys: Vec<(u32, Vec<u8>)> =
        report.rows.iter().map(|r| (r.operation_id, r.identity.clone())).collect();
    assert_eq!(keys, vec![(1, b"z".to_vec()), (4, b"a".to_vec()), (4, b"b".to_vec())]);
    let ids: Vec<&str> = report.rows.iter().map(|r| r.entity_id.as_str()).collect();
    assert_eq!(ids, vec!["1", "2", "3"]);
    assert_eq!(report.rows[2].addresses, vec!["192.0.2.1".to_string(), "192.0.2.2".to_string()]);
    assert_eq!(report.rows[2].metadata[0].key, "a");
    assert_eq!(report.state, "completed");
    assert_eq!(control.state_name(), "completed");
    // Once the cap is reached even a repeat of a kept entity is counted as truncated.
    assert_eq!((counters.duplicate, counters.truncated), (0, 2));
}

#[test]
fn cancelled_session_reports_cancelled() {
    let (harvest, mut counters) = harvest_of(vec![row(1, "a", &[])], 10);
    let mut control = DiscoveryControl::new();
    control.cancel();
    let report = finish_discovery(harvest, &mut counters, &mut control, 10);
    assert_eq!(report.state, "cancelled");
    assert_eq!(control.state_name(), "completed");
    assert_eq!(report.progress.accepted, "1");
}

fn nfs_context(port: u16) -> ReplyContext {
    ReplyContext {
        operation_id: 7,
        protocol: "rpcbind".into(),
        evidence: "ProtocolTransaction".into(),
        responder: "127.0.0.1".into(),
        responder_port: port,
        interface_index: None,
        hop_limit: None,
    }
}

#[test]
fn rpcbind_follow_up_awaits_the_named_nfs_port() {
    let target = IpAddress::V4([127, 0, 0, 1]);
    let mut stage = RpcbindStage::AwaitingGetAddress;
    // The universal address 127.0.0.1.8.1 names port 8 * 256 + 1.
    let (parent, follow_up) = rpcbind_address_step(
        &mut stage,
        &nfs_context(111),
        target,
        &"127.0.0.1".to_string(),
        2_049,
        Some(target),
        Some(vec![0x10, 0x20, 0x30, 0x41]),
    )
    .unwrap();
    assert_eq!(parent.identity, b"127.0.0.1:2049".to_vec());
    assert_eq!(follow_up, Some(NfsFollowUp { address: target, port: 2_049 }));
    assert_eq!(awaited_nfs_request(&stage), Some(&vec![0x10, 0x20, 0x30, 0x41]));

    assert!(rpcbind_nfs_step(&stage, &nfs_context(2_050), 2_050, Some(Vec::new())).is_err());
    assert!(rpcbind_nfs_step(&stage, &nfs_context(2_049), 2_049, None).is_err());
    let child = rpcbind_nfs_step(&stage, &nfs_context(2_049), 2_049, Some(Vec::new())).unwrap();
    assert_eq!(child.derivation_kind.as_deref(), Some("rpcbindGetAddress"));
    assert_eq!(child.parent_entity_id.as_deref(), Some("127.0.0.1:2049"));
    assert_eq!(child.identity, b"nfs3://127.0.0.1:2049".to_vec());
}

#[test]
fn rpcbind_reply_for_another_host_or_port_zero_is_refused() {
    let target = IpAddress::V4([127, 0, 0, 1]);
    let other = IpAddress::V4([127, 0, 0, 2]);
    let mut stage = RpcbindStage::AwaitingGetAddress;
    let ctx = nfs_context(111);
    let text = "127.0.0.2".to_string();
    assert!(rpcbind_address_step(&mut stage, &ctx, other, &text, 2_049, Some(target), None).is_err());
    let text = "127.0.0.1".to_string();
    assert!(rpcbind_address_step(&mut stage, &ctx, target, &text, 0, Some(target), None).is_err());
    assert_eq!(stage, RpcbindStage::AwaitingGetAddress);
    let (_, follow_up) =
        rpcbind_address_step(&mut stage, &ctx, target, &text, 2_049, Some(target), None).unwrap();
    assert_eq!(follow_up, None);
    assert_eq!(stage, RpcbindStage::AwaitingGetAddress);
}

#[test]
fn uuid_groups_may_carry_a_plus_sign() {
    let parsed = parse_uuid_urn("urn:uuid:+1000000-0000-0000-0000-0000000000ff").unwrap();
    assert_eq!(parsed[0], 1);
    assert_eq!(parsed[15], 0xff);
    assert!(parse_uuid_urn("urn:uuid:1+000000-0000-0000-0000-0000000000ff").is_none());
}

use nodenet_native::discovery::{
    admit_new_row, DiscoveryCounters, NativeDiscoveryMetadataField, NativeDiscoveryRow,
};
use nodenet_native::discovery_order::{
    compare_bytes, compare_fields, finalize_rows, normalize_row, row_precedes, sort_rows,
    Precedence,
};
use nodenet_native::discovery_rows::{
    datagram_admitted, mark_truncated, merge_rows, pin_transfer_port, rpcbind_endpoint_admitted,
    source_port_matches, ReplyPortRule,
};
use nodenet_native::results::IpAddress;

fn field(key: &str, value: &str) -> NativeDiscoveryMetadataField {
    NativeDiscoveryMetadataField {
        key: key.into(),
        value: value.as_bytes().to_vec(),
        text: Some(value.into()),
    }
}

fn row(operation_id: u32, responder: &str, identity: &str) -> NativeDiscoveryRow {
    NativeDiscoveryRow {
        entity_id: String::new(),
        parent_entity_id: None,
        derivation_kind: None,
        operation_id,
        protocol: "udp".into(),
        kind: "service".into(),
        evidence: "response".into(),
        outcome: "partial".into(),
        responder: responder.into(),
        responder_port: 111,
        interface_index: None,
        identity: identity.as_bytes().to_vec(),
        addresses: Vec::new(),
        metadata: Vec::new(),
        truncated: false,
    }
}

fn counters() -> DiscoveryCounters {
    DiscoveryCounters {
        queries: 0,
        sent: 0,
        received: 0,
        received_bytes: 0,
        accepted: 3,
        duplicate: 0,
        rejected: 0,
        truncated: 0,
        cleanup_sent: 0,
    }
}

const TARGET: IpAddress = IpAddress::V4([192, 0, 2, 10]);
const OTHER: IpAddress = IpAddress::V4([192, 0, 2, 11]);

#[test]
fn reply_ports_follow_the_query_rule() {
    assert!(source_port_matches(ReplyPortRule::AnyNonzero, 49_152));
    assert!(!source_port_matches(ReplyPortRule::AnyNonzero, 0));
    assert!(source_port_matches(ReplyPortRule::Exactly(111), 111));
    assert!(!source_port_matches(ReplyPortRule::Exactly(111), 112));
}

#[test]
fn datagrams_from_elsewhere_or_too_large_are_not_considered() {
    assert!(datagram_admitted(Some(TARGET), TARGET, Some(2), Some(2), 100, 512, true));
    assert!(!datagram_admitted(Some(TARGET), OTHER, None, None, 100, 512, true));
    assert!(datagram_admitted(None, OTHER, None, None, 100, 512, true));
    assert!(!datagram_admitted(None, TARGET, Some(2), Some(3), 100, 512, true));
    assert!(!datagram_admitted(None, TARGET, Some(2), None, 100, 512, true));
    assert!(datagram_admitted(None, TARGET, None, Some(3), 512, 512, true));
    assert!(!datagram_admitted(None, TARGET, None, None, 513, 512, true));
    assert!(!datagram_admitted(None, TARGET, None, None, 100, 512, false));
}

#[test]
fn the_first_transfer_reply_pins_its_port() {
    let mut pinned = None;
    assert!(pin_transfer_port(&mut pinned, 50_000));
    assert_eq!(pinned, Some(50_000));
    assert!(pin_transfer_port(&mut pinned, 50_000));
    assert!(!pin_transfer_port(&mut pinned, 50_001));
    assert_eq!(pinned, Some(50_000));
}

#[test]
fn rpcbind_endpoints_must_name_the_target_and_a_port() {
    assert!(rpcbind_endpoint_admitted(TARGET, 2049, Some(TARGET)));
    assert!(!rpcbind_endpoint_admitted(OTHER, 2049, Some(TARGET)));
    assert!(!rpcbind_endpoint_admitted(TARGET, 0, Some(TARGET)));
    assert!(!rpcbind_endpoint_admitted(TARGET, 2049, None));
}

#[test]
fn a_repeat_merges_new_addresses_fields_and_completion() {
    let mut existing = row(2, "192.0.2.10", "a");
    existing.entity_id = "4".into();
    existing.addresses = vec!["192.0.2.10".into()];
    existing.metadata = vec![field("name", "printer")];
    let mut incoming = row(2, "192.0.2.10", "a");
    incoming.outcome = "complete".into();
    incoming.addresses = vec!["192.0.2.10".into(), "2001:db8::1".into()];
    incoming.metadata = vec![field("name", "printer"), field("model", "x")];
    let merged = merge_rows(&existing, incoming);
    assert_eq!(merged.entity_id, "4");
    assert_eq!(merged.addresses, vec!["192.0.2.10".to_string(), "2001:db8::1".to_string()]);
    assert_eq!(merged.metadata, vec![field("name", "printer"), field("model", "x")]);
    assert_eq!(merged.outcome, "complete");
    assert!(!merged.truncated);
}

#[test]
fn a_truncated_repeat_marks_the_entity_and_addresses_stop_at_the_cap() {
    let mut existing = row(2, "192.0.2.10", "a");
    existing.addresses = (0..32).map(|i| format!("10.0.0.{i}")).collect();
    let mut incoming = row(2, "192.0.2.10", "a");
    incoming.outcome = "truncatedByPolicy".into();
    incoming.addresses = vec!["10.0.1.1".into()];
    let merged = merge_rows(&existing, incoming);
    assert_eq!(merged.addresses.len(), 32);
    assert_eq!(merged.outcome, "truncatedByPolicy");
    assert!(merged.truncated);
}

#[test]
fn marking_truncation_changes_only_outcome_and_flag() {
    let mut entity = row(2, "192.0.2.10", "a");
    mark_truncated(&mut entity);
    assert!(entity.truncated);
    assert_eq!(entity.outcome, "truncatedByPolicy");
    assert_eq!(entity.identity, b"a".to_vec());
}

#[test]
fn repeat_metadata_within_both_budgets_is_retained() {
    assert!(admit_new_row(10, 5, 15, 0, 100));
    assert!(!admit_new_row(10, 6, 15, 0, 100));
    assert!(!admit_new_row(0, 6, 15, 95, 100));
}

#[test]
fn bytes_compare_lexicographically_with_prefixes_first() {
    assert_eq!(compare_bytes(b"abc", b"abd"), Precedence::Before);
    assert_eq!(compare_bytes(b"ab", b"abc"), Precedence::Before);
    assert_eq!(compare_bytes(b"b", b"abc"), Precedence::After);
    assert_eq!(compare_bytes(b"abc", b"abc"), Precedence::Same);
    assert_eq!(compare_fields(&field("a", "1"), &field("a", "2")), Precedence::Before);
    let bare = NativeDiscoveryMetadataField { key: "a".into(), value: b"1".to_vec(), text: None };
    assert_eq!(compare_fields(&bare, &field("a", "1")), Precedence::Before);
}

#[test]
fn entities_order_by_operation_interface_responder_port_and_identity() {
    let first = row(1, "192.0.2.9", "z");
    let mut second = row(2, "192.0.2.10", "a");
    assert!(row_precedes(&first, &second));
    let mut third = row(2, "192.0.2.10", "a");
    third.interface_index = Some(1);
    assert!(row_precedes(&second, &third));
    second.responder_port = 112;
    let fourth = row(2, "192.0.2.10", "b");
    assert!(row_precedes(&fourth, &second));
    let sorted = sort_rows(vec![third.clone(), second.clone(), fourth.clone(), first.clone()]);
    let identities: Vec<(u32, Option<u32>, u32, Vec<u8>)> = sorted
        .iter()
        .map(|r| (r.operation_id, r.interface_index, r.responder_port, r.identity.clone()))
        .collect();
    assert_eq!(
        identities,
        vec![
            (1, None, 111, b"z".to_vec()),
            (2, None, 111, b"b".to_vec()),
            (2, None, 112, b"a".to_vec()),
            (2, Some(1), 111, b"a".to_vec()),
        ]
    );
}

#[test]
fn entity_lists_are_sorted_and_deduplicated() {
    let mut entity = row(2, "192.0.2.10", "a");
    entity.addresses = vec!["b".into(), "a".into(), "b".into(), "ab".into()];
    entity.metadata = vec![field("z", "1"), field("a", "2"), field("z", "1"), field("a", "1")];
    let normalized = normalize_row(entity);
    assert_eq!(normalized.addresses, vec!["a".to_string(), "ab".to_string(), "b".to_string()]);
    assert_eq!(
        normalized.metadata,
        vec![field("a", "1"), field("a", "2"), field("z", "1")]
    );
}

#[test]
fn finalizing_numbers_entities_and_points_children_at_their_parent() {
    let parent = row(7, "192.0.2.10", "192.0.2.10:2049");
    let mut child = row(7, "192.0.2.10", "nfs3://192.0.2.10:2049");
    child.derivation_kind = Some("rpcbindGetAddress".into());
    child.parent_entity_id = Some("192.0.2.10:2049".into());
    let mut orphan = row(7, "192.0.2.10", "nfs3://192.0.2.10:4000");
    orphan.derivation_kind = Some("rpcbindGetAddress".into());
    orphan.parent_entity_id = Some("192.0.2.10:4000".into());
    let mut tally = counters();
    let rows = finalize_rows(vec![orphan, child, parent], &mut tally);
    assert_eq!(rows.len(), 2);
    assert_eq!(rows[0].entity_id, "1");
    assert_eq!(rows[0].identity, b"192.0.2.10:2049".to_vec());
    assert_eq!(rows[0].parent_entity_id, None);
    assert_eq!(rows[1].entity_id, "2");
    assert_eq!(rows[1].parent_entity_id, Some("1".to_string()));
    assert_eq!(tally.rejected, 1);
    assert_eq!(tally.accepted, 2);
}

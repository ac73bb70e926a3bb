use nodenet_native::discovery::{DiscoveryCounters, NativeDiscoveryMetadataField, NativeDiscoveryRow};
use nodenet_native::harvest::{Harvest, QueryBudget};

fn row(identity: &str, outcome: &str) -> NativeDiscoveryRow {
    NativeDiscoveryRow {
        entity_id: String::new(),
        parent_entity_id: None,
        derivation_kind: None,
        operation_id: 1,
        protocol: "mdns".into(),
        kind: "service".into(),
        evidence: "response".into(),
        outcome: outcome.into(),
        responder: "192.0.2.9".into(),
        responder_port: 5353,
        interface_index: Some(2),
        identity: identity.as_bytes().to_vec(),
        addresses: vec!["192.0.2.9".into()],
        metadata: vec![NativeDiscoveryMetadataField {
            key: "k".into(),
            value: b"v".to_vec(),
            text: Some("v".into()),
        }],
        truncated: false,
    }
}

fn zero() -> DiscoveryCounters {
    DiscoveryCounters {
        queries: 0,
        sent: 0,
        received: 0,
        received_bytes: 0,
        accepted: 0,
        duplicate: 0,
        rejected: 0,
        truncated: 0,
        cleanup_sent: 0,
    }
}

fn budget(entities: usize, bytes: u64) -> QueryBudget {
    QueryBudget {
        retained_entities: 0,
        retained_metadata_bytes: 0,
        maximum_entities: entities,
        maximum_metadata_bytes: bytes,
    }
}

#[test]
fn new_entities_are_numbered_and_repeats_merge() {
    let mut harvest = Harvest { rows: Vec::new(), retained_metadata_bytes: 0 };
    let mut query = budget(8, 4096);
    let mut counters = zero();
    harvest.take(&mut query, &mut counters, row("a", "partial"), 100, 4096).unwrap();
    harvest.take(&mut query, &mut counters, row("b", "partial"), 100, 4096).unwrap();
    assert_eq!(harvest.rows.len(), 2);
    assert_eq!(harvest.rows[1].entity_id, "2");
    // identity 1 + address 9 + field 1 + 1 + 1 = 13 bytes each
    assert_eq!(harvest.retained_metadata_bytes, 26);
    assert_eq!(query.retained_entities, 2);
    let mut repeat = row("a", "complete");
    repeat.addresses = vec!["2001:db8::9".into()];
    harvest.take(&mut query, &mut counters, repeat, 100, 4096).unwrap();
    assert_eq!(harvest.rows.len(), 2);
    assert_eq!(harvest.rows[0].outcome, "complete");
    assert_eq!(harvest.rows[0].addresses.len(), 2);
    assert_eq!(harvest.retained_metadata_bytes, 37);
    assert_eq!(counters.accepted, 2);
    assert_eq!(counters.duplicate, 1);
    assert_eq!(counters.truncated, 0);
}

#[test]
fn caps_and_budgets_truncate_instead_of_keeping() {
    let mut harvest = Harvest { rows: Vec::new(), retained_metadata_bytes: 0 };
    let mut query = budget(1, 4096);
    let mut counters = zero();
    harvest.take(&mut query, &mut counters, row("a", "complete"), 100, 4096).unwrap();
    harvest.take(&mut query, &mut counters, row("b", "complete"), 100, 4096).unwrap();
    assert_eq!(harvest.rows.len(), 1);
    assert_eq!(counters.truncated, 1);
    let mut other = budget(8, 4096);
    harvest.take(&mut other, &mut counters, row("c", "complete"), 1, 4096).unwrap();
    assert_eq!(harvest.rows.len(), 1);
    assert_eq!(counters.truncated, 2);
    let mut tight = budget(8, 10);
    let mut repeat = row("a", "complete");
    repeat.addresses = vec!["2001:db8::9".into()];
    harvest.take(&mut tight, &mut counters, repeat, 100, 4096).unwrap();
    assert!(harvest.rows[0].truncated);
    assert_eq!(harvest.rows[0].outcome, "truncatedByPolicy");
    assert_eq!(harvest.rows[0].addresses.len(), 1);
    assert_eq!(counters.truncated, 3);
    let mut session_full = budget(8, 4096);
    harvest.take(&mut session_full, &mut counters, row("d", "complete"), 100, 20).unwrap();
    assert_eq!(harvest.rows.len(), 1);
    assert_eq!(counters.truncated, 4);
}

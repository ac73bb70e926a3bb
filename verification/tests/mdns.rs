use nodenet_native::discovery_replies::ReplyContext;
use nodenet_native::mdns::{
    absorb_records, new_queries, service_rows, DnsName, MdnsEntry, MdnsRecord, MdnsRecordData,
    TxtEntry,
};

const ENUMERATION: &[u8] = b"\x09_services\x07_dns-sd\x04_udp\x05local\0";

fn name(wire: &[u8], text: &str) -> DnsName {
    DnsName { wire: wire.to_vec(), text: Some(text.into()) }
}

fn record(owner: DnsName, ttl: u32, data: MdnsRecordData) -> MdnsRecord {
    MdnsRecord { name: owner, ttl, data }
}

fn context() -> ReplyContext {
    ReplyContext {
        operation_id: 1,
        protocol: "mdns".into(),
        evidence: "ProtocolTransaction".into(),
        responder: "192.0.2.9".into(),
        responder_port: 5353,
        interface_index: Some(2),
        hop_limit: None,
    }
}

#[test]
fn an_enumeration_reply_asks_for_each_service_type() {
    let mut services: Vec<MdnsEntry> = Vec::new();
    let reply = vec![record(
        name(ENUMERATION, "_services._dns-sd._udp.local"),
        120,
        MdnsRecordData::Ptr(name(b"\x04_ipp\x04_tcp\x05local\0", "_ipp._tcp.local")),
    )];
    let follow_ups = absorb_records(&mut services, &reply, false);
    assert!(services.is_empty());
    assert_eq!(follow_ups.len(), 1);
    assert_eq!(follow_ups[0].query_type, 12);
    assert_eq!(follow_ups[0].text, Some("_ipp._tcp.local".to_string()));
}

#[test]
fn service_records_merge_into_one_complete_entity() {
    let instance = b"\x07printer\x04_ipp\x04_tcp\x05local\0";
    let host = b"\x04host\x05local\0";
    let mut services: Vec<MdnsEntry> = Vec::new();
    let first = vec![
        record(
            name(b"\x04_ipp\x04_tcp\x05local\0", "_ipp._tcp.local"),
            4500,
            MdnsRecordData::Ptr(name(instance, "printer._ipp._tcp.local")),
        ),
        record(
            name(instance, "printer._ipp._tcp.local"),
            120,
            MdnsRecordData::Srv { port: 631, target: name(host, "host.local") },
        ),
    ];
    let follow_ups = absorb_records(&mut services, &first, false);
    let types: Vec<u16> = follow_ups.iter().map(|q| q.query_type).collect();
    assert_eq!(types, vec![33, 16, 1, 28]);
    let rows = service_rows(&context(), &services).unwrap();
    assert_eq!(rows.len(), 1);
    assert_eq!(rows[0].outcome, "partial");
    let second = vec![
        record(name(host, "host.local"), 120, MdnsRecordData::Aaaa("2001:db8::9".into())),
        record(name(host, "host.local"), 120, MdnsRecordData::A("192.0.2.9".into())),
        record(
            name(instance, "printer._ipp._tcp.local"),
            4500,
            MdnsRecordData::Txt(vec![TxtEntry {
                key: "rp".into(),
                value: b"ipp/print".to_vec(),
                text_value: Some("ipp/print".into()),
            }]),
        ),
    ];
    absorb_records(&mut services, &second, false);
    let rows = service_rows(&context(), &services).unwrap();
    let row = &rows[0];
    assert_eq!(row.outcome, "complete");
    assert_eq!(row.identity, instance.to_vec());
    assert_eq!(row.addresses, vec!["192.0.2.9".to_string(), "2001:db8::9".to_string()]);
    let fields: Vec<(String, Option<String>)> =
        row.metadata.iter().map(|f| (f.key.clone(), f.text.clone())).collect();
    assert_eq!(
        fields,
        vec![
            ("instance".to_string(), Some("printer._ipp._tcp.local".to_string())),
            ("serviceType".to_string(), Some("_ipp._tcp.local".to_string())),
            ("target".to_string(), Some("host.local".to_string())),
            ("port".to_string(), Some("631".to_string())),
            ("ttl".to_string(), Some("120".to_string())),
            ("ttl".to_string(), Some("4500".to_string())),
            ("rp".to_string(), Some("ipp/print".to_string())),
        ]
    );
}

#[test]
fn services_are_kept_in_wire_order_and_truncation_marks_them_partial() {
    let mut services: Vec<MdnsEntry> = Vec::new();
    let reply = vec![
        record(name(b"b", "b"), 10, MdnsRecordData::Txt(Vec::new())),
        record(name(b"a", "a"), 10, MdnsRecordData::Txt(Vec::new())),
        record(name(b"b", "b"), 20, MdnsRecordData::Unknown),
    ];
    absorb_records(&mut services, &reply, true);
    let wires: Vec<Vec<u8>> = services.iter().map(|e| e.wire.clone()).collect();
    assert_eq!(wires, vec![b"a".to_vec(), b"b".to_vec()]);
    assert!(services.iter().all(|e| e.service.partial));
}

#[test]
fn follow_up_queries_take_free_transaction_identifiers_once_each() {
    let mut queries = new_queries(65535);
    assert_eq!(queries.next_transaction_id, 1);
    assert!(queries.answers(65535));
    let wire = b"\x04host\x05local\0".to_vec();
    let id = queries.reserve(&wire, true, 1).unwrap();
    assert_eq!(id, 1);
    queries.commit(id, &wire, 1);
    assert!(queries.answers(1));
    assert_eq!(queries.reserve(&wire, true, 1), None);
    assert_eq!(queries.reserve(&wire, false, 28), None);
    let second = queries.reserve(&wire, true, 28).unwrap();
    assert_eq!(second, 2);
    let mut crowded = new_queries(5);
    crowded.next_transaction_id = 5;
    let other = crowded.reserve(&wire, true, 1).unwrap();
    assert_eq!(other, 6);
}

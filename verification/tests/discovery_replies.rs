use nodenet_native::discovery_replies::{
    llmnr_rows, names_match, nat_pmp_row, nfs_row, quic_row, rpcbind_row, sql_browser_rows,
    tftp_row, ws_discovery_rows, AnswerAddress, LlmnrAnswer, ReplyContext, SqlInstance, TftpReply,
    WsMatch,
};

fn context(hop_limit: Option<u32>) -> ReplyContext {
    ReplyContext {
        operation_id: 4,
        protocol: "llmnr".into(),
        evidence: "ProtocolTransaction".into(),
        responder: "192.0.2.7".into(),
        responder_port: 5355,
        interface_index: Some(2),
        hop_limit,
    }
}

fn field_pairs(row: &nodenet_native::discovery::NativeDiscoveryRow) -> Vec<(String, Option<String>)> {
    row.metadata.iter().map(|f| (f.key.clone(), f.text.clone())).collect()
}

fn answer(name: &str, class: u16, kind: u16, address: AnswerAddress) -> LlmnrAnswer {
    LlmnrAnswer {
        name_wire: name.as_bytes().to_vec(),
        name_text: Some(name.into()),
        record_class: class,
        record_type: kind,
        ttl: 30,
        address,
    }
}

#[test]
fn llmnr_names_match_without_trailing_dots_or_ascii_case() {
    assert!(names_match("Printer.local.", "printer.LOCAL"));
    assert!(names_match("host..", "HOST"));
    assert!(!names_match("host1", "host"));
    assert!(!names_match("hóst", "HÓST"));
}

#[test]
fn llmnr_rows_keep_answers_for_the_queried_name_and_type() {
    let answers = vec![
        answer("HOST.", 1, 1, AnswerAddress::V4("192.0.2.7".into())),
        answer("other", 1, 1, AnswerAddress::V4("192.0.2.8".into())),
        answer("host", 3, 1, AnswerAddress::V4("192.0.2.9".into())),
        answer("host", 1, 28, AnswerAddress::V6("2001:db8::1".into())),
    ];
    let rows = llmnr_rows(&context(Some(255)), &answers, &"host".to_string(), 1, false, true).unwrap();
    assert_eq!(rows.len(), 1);
    let row = &rows[0];
    assert_eq!(row.kind, "name");
    assert_eq!(row.outcome, "complete");
    assert_eq!(row.identity, b"HOST.".to_vec());
    assert_eq!(row.addresses, vec!["192.0.2.7".to_string()]);
    assert_eq!(row.responder_port, 5355);
    assert_eq!(
        field_pairs(row),
        vec![
            ("address".to_string(), Some("192.0.2.7".to_string())),
            ("conflict".to_string(), Some("false".to_string())),
            ("tentative".to_string(), Some("true".to_string())),
            ("ttl".to_string(), Some("30".to_string())),
            ("receivedHopLimit".to_string(), Some("255".to_string())),
        ]
    );
    assert!(llmnr_rows(&context(None), &answers, &"absent".to_string(), 1, false, false).is_err());
}

#[test]
fn nat_pmp_and_quic_rows_describe_the_responder() {
    let gateway = nat_pmp_row(&context(None), &"198.51.100.4".to_string(), 3600, 0).unwrap();
    assert_eq!(gateway.kind, "gateway");
    assert_eq!(gateway.identity, b"192.0.2.7".to_vec());
    assert_eq!(gateway.addresses, vec!["192.0.2.7".to_string()]);
    assert_eq!(
        field_pairs(&gateway),
        vec![
            ("externalAddress".to_string(), Some("198.51.100.4".to_string())),
            ("epochSeconds".to_string(), Some("3600".to_string())),
            ("resultCode".to_string(), Some("0".to_string())),
        ]
    );
    let quic = quic_row(&context(None), &vec![1, 0xff00_001d]).unwrap();
    assert_eq!(
        field_pairs(&quic),
        vec![
            ("version".to_string(), Some("0x00000001".to_string())),
            ("version".to_string(), Some("0xff00001d".to_string())),
        ]
    );
}

#[test]
fn tftp_rows_report_what_the_server_answered() {
    let data = tftp_row(&context(None), &TftpReply::Data { block: 1, payload_bytes: 512 }).unwrap();
    assert_eq!(data.identity, b"192.0.2.7:5355".to_vec());
    assert_eq!(
        field_pairs(&data),
        vec![
            ("response".to_string(), Some("data".to_string())),
            ("block".to_string(), Some("1".to_string())),
            ("payloadBytes".to_string(), Some("512".to_string())),
        ]
    );
    let oack = tftp_row(
        &context(None),
        &TftpReply::OptionAcknowledgement(vec![("blksize".into(), "1428".into())]),
    )
    .unwrap();
    assert_eq!(
        field_pairs(&oack),
        vec![
            ("response".to_string(), Some("oack".to_string())),
            ("blksize".to_string(), Some("1428".to_string())),
        ]
    );
    let error = tftp_row(&context(None), &TftpReply::Error { code: 1, message: "File not found".into() }).unwrap();
    assert_eq!(error.metadata[2].text, Some("File not found".to_string()));
}

#[test]
fn rpcbind_parent_and_nfs_child_rows_link_by_identity() {
    let parent = rpcbind_row(&context(None), &"192.0.2.7".to_string(), 2049).unwrap();
    assert_eq!(parent.identity, b"192.0.2.7:2049".to_vec());
    assert_eq!(parent.metadata[2].text, Some("2049".to_string()));
    let child = nfs_row(&context(None), 2049, vec![1, 2, 3], &"192.0.2.7:2049".to_string()).unwrap();
    assert_eq!(child.identity, b"nfs3://192.0.2.7:2049".to_vec());
    assert_eq!(child.kind, "derivedService");
    assert_eq!(child.parent_entity_id, Some("192.0.2.7:2049".to_string()));
    assert_eq!(child.derivation_kind, Some("rpcbindGetAddress".to_string()));
    assert_eq!(child.metadata[2].value, vec![1, 2, 3]);
    assert_eq!(child.metadata[2].text, None);
}

#[test]
fn ws_discovery_and_sql_browser_rows_list_each_match() {
    let matches = vec![WsMatch {
        endpoint_address: "urn:uuid:1".into(),
        types: vec!["dn:NetworkVideoTransmitter".into()],
        scopes: vec!["onvif://a".into(), "onvif://b".into()],
        xaddrs: vec![],
        metadata_version: 2,
    }];
    let rows = ws_discovery_rows(&context(None), &matches).unwrap();
    assert_eq!(rows[0].kind, "device");
    assert_eq!(
        field_pairs(&rows[0]).iter().map(|(k, _)| k.as_str()).collect::<Vec<_>>(),
        vec!["type", "scope", "scope", "metadataVersion"]
    );
    assert!(ws_discovery_rows(&context(None), &Vec::new()).is_err());
    let instances = vec![SqlInstance {
        server_name: "DB1".into(),
        instance_name: "SQLEXPRESS".into(),
        fields: vec![("Version".into(), "15.0".into())],
    }];
    let rows = sql_browser_rows(&context(None), &instances).unwrap();
    assert_eq!(rows.len(), 2);
    assert_eq!(rows[0].identity, b"sql-browser://192.0.2.7:1434".to_vec());
    assert_eq!(rows[0].metadata[2].text, Some("1".to_string()));
    assert_eq!(rows[1].identity, b"DB1\\SQLEXPRESS".to_vec());
    assert_eq!(rows[1].kind, "databaseInstance");
}

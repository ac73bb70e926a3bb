//! Terminal scan results and their sealed columnar little-endian batches.
use vstd::prelude::*;
use vstd::utf8::*;

use crate::text::{decimal, decimal_string, owned};

verus! {

broadcast use vstd::string::group_string_axioms;

/// The row-count and offset value written when a quantity does not fit.
pub const MISSING_U64: u64 = 0xffff_ffff_ffff_ffff;

/// An IP address as its network-order octets.
#[derive(Clone, Copy, Debug, PartialEq, Eq)]
pub enum IpAddress {
    V4([u8; 4]),
    V6([u8; 16]),
}

/// The probe families a scan can emit.
#[derive(Clone, Copy, Debug, PartialEq, Eq, Structural)]
pub enum ProbeFamily {
    Arp,
    Ndp,
    Icmpv4Echo,
    Icmpv6Echo,
    TcpSyn,
    Udp,
}

/// The network state a probe observed.
#[derive(Clone, Copy, Debug, PartialEq, Eq, Structural)]
pub enum NetworkState {
    Open,
    Closed,
    Filtered,
    OpenOrFiltered,
    Up,
    Unreachable,
    Unknown,
    DownByPolicy,
}

/// How a logical probe ended.
#[derive(Clone, Copy, Debug, PartialEq, Eq, Structural)]
pub enum ProbeOutcome {
    Network(NetworkState),
    Cancelled,
    SessionDeadline,
    TransportFailed,
    ContextInvalidated,
}

/// How strongly a response was tied to its probe.
#[derive(Clone, Copy, Debug, PartialEq, Eq, Structural)]
pub enum EvidenceStrength {
    TupleCorrelatedUnauthenticated,
    TruncatedQuote,
    StrongTcpSequence32,
    StrongPayload128,
    ProtocolTransaction16,
    ProtocolTransaction32,
    ProtocolTransaction64,
    AlternateEndpointHandshake,
}

/// Why a logical probe reached its terminal state. `Evidence` carries the
/// name of the evidence kind.
#[derive(Clone, Debug, PartialEq, Eq)]
pub enum TerminalReason {
    Evidence(String),
    Timeout,
    Cancelled,
    SessionDeadline,
    TransportFailure(u32),
    ContextInvalidated,
}

/// Service identification carried by a UDP result.
#[derive(Clone, Debug, PartialEq, Eq)]
pub struct UdpServiceEvidence {
    pub family: u16,
    pub confidence: u8,
    pub metadata: Vec<u8>,
}

/// The UDP programme evidence of a result.
#[derive(Clone, Debug, PartialEq, Eq)]
pub struct UdpResultEvidence {
    pub terminal_probe_id: Option<u16>,
    pub variants_attempted: u16,
    pub response_kind: u8,
    pub service: Option<UdpServiceEvidence>,
}

/// One terminal logical-probe result.
#[derive(Clone, Debug, PartialEq, Eq)]
pub struct ScanResult {
    pub logical_id: u64,
    pub address: IpAddress,
    pub scope: Option<u32>,
    pub family: ProbeFamily,
    pub port: Option<u16>,
    pub outcome: ProbeOutcome,
    pub evidence_strength: Option<EvidenceStrength>,
    pub attempt: u32,
    pub transmissions: u32,
    pub rtt_micros: Option<u64>,
    pub terminal_at_micros: u64,
    pub route_generation: u64,
    pub terminal_reason: TerminalReason,
    pub udp: Option<UdpResultEvidence>,
}

/// A sealed batch of result rows: one little-endian column per field, with
/// `u32` end offsets for the variable-length columns, and the UDP columns only
/// in schema version 2.
pub struct SealedScanResultBatch {
    pub schema_version: u32,
    pub row_count: u32,
    pub address_bytes: Vec<u8>,
    pub address_offsets: Vec<u8>,
    pub families: Vec<u8>,
    pub scopes: Vec<u8>,
    pub probes: Vec<u8>,
    pub ports: Vec<u8>,
    pub states: Vec<u8>,
    pub outcomes: Vec<u8>,
    pub attempts: Vec<u8>,
    pub transmissions: Vec<u8>,
    pub rtt_nanoseconds: Vec<u8>,
    pub timestamps_nanoseconds: Vec<u8>,
    pub route_generations: Vec<u8>,
    pub evidence: Vec<u8>,
    pub metadata_bytes: Vec<u8>,
    pub metadata_offsets: Vec<u8>,
    pub terminal_udp_probe_ids: Option<Vec<u8>>,
    pub udp_variants_attempted: Option<Vec<u8>>,
    pub udp_response_kinds: Option<Vec<u8>>,
    pub udp_service_families: Option<Vec<u8>>,
    pub udp_service_confidences: Option<Vec<u8>>,
    pub service_metadata_bytes: Option<Vec<u8>>,
    pub service_metadata_offsets: Option<Vec<u8>>,
}

/// The little-endian bytes of a `u16`.
pub open spec fn le16(v: u16) -> Seq<u8> {
    seq![(v % 256) as u8, (v / 256) as u8]
}

/// The little-endian bytes of a `u32`.
pub open spec fn le32(v: u32) -> Seq<u8> {
    seq![
        (v % 256) as u8,
        ((v / 256) % 256) as u8,
        ((v / 65536) % 256) as u8,
        (v / 16777216) as u8,
    ]
}

/// The little-endian bytes of a `u64`.
pub open spec fn le64(v: u64) -> Seq<u8> {
    seq![
        (v % 256) as u8,
        ((v / 0x100) % 256) as u8,
        ((v / 0x1_0000) % 256) as u8,
        ((v / 0x100_0000) % 256) as u8,
        ((v / 0x1_0000_0000) % 256) as u8,
        ((v / 0x100_0000_0000) % 256) as u8,
        ((v / 0x1_0000_0000_0000) % 256) as u8,
        (v / 0x100_0000_0000_0000) as u8,
    ]
}

/// A length or count as a `u32`, `u32::MAX` when it does not fit.
pub open spec fn clamp32(n: int) -> u32 {
    if n > 0xffff_ffff {
        0xffff_ffff
    } else {
        n as u32
    }
}

/// Microseconds as nanoseconds, saturating at `u64::MAX`.
pub open spec fn nanos(micros: u64) -> u64 {
    if micros * 1000 > 0xffff_ffff_ffff_ffff {
        0xffff_ffff_ffff_ffff
    } else {
        (micros * 1000) as u64
    }
}

/// The wire code of a probe family.
pub open spec fn probe_code(value: ProbeFamily) -> u8 {
    match value {
        ProbeFamily::Arp => 1,
        ProbeFamily::Ndp => 2,
        ProbeFamily::Icmpv4Echo => 3,
        ProbeFamily::Icmpv6Echo => 4,
        ProbeFamily::TcpSyn => 5,
        ProbeFamily::Udp => 6,
    }
}

/// The wire code of a network state.
pub open spec fn network_state_code(value: NetworkState) -> u8 {
    match value {
        NetworkState::Open => 1,
        NetworkState::Closed => 2,
        NetworkState::Filtered => 3,
        NetworkState::OpenOrFiltered => 4,
        NetworkState::Up => 5,
        NetworkState::Unreachable => 6,
        NetworkState::Unknown => 7,
        NetworkState::DownByPolicy => 8,
    }
}

/// The wire code of a probe outcome.
pub open spec fn outcome_code(value: ProbeOutcome) -> u8 {
    match value {
        ProbeOutcome::Network(_) => 1,
        ProbeOutcome::Cancelled => 2,
        ProbeOutcome::SessionDeadline => 3,
        ProbeOutcome::TransportFailed => 4,
        ProbeOutcome::ContextInvalidated => 5,
    }
}

/// The wire code of an evidence strength.
pub open spec fn evidence_code(value: EvidenceStrength) -> u8 {
    match value {
        EvidenceStrength::TupleCorrelatedUnauthenticated => 1,
        EvidenceStrength::TruncatedQuote => 2,
        EvidenceStrength::StrongTcpSequence32 => 3,
        EvidenceStrength::StrongPayload128 => 4,
        EvidenceStrength::ProtocolTransaction16 => 5,
        EvidenceStrength::ProtocolTransaction32 => 6,
        EvidenceStrength::ProtocolTransaction64 => 7,
        EvidenceStrength::AlternateEndpointHandshake => 8,
    }
}

/// The text recorded for a terminal reason.
pub open spec fn reason_text(value: TerminalReason) -> Seq<char> {
    match value {
        TerminalReason::Evidence(kind) => "evidence:"@ + kind@,
        TerminalReason::Timeout => "timeout"@,
        TerminalReason::Cancelled => "cancelled"@,
        TerminalReason::SessionDeadline => "deadline"@,
        TerminalReason::TransportFailure(code) => "transport:"@ + decimal(code as nat),
        TerminalReason::ContextInvalidated => "contextInvalidated"@,
    }
}

/// The number of service metadata bytes a result retains.
pub open spec fn service_bytes(value: ScanResult) -> nat {
    match value.udp {
        Some(udp) => match udp.service {
            Some(service) => service.metadata@.len(),
            None => 0,
        },
        None => 0,
    }
}

/// The columns of a sealed batch.
pub enum Column {
    Address,
    Family,
    Scope,
    Probe,
    Port,
    State,
    Outcome,
    Attempt,
    Transmission,
    Rtt,
    Timestamp,
    RouteGeneration,
    Evidence,
    Reason,
    TerminalProbe,
    Variants,
    ResponseKind,
    ServiceFamily,
    Confidence,
    ServiceMetadata,
}

/// The bytes one row contributes to one column.
pub open spec fn cell(column: Column, r: ScanResult) -> Seq<u8> {
    match column {
        Column::Address => match r.address {
            IpAddress::V4(octets) => octets@,
            IpAddress::V6(octets) => octets@,
        },
        Column::Family => match r.address {
            IpAddress::V4(_) => seq![4u8],
            IpAddress::V6(_) => seq![6u8],
        },
        Column::Scope => le32(
            match r.scope {
                Some(scope) => scope,
                None => 0,
            },
        ),
        Column::Probe => seq![probe_code(r.family)],
        Column::Port => le16(
            match r.port {
                Some(port) => port,
                None => 0,
            },
        ),
        Column::State => seq![
            match r.outcome {
                ProbeOutcome::Network(state) => network_state_code(state),
                _ => 0,
            },
        ],
        Column::Outcome => seq![outcome_code(r.outcome)],
        Column::Attempt => le32(r.attempt),
        Column::Transmission => le32(r.transmissions),
        Column::Rtt => le64(
            match r.rtt_micros {
                Some(micros) => nanos(micros),
                None => MISSING_U64,
            },
        ),
        Column::Timestamp => le64(nanos(r.terminal_at_micros)),
        Column::RouteGeneration => le64(r.route_generation),
        Column::Evidence => seq![
            match r.evidence_strength {
                Some(strength) => evidence_code(strength),
                None => 0,
            },
        ],
        Column::Reason => encode_utf8(reason_text(r.terminal_reason)),
        Column::TerminalProbe => le16(
            match r.udp {
                Some(udp) => match udp.terminal_probe_id {
                    Some(id) => id,
                    None => 0,
                },
                None => 0,
            },
        ),
        Column::Variants => le16(
            match r.udp {
                Some(udp) => udp.variants_attempted,
                None => 0,
            },
        ),
        Column::ResponseKind => seq![
            match r.udp {
                Some(udp) => udp.response_kind,
                None => 0,
            },
        ],
        Column::ServiceFamily => le16(
            match r.udp {
                Some(udp) => match udp.service {
                    Some(service) => service.family,
                    None => 0,
                },
                None => 0,
            },
        ),
        Column::Confidence => seq![
            match r.udp {
                Some(udp) => match udp.service {
                    Some(service) => service.confidence,
                    None => 0,
                },
                None => 0,
            },
        ],
        Column::ServiceMetadata => match r.udp {
            Some(udp) => match udp.service {
                Some(service) => service.metadata@,
                None => Seq::empty(),
            },
            None => Seq::empty(),
        },
    }
}

/// The bytes of one column over a sequence of rows, in order.
pub open spec fn column(rows: Seq<ScanResult>, c: Column) -> Seq<u8>
    decreases rows.len(),
{
    if rows.len() == 0 {
        Seq::empty()
    } else {
        column(rows.drop_last(), c) + cell(c, rows.last())
    }
}

/// The end-offset column of a variable-length column: a leading zero, then
/// the column's length after each row.
pub open spec fn offsets(rows: Seq<ScanResult>, c: Column) -> Seq<u8>
    decreases rows.len(),
{
    if rows.len() == 0 {
        le32(0)
    } else {
        offsets(rows.drop_last(), c) + le32(clamp32(column(rows, c).len() as int))
    }
}

/// Whether a sealed batch holds exactly the rows, in order, under a schema.
pub open spec fn seals(batch: SealedScanResultBatch, rows: Seq<ScanResult>, schema_version: u32) -> bool {
    let udp = schema_version == 2;
    &&& batch.schema_version == schema_version
    &&& batch.row_count == clamp32(rows.len() as int)
    &&& batch.address_bytes@ == column(rows, Column::Address)
    &&& batch.address_offsets@ == offsets(rows, Column::Address)
    &&& batch.families@ == column(rows, Column::Family)
    &&& batch.scopes@ == column(rows, Column::Scope)
    &&& batch.probes@ == column(rows, Column::Probe)
    &&& batch.ports@ == column(rows, Column::Port)
    &&& batch.states@ == column(rows, Column::State)
    &&& batch.outcomes@ == column(rows, Column::Outcome)
    &&& batch.attempts@ == column(rows, Column::Attempt)
    &&& batch.transmissions@ == column(rows, Column::Transmission)
    &&& batch.rtt_nanoseconds@ == column(rows, Column::Rtt)
    &&& batch.timestamps_nanoseconds@ == column(rows, Column::Timestamp)
    &&& batch.route_generations@ == column(rows, Column::RouteGeneration)
    &&& batch.evidence@ == column(rows, Column::Evidence)
    &&& batch.metadata_bytes@ == column(rows, Column::Reason)
    &&& batch.metadata_offsets@ == offsets(rows, Column::Reason)
    &&& (batch.terminal_udp_probe_ids is Some) == udp
    &&& (batch.udp_variants_attempted is Some) == udp
    &&& (batch.udp_response_kinds is Some) == udp
    &&& (batch.udp_service_families is Some) == udp
    &&& (batch.udp_service_confidences is Some) == udp
    &&& (batch.service_metadata_bytes is Some) == udp
    &&& (batch.service_metadata_offsets is Some) == udp
    &&& udp ==> {
        &&& batch.terminal_udp_probe_ids.unwrap()@ == column(rows, Column::TerminalProbe)
        &&& batch.udp_variants_attempted.unwrap()@ == column(rows, Column::Variants)
        &&& batch.udp_response_kinds.unwrap()@ == column(rows, Column::ResponseKind)
        &&& batch.udp_service_families.unwrap()@ == column(rows, Column::ServiceFamily)
        &&& batch.udp_service_confidences.unwrap()@ == column(rows, Column::Confidence)
        &&& batch.service_metadata_bytes.unwrap()@ == column(rows, Column::ServiceMetadata)
        &&& batch.service_metadata_offsets.unwrap()@ == offsets(rows, Column::ServiceMetadata)
    }
}

proof fn lemma_column_step(rows: Seq<ScanResult>, i: int)
    requires
        0 <= i < rows.len(),
    ensures
        forall|c: Column|
            #![trigger column(rows.take(i + 1), c)]
            column(rows.take(i + 1), c) == column(rows.take(i), c) + cell(c, rows[i]),
        forall|c: Column|
            #![trigger offsets(rows.take(i + 1), c)]
            offsets(rows.take(i + 1), c) == offsets(rows.take(i), c) + le32(
                clamp32(column(rows.take(i + 1), c).len() as int),
            ),
{
    assert(rows.take(i + 1).drop_last() =~= rows.take(i));
    assert(rows.take(i + 1).last() == rows[i]);
}

fn push_u16(output: &mut Vec<u8>, value: u16)
    ensures
        final(output)@ == old(output)@ + le16(value),
{
    output.push((value % 256) as u8);
    output.push((value / 256) as u8);
    proof {
        assert(final(output)@ =~= old(output)@ + le16(value));
    }
}

fn push_u32(output: &mut Vec<u8>, value: u32)
    ensures
        final(output)@ == old(output)@ + le32(value),
{
    output.push((value % 256) as u8);
    output.push(((value / 256) % 256) as u8);
    output.push(((value / 65536) % 256) as u8);
    output.push((value / 16777216) as u8);
    proof {
        assert(final(output)@ =~= old(output)@ + le32(value));
    }
}

fn push_u64(output: &mut Vec<u8>, value: u64)
    ensures
        final(output)@ == old(output)@ + le64(value),
{
    output.push((value % 256) as u8);
    output.push(((value / 0x100) % 256) as u8);
    output.push(((value / 0x1_0000) % 256) as u8);
    output.push(((value / 0x100_0000) % 256) as u8);
    output.push(((value / 0x1_0000_0000) % 256) as u8);
    output.push(((value / 0x100_0000_0000) % 256) as u8);
    output.push(((value / 0x1_0000_0000_0000) % 256) as u8);
    output.push((value / 0x100_0000_0000_0000) as u8);
    proof {
        assert(final(output)@ =~= old(output)@ + le64(value));
    }
}

fn append_bytes(output: &mut Vec<u8>, bytes: &[u8])
    ensures
        final(output)@ == old(output)@ + bytes@,
{
    let mut i: usize = 0;
    while i < bytes.len()
        invariant
            i <= bytes@.len(),
            output@ == old(output)@ + bytes@.take(i as int),
        decreases bytes@.len() - i,
    {
        output.push(bytes[i]);
        proof {
            assert(output@ =~= old(output)@ + bytes@.take(i + 1));
        }
        i = i + 1;
    }
    proof {
        assert(bytes@.take(bytes@.len() as int) =~= bytes@);
    }
}

fn length32(n: usize) -> (r: u32)
    ensures
        r == clamp32(n as int),
{
    if n > 0xffff_ffff {
        0xffff_ffff
    } else {
        n as u32
    }
}

fn nanoseconds(micros: u64) -> (r: u64)
    ensures
        r == nanos(micros),
{
    match micros.checked_mul(1000) {
        Some(value) => value,
        None => 0xffff_ffff_ffff_ffff,
    }
}

/// The text recorded for a terminal reason.
pub fn reason_name(value: &TerminalReason) -> (r: String)
    ensures
        r@ == reason_text(*value),
{
    match value {
        TerminalReason::Evidence(kind) => {
            let text = String::from_str("evidence:");
            text.concat(kind.as_str())
        },
        TerminalReason::Timeout => owned("timeout"),
        TerminalReason::Cancelled => owned("cancelled"),
        TerminalReason::SessionDeadline => owned("deadline"),
        TerminalReason::TransportFailure(code) => {
            let digits = decimal_string(*code as u64);
            let text = String::from_str("transport:");
            text.concat(digits.as_str())
        },
        TerminalReason::ContextInvalidated => owned("contextInvalidated"),
    }
}

/// The wire code of a probe family.
pub fn probe_family_code(value: ProbeFamily) -> (r: u8)
    ensures
        r == probe_code(value),
{
    match value {
        ProbeFamily::Arp => 1,
        ProbeFamily::Ndp => 2,
        ProbeFamily::Icmpv4Echo => 3,
        ProbeFamily::Icmpv6Echo => 4,
        ProbeFamily::TcpSyn => 5,
        ProbeFamily::Udp => 6,
    }
}

/// The wire code of a network state.
pub fn state_code(value: NetworkState) -> (r: u8)
    ensures
        r == network_state_code(value),
{
    match value {
        NetworkState::Open => 1,
        NetworkState::Closed => 2,
        NetworkState::Filtered => 3,
        NetworkState::OpenOrFiltered => 4,
        NetworkState::Up => 5,
        NetworkState::Unreachable => 6,
        NetworkState::Unknown => 7,
        NetworkState::DownByPolicy => 8,
    }
}

/// The wire code of a probe outcome.
pub fn probe_outcome_code(value: ProbeOutcome) -> (r: u8)
    ensures
        r == outcome_code(value),
{
    match value {
        ProbeOutcome::Network(_) => 1,
        ProbeOutcome::Cancelled => 2,
        ProbeOutcome::SessionDeadline => 3,
        ProbeOutcome::TransportFailed => 4,
        ProbeOutcome::ContextInvalidated => 5,
    }
}

/// The wire code of an evidence strength.
pub fn evidence_strength_code(value: EvidenceStrength) -> (r: u8)
    ensures
        r == evidence_code(value),
{
    match value {
        EvidenceStrength::TupleCorrelatedUnauthenticated => 1,
        EvidenceStrength::TruncatedQuote => 2,
        EvidenceStrength::StrongTcpSequence32 => 3,
        EvidenceStrength::StrongPayload128 => 4,
        EvidenceStrength::ProtocolTransaction16 => 5,
        EvidenceStrength::ProtocolTransaction32 => 6,
        EvidenceStrength::ProtocolTransaction64 => 7,
        EvidenceStrength::AlternateEndpointHandshake => 8,
    }
}

/// Seals rows into one columnar batch under a schema version: version 2 adds
/// the UDP programme and service columns.
#[verifier::rlimit(60)]
pub fn seal_result_batch(rows: Vec<ScanResult>, schema_version: u32) -> (r: SealedScanResultBatch)
    ensures
        seals(r, rows@, schema_version),
{
    let mut address_bytes: Vec<u8> = Vec::new();
    let mut address_offsets: Vec<u8> = Vec::new();
    let mut families: Vec<u8> = Vec::new();
    let mut scopes: Vec<u8> = Vec::new();
    let mut probes: Vec<u8> = Vec::new();
    let mut ports: Vec<u8> = Vec::new();
    let mut states: Vec<u8> = Vec::new();
    let mut outcomes: Vec<u8> = Vec::new();
    let mut attempts: Vec<u8> = Vec::new();
    let mut transmissions: Vec<u8> = Vec::new();
    let mut rtt_nanoseconds: Vec<u8> = Vec::new();
    let mut timestamps_nanoseconds: Vec<u8> = Vec::new();
    let mut route_generations: Vec<u8> = Vec::new();
    let mut evidence: Vec<u8> = Vec::new();
    let mut metadata_bytes: Vec<u8> = Vec::new();
    let mut metadata_offsets: Vec<u8> = Vec::new();
    let mut terminal_probes: Vec<u8> = Vec::new();
    let mut variants: Vec<u8> = Vec::new();
    let mut response_kinds: Vec<u8> = Vec::new();
    let mut service_families: Vec<u8> = Vec::new();
    let mut confidences: Vec<u8> = Vec::new();
    let mut service_metadata: Vec<u8> = Vec::new();
    let mut service_offsets: Vec<u8> = Vec::new();
    push_u32(&mut address_offsets, 0);
    push_u32(&mut metadata_offsets, 0);
    push_u32(&mut service_offsets, 0);
    let mut i: usize = 0;
    while i < rows.len()
        invariant
            i <= rows@.len(),
            address_bytes@ == column(rows@.take(i as int), Column::Address),
            address_offsets@ == offsets(rows@.take(i as int), Column::Address),
            families@ == column(rows@.take(i as int), Column::Family),
            scopes@ == column(rows@.take(i as int), Column::Scope),
            probes@ == column(rows@.take(i as int), Column::Probe),
            ports@ == column(rows@.take(i as int), Column::Port),
            states@ == column(rows@.take(i as int), Column::State),
            outcomes@ == column(rows@.take(i as int), Column::Outcome),
            attempts@ == column(rows@.take(i as int), Column::Attempt),
            transmissions@ == column(rows@.take(i as int), Column::Transmission),
            rtt_nanoseconds@ == column(rows@.take(i as int), Column::Rtt),
            timestamps_nanoseconds@ == column(rows@.take(i as int), Column::Timestamp),
            route_generations@ == column(rows@.take(i as int), Column::RouteGeneration),
            evidence@ == column(rows@.take(i as int), Column::Evidence),
            metadata_bytes@ == column(rows@.take(i as int), Column::Reason),
            metadata_offsets@ == offsets(rows@.take(i as int), Column::Reason),
            terminal_probes@ == column(rows@.take(i as int), Column::TerminalProbe),
            variants@ == column(rows@.take(i as int), Column::Variants),
            response_kinds@ == column(rows@.take(i as int), Column::ResponseKind),
            service_families@ == column(rows@.take(i as int), Column::ServiceFamily),
            confidences@ == column(rows@.take(i as int), Column::Confidence),
            service_metadata@ == column(rows@.take(i as int), Column::ServiceMetadata),
            service_offsets@ == offsets(rows@.take(i as int), Column::ServiceMetadata),
        decreases rows@.len() - i,
    {
        proof {
            lemma_column_step(rows@, i as int);
        }
        let value = &rows[i];
        match &value.address {
            IpAddress::V4(octets) => {
                families.push(4);
                append_bytes(&mut address_bytes, octets);
            },
            IpAddress::V6(octets) => {
                families.push(6);
                append_bytes(&mut address_bytes, octets);
            },
        }
        push_u32(&mut address_offsets, length32(address_bytes.len()));
        let scope = match value.scope {
            Some(scope) => scope,
            None => 0,
        };
        push_u32(&mut scopes, scope);
        probes.push(probe_family_code(value.family));
        let port = match value.port {
            Some(port) => port,
            None => 0,
        };
        push_u16(&mut ports, port);
        let state = match value.outcome {
            ProbeOutcome::Network(state) => state_code(state),
            _ => 0,
        };
        states.push(state);
        outcomes.push(probe_outcome_code(value.outcome));
        push_u32(&mut attempts, value.attempt);
        push_u32(&mut transmissions, value.transmissions);
        let rtt = match value.rtt_micros {
            Some(micros) => nanoseconds(micros),
            None => MISSING_U64,
        };
        push_u64(&mut rtt_nanoseconds, rtt);
        push_u64(&mut timestamps_nanoseconds, nanoseconds(value.terminal_at_micros));
        push_u64(&mut route_generations, value.route_generation);
        let strength = match value.evidence_strength {
            Some(strength) => evidence_strength_code(strength),
            None => 0,
        };
        evidence.push(strength);
        let reason = reason_name(&value.terminal_reason);
        append_bytes(&mut metadata_bytes, reason.as_str().as_bytes());
        push_u32(&mut metadata_offsets, length32(metadata_bytes.len()));
        match &value.udp {
            Some(udp) => {
                let terminal = match udp.terminal_probe_id {
                    Some(id) => id,
                    None => 0,
                };
                push_u16(&mut terminal_probes, terminal);
                push_u16(&mut variants, udp.variants_attempted);
                response_kinds.push(udp.response_kind);
                match &udp.service {
                    Some(service) => {
                        push_u16(&mut service_families, service.family);
                        confidences.push(service.confidence);
                        append_bytes(&mut service_metadata, service.metadata.as_slice());
                    },
                    None => {
                        push_u16(&mut service_families, 0);
                        confidences.push(0);
                    },
                }
            },
            None => {
                push_u16(&mut terminal_probes, 0);
                push_u16(&mut variants, 0);
                response_kinds.push(0);
                push_u16(&mut service_families, 0);
                confidences.push(0);
            },
        }
        push_u32(&mut service_offsets, length32(service_metadata.len()));
        proof {
            assert(families@ =~= column(rows@.take(i + 1), Column::Family));
            assert(address_bytes@ =~= column(rows@.take(i + 1), Column::Address));
            assert(probes@ =~= column(rows@.take(i + 1), Column::Probe));
            assert(states@ =~= column(rows@.take(i + 1), Column::State));
            assert(outcomes@ =~= column(rows@.take(i + 1), Column::Outcome));
            assert(evidence@ =~= column(rows@.take(i + 1), Column::Evidence));
            assert(response_kinds@ =~= column(rows@.take(i + 1), Column::ResponseKind));
            assert(confidences@ =~= column(rows@.take(i + 1), Column::Confidence));
            assert(service_metadata@ =~= column(rows@.take(i + 1), Column::ServiceMetadata));
        }
        i = i + 1;
    }
    proof {
        assert(rows@.take(rows@.len() as int) =~= rows@);
    }
    let udp = schema_version == 2;
    SealedScanResultBatch {
        schema_version,
        row_count: length32(rows.len()),
        address_bytes,
        address_offsets,
        families,
        scopes,
        probes,
        ports,
        states,
        outcomes,
        attempts,
        transmissions,
        rtt_nanoseconds,
        timestamps_nanoseconds,
        route_generations,
        evidence,
        metadata_bytes,
        metadata_offsets,
        terminal_udp_probe_ids: if udp { Some(terminal_probes) } else { None },
        udp_variants_attempted: if udp { Some(variants) } else { None },
        udp_response_kinds: if udp { Some(response_kinds) } else { None },
        udp_service_families: if udp { Some(service_families) } else { None },
        udp_service_confidences: if udp { Some(confidences) } else { None },
        service_metadata_bytes: if udp { Some(service_metadata) } else { None },
        service_metadata_offsets: if udp { Some(service_offsets) } else { None },
    }
}

} // verus!

//! Single-connection service identification: plan validation against a
//! service registry, the fixed request of each conversation, when a response
//! is complete, and the result record.
use vstd::prelude::*;

use crate::names::{names_sorted, sort_names};
use crate::results::IpAddress;
use crate::scan_error::{
    invalid_plan, scan_failure, scan_fails_with, ScanFailure, ScannerError, ScannerErrorView,
};
use crate::text::{bytes_of, owned, str_eq};

verus! {

broadcast use vstd::string::group_string_axioms;

pub const MAX_CONVERSATION_DEADLINE_MS: u32 = 30000;

/// The metadata bytes a service session reserves.
pub const CONVERSATION_RESERVATION_BYTES: usize = 131072;

/// The consent a service capability needs.
#[derive(Clone, Copy, Debug, PartialEq, Eq, Structural)]
pub enum ServiceRisk {
    ServerFirst,
    ClientNegotiation,
    StatefulHandshake,
    SensitiveRead,
}

/// The consent name of a service risk.
pub open spec fn service_risk_name(risk: ServiceRisk) -> Seq<char> {
    match risk {
        ServiceRisk::ServerFirst => "serverFirst"@,
        ServiceRisk::ClientNegotiation => "clientNegotiation"@,
        ServiceRisk::StatefulHandshake => "statefulHandshake"@,
        ServiceRisk::SensitiveRead => "sensitiveRead"@,
    }
}

/// The consent name of a service risk.
pub fn risk_name(risk: ServiceRisk) -> (r: &'static str)
    ensures
        r@ == service_risk_name(risk),
{
    match risk {
        ServiceRisk::ServerFirst => "serverFirst",
        ServiceRisk::ClientNegotiation => "clientNegotiation",
        ServiceRisk::StatefulHandshake => "statefulHandshake",
        ServiceRisk::SensitiveRead => "sensitiveRead",
    }
}

/// One registered service capability.
#[derive(Clone, Debug)]
pub struct ServiceDescriptor {
    pub id: String,
    pub no_go: bool,
    pub risk: ServiceRisk,
    pub maximum_request_bytes: usize,
    pub maximum_response_bytes: usize,
}

/// A requested service identification.
#[derive(Clone)]
pub struct NativeServiceIdentificationPlan {
    pub capability_id: String,
    pub target: String,
    pub port: u32,
    pub deadline_ms: u32,
    pub allow_risks: Vec<String>,
}

/// A parsed target: its address and its form as an HTTP host
/// (`a.b.c.d` or `[v6]`).
#[derive(Clone, Debug)]
pub struct ServiceTarget {
    pub address: IpAddress,
    pub host: String,
}

/// An admitted service identification.
pub struct ValidatedServicePlan {
    pub capability_id: String,
    pub target: IpAddress,
    pub port: u16,
    pub deadline_ms: u32,
    pub maximum_response_bytes: usize,
    pub request: Vec<u8>,
}

/// The request a conversation sends before reading: nothing for
/// server-first protocols, the PostgreSQL SSL request, a Redis `PING`, or an
/// HTTP `HEAD` for the host; nothing admitted for any other capability.
pub open spec fn conversation_request(capability: Seq<char>, host: Seq<char>) -> Option<Seq<u8>> {
    if capability == "ssh-identification"@ || capability == "ftp-greeting"@ || capability
        == "smtp-greeting"@ || capability == "pop3-greeting"@ || capability == "imap-greeting"@
        || capability == "mysql-initial-handshake"@ {
        Some(Seq::empty())
    } else if capability == "postgresql-ssl-request"@ {
        Some(seq![0u8, 0, 0, 8, 4, 210, 22, 47])
    } else if capability == "redis-ping"@ {
        Some(vstd::utf8::encode_utf8("*1\r\n$4\r\nPING\r\n"@))
    } else if capability == "http-head"@ {
        Some(
            vstd::utf8::encode_utf8(
                "HEAD / HTTP/1.1\r\nHost: "@ + host + "\r\nConnection: close\r\n\r\n"@,
            ),
        )
    } else {
        None
    }
}

/// The request of a capability's conversation.
pub fn request_bytes(capability: &str, host: &str) -> (r: Result<Vec<u8>, ScannerError>)
    ensures
        match conversation_request(capability@, host@) {
            Some(bytes) => r matches Ok(v) && v@ == bytes,
            None => scan_fails_with(
                r,
                invalid_plan(
                    "start service identification"@,
                    "service capability has no admitted native conversation"@,
                ),
            ),
        },
{
    if str_eq(capability, "ssh-identification") || str_eq(capability, "ftp-greeting") || str_eq(
        capability,
        "smtp-greeting",
    ) || str_eq(capability, "pop3-greeting") || str_eq(capability, "imap-greeting") || str_eq(
        capability,
        "mysql-initial-handshake",
    ) {
        return Ok(Vec::new());
    }
    if str_eq(capability, "postgresql-ssl-request") {
        let mut v: Vec<u8> = Vec::new();
        v.push(0);
        v.push(0);
        v.push(0);
        v.push(8);
        v.push(4);
        v.push(210);
        v.push(22);
        v.push(47);
        proof {
            assert(v@ =~= seq![0u8, 0, 0, 8, 4, 210, 22, 47]);
        }
        return Ok(v);
    }
    if str_eq(capability, "redis-ping") {
        return Ok(bytes_of("*1\r\n$4\r\nPING\r\n"));
    }
    if str_eq(capability, "http-head") {
        let text = String::from_str("HEAD / HTTP/1.1\r\nHost: ");
        let text = text.concat(host);
        let text = text.concat("\r\nConnection: close\r\n\r\n");
        return Ok(bytes_of(text.as_str()));
    }
    Err(
        ScannerError::invalid(
            "start service identification",
            "service capability has no admitted native conversation",
        ),
    )
}

/// Whether an address is IPv6 unicast link-local (fe80::/10).
pub open spec fn link_local_target(address: IpAddress) -> bool {
    match address {
        IpAddress::V6(octets) => octets[0] == 0xfe && (octets[1] & 0xc0) == 0x80,
        IpAddress::V4(_) => false,
    }
}

/// The registry entry with an identifier, if any: the first one.
pub open spec fn registry_entry(registry: Seq<ServiceDescriptor>, id: Seq<char>) -> Option<int> {
    if exists|i: int| 0 <= i < registry.len() && (#[trigger] registry[i]).id@ == id {
        Some(
            choose|i: int|
                0 <= i < registry.len() && (#[trigger] registry[i]).id@ == id && forall|j: int|
                    0 <= j < i ==> (#[trigger] registry[j]).id@ != id,
        )
    } else {
        None
    }
}

/// Whether the text appears twice among names.
pub open spec fn has_duplicate(names: Seq<String>) -> bool {
    exists|i: int, j: int| 0 <= i < j < names.len() && (#[trigger] names[i])@ == (#[trigger] names[j])@
}

/// The failure a service plan is refused with before its registry entry is
/// consulted, if any.
pub open spec fn service_plan_precheck(
    plan: NativeServiceIdentificationPlan,
    target: Option<ServiceTarget>,
) -> Option<ScannerErrorView> {
    let op = "start service identification"@;
    if target is None {
        Some(invalid_plan(op, "target must be an IPv4 or IPv6 literal"@))
    } else if link_local_target(target.unwrap().address) {
        Some(invalid_plan(op, "link-local IPv6 targets require an interface-aware API"@))
    } else if plan.port == 0 || plan.port > 0xffff {
        Some(invalid_plan(op, "port must be from 1 through 65535"@))
    } else if plan.deadline_ms == 0 || plan.deadline_ms > MAX_CONVERSATION_DEADLINE_MS {
        Some(invalid_plan(op, "deadlineMs must be from 1 through 30000"@))
    } else {
        None
    }
}

/// The failure a service plan is refused with once its registry entry is
/// known, if any.
pub open spec fn service_plan_entry_check(
    plan: NativeServiceIdentificationPlan,
    host: Seq<char>,
    registry: Seq<ServiceDescriptor>,
) -> Option<ScannerErrorView> {
    let op = "start service identification"@;
    match registry_entry(registry, plan.capability_id@) {
        None => Some(invalid_plan(op, "unknown service capability"@)),
        Some(i) => {
            let d = registry[i];
            if d.no_go {
                Some(invalid_plan(op, "service capability is an executable no-go"@))
            } else if has_duplicate(plan.allow_risks@) {
                Some(invalid_plan(op, "allowRisks must not contain duplicates"@))
            } else if !(plan.allow_risks@.len() == 1 && plan.allow_risks@[0]@ == service_risk_name(
                d.risk,
            )) {
                Some(
                    invalid_plan(op, "allowRisks must contain exactly the capability's required risk"@),
                )
            } else {
                match conversation_request(d.id@, host) {
                    None => Some(
                        invalid_plan(op, "service capability has no admitted native conversation"@),
                    ),
                    Some(request) => if request.len() > d.maximum_request_bytes {
                        Some(
                            scan_failure(
                                ScanFailure::Internal,
                                op,
                                "registered request exceeds its declared bound"@,
                            ),
                        )
                    } else {
                        None
                    },
                }
            }
        },
    }
}

fn find_descriptor(registry: &[ServiceDescriptor], id: &str) -> (r: Option<usize>)
    ensures
        r matches Some(k) ==> k < registry@.len() && registry_entry(registry@, id@) == Some(
            k as int,
        ),
        r is None ==> registry_entry(registry@, id@) is None,
{
    let mut i: usize = 0;
    while i < registry.len()
        invariant
            i <= registry@.len(),
            forall|j: int| 0 <= j < i ==> (#[trigger] registry@[j]).id@ != id@,
        decreases registry@.len() - i,
    {
        if str_eq(registry[i].id.as_str(), id) {
            proof {
                let k = i as int;
                assert(0 <= k < registry@.len() && registry@[k].id@ == id@ && forall|j: int|
                    0 <= j < k ==> (#[trigger] registry@[j]).id@ != id@);
                let c = choose|c: int|
                    0 <= c < registry@.len() && (#[trigger] registry@[c]).id@ == id@ && forall|
                        j: int,
                    | 0 <= j < c ==> (#[trigger] registry@[j]).id@ != id@;
                if c < k {
                } else if c > k {
                    assert(registry@[k].id@ != id@);
                }
            }
            return Some(i);
        }
        i = i + 1;
    }
    None
}

fn duplicate_names(names: &Vec<String>) -> (r: bool)
    ensures
        r == has_duplicate(names@),
{
    let mut i: usize = 0;
    while i < names.len()
        invariant
            i <= names@.len(),
            forall|a: int, b: int| 0 <= a < b < names@.len() && a < i ==> (#[trigger] names@[a])@
                != (#[trigger] names@[b])@,
        decreases names@.len() - i,
    {
        let mut j: usize = i + 1;
        while j < names.len()
            invariant
                i < names@.len(),
                i + 1 <= j <= names@.len(),
                forall|a: int, b: int| 0 <= a < b < names@.len() && a < i ==> (#[trigger] names@[a])@
                    != (#[trigger] names@[b])@,
                forall|b: int| i < b < j ==> names@[i as int]@ != (#[trigger] names@[b])@,
            decreases names@.len() - j,
        {
            if str_eq(names[i].as_str(), names[j].as_str()) {
                return true;
            }
            j = j + 1;
        }
        i = i + 1;
    }
    false
}

fn is_link_local(address: &IpAddress) -> (r: bool)
    ensures
        r == link_local_target(*address),
{
    match address {
        IpAddress::V6(octets) => octets[0] == 0xfe && (octets[1] & 0xc0) == 0x80,
        IpAddress::V4(_) => false,
    }
}

impl NativeServiceIdentificationPlan {
    /// Validates a plan against the service registry. `target` is the
    /// plan's target parsed as an IP literal, or nothing when it is not one.
    pub fn validate(self, target: Option<ServiceTarget>, registry: &[ServiceDescriptor]) -> (r:
        Result<ValidatedServicePlan, ScannerError>)
        ensures
            service_plan_precheck(self, target) matches Some(e) ==> scan_fails_with(r, e),
            service_plan_precheck(self, target) is None ==> match service_plan_entry_check(
                self,
                target.unwrap().host@,
                registry@,
            ) {
                Some(e) => scan_fails_with(r, e),
                None => r matches Ok(plan) && {
                    let d = registry@[registry_entry(registry@, self.capability_id@).unwrap()];
                    &&& plan.capability_id == d.id
                    &&& plan.target == target.unwrap().address
                    &&& plan.port == self.port
                    &&& plan.deadline_ms == self.deadline_ms
                    &&& plan.maximum_response_bytes == d.maximum_response_bytes
                    &&& Some(plan.request@) == conversation_request(d.id@, target.unwrap().host@)
                },
            },
    {
        let operation = "start service identification";
        let target = match target {
            Some(target) => target,
            None => {
                return Err(
                    ScannerError::invalid(operation, "target must be an IPv4 or IPv6 literal"),
                );
            },
        };
        if is_link_local(&target.address) {
            return Err(
                ScannerError::invalid(
                    operation,
                    "link-local IPv6 targets require an interface-aware API",
                ),
            );
        }
        if self.port == 0 || self.port > 0xffff {
            return Err(ScannerError::invalid(operation, "port must be from 1 through 65535"));
        }
        if self.deadline_ms == 0 || self.deadline_ms > MAX_CONVERSATION_DEADLINE_MS {
            return Err(ScannerError::invalid(operation, "deadlineMs must be from 1 through 30000"));
        }
        let index = match find_descriptor(registry, self.capability_id.as_str()) {
            Some(index) => index,
            None => {
                return Err(ScannerError::invalid(operation, "unknown service capability"));
            },
        };
        let descriptor = &registry[index];
        if descriptor.no_go {
            return Err(
                ScannerError::invalid(operation, "service capability is an executable no-go"),
            );
        }
        if duplicate_names(&self.allow_risks) {
            return Err(ScannerError::invalid(operation, "allowRisks must not contain duplicates"));
        }
        let required = risk_name(descriptor.risk);
        if !(self.allow_risks.len() == 1 && str_eq(self.allow_risks[0].as_str(), required)) {
            return Err(
                ScannerError::invalid(
                    operation,
                    "allowRisks must contain exactly the capability's required risk",
                ),
            );
        }
        let request = match request_bytes(descriptor.id.as_str(), target.host.as_str()) {
            Ok(request) => request,
            Err(e) => return Err(e),
        };
        if request.len() > descriptor.maximum_request_bytes {
            return Err(
                ScannerError::internal(operation, "registered request exceeds its declared bound"),
            );
        }
        Ok(
            ValidatedServicePlan {
                capability_id: descriptor.id.clone(),
                target: target.address,
                port: self.port as u16,
                deadline_ms: self.deadline_ms,
                maximum_response_bytes: descriptor.maximum_response_bytes,
                request,
            },
        )
    }
}

/// Whether the capability's response ends at a line break.
pub open spec fn line_terminated(capability: Seq<char>) -> bool {
    capability == "ssh-identification"@ || capability == "ftp-greeting"@ || capability
        == "smtp-greeting"@ || capability == "pop3-greeting"@ || capability == "imap-greeting"@
        || capability == "redis-ping"@
}

/// Whether a response is complete enough to parse: a line break after the
/// previous scan for line protocols (rescanning one byte), an empty line for
/// HTTP (rescanning three), the announced packet length for MySQL, any byte
/// for everything else. Returns also the next scan offset.
pub open spec fn completeness(capability: Seq<char>, response: Seq<u8>, offset: usize) -> (bool, usize) {
    if line_terminated(capability) {
        let start = if offset == 0 {
            0
        } else if offset - 1 < response.len() {
            offset - 1
        } else {
            response.len() as int
        };
        (response.skip(start).contains(10u8), response.len() as usize)
    } else if capability == "http-head"@ {
        let start = if offset < 3 {
            0
        } else if offset - 3 < response.len() {
            offset - 3
        } else {
            response.len() as int
        };
        (
            exists|i: int|
                start <= i && i + 4 <= response.len() && #[trigger] response.subrange(i, i + 4)
                    == seq![13u8, 10, 13, 10],
            response.len() as usize,
        )
    } else if capability == "mysql-initial-handshake"@ {
        if response.len() < 4 {
            (false, offset)
        } else {
            let length = response[0] + 256 * response[1] + 65536 * response[2];
            (response.len() >= length + 4, offset)
        }
    } else {
        (response.len() > 0, offset)
    }
}

/// Resuming a completeness scan equals starting over: for the line protocols
/// and HTTP, when a scan of a prefix of the response found no terminator, the
/// next scan from the offset it left gives the same answer and offset as a
/// scan of the whole response from zero, even where the terminator straddles
/// the end of the prefix. That answer is whether the response holds a line
/// break (or, for HTTP, an empty line), and the offset is the response's
/// length.
pub proof fn resumed_scan_matches_fresh_scan(
    capability: Seq<char>,
    prefix: Seq<u8>,
    response: Seq<u8>,
)
    requires
        line_terminated(capability) || capability == "http-head"@,
        prefix.len() <= response.len() <= usize::MAX,
        prefix == response.take(prefix.len() as int),
        !completeness(capability, prefix, 0).0,
    ensures
        completeness(capability, response, completeness(capability, prefix, 0).1)
            == completeness(capability, response, 0),
        completeness(capability, response, 0).1 == response.len(),
        line_terminated(capability) ==> (completeness(capability, response, 0).0
            <==> response.contains(10u8)),
        !line_terminated(capability) ==> (completeness(capability, response, 0).0 <==> exists|
            i: int,
        |
            0 <= i && i + 4 <= response.len() && #[trigger] response.subrange(i, i + 4)
                == seq![13u8, 10, 13, 10]),
{
    assert(prefix.skip(0) =~= prefix);
    assert(response.skip(0) =~= response);
    let offset = completeness(capability, prefix, 0).1;
    assert(offset == prefix.len());
    if line_terminated(capability) {
        let start: int = if offset == 0 {
            0
        } else {
            offset - 1
        };
        assert(!prefix.contains(10u8));
        assert(response.skip(start).contains(10u8) <==> response.contains(10u8)) by {
            if response.contains(10u8) {
                let k = choose|k: int| 0 <= k < response.len() && response[k] == 10u8;
                if k < prefix.len() {
                    assert(prefix[k] == response[k]);
                }
                assert(response.skip(start)[k - start] == 10u8);
            }
            if response.skip(start).contains(10u8) {
                let k = choose|k: int|
                    0 <= k < response.skip(start).len() && response.skip(start)[k] == 10u8;
                assert(response[k + start] == 10u8);
            }
        }
    } else {
        let start: int = if offset < 3 {
            0
        } else {
            offset - 3
        };
        assert forall|i: int|
            0 <= i && i + 4 <= response.len() && #[trigger] response.subrange(i, i + 4) == seq![
                13u8,
                10,
                13,
                10,
            ] implies start <= i by {
            if i < start {
                assert(prefix.subrange(i, i + 4) =~= response.subrange(i, i + 4));
            }
        }
    }
}

fn has_byte_from(response: &[u8], start: usize, byte: u8) -> (r: bool)
    requires
        start <= response@.len(),
    ensures
        r == response@.skip(start as int).contains(byte),
{
    let mut i: usize = start;
    while i < response.len()
        invariant
            start <= i <= response@.len(),
            forall|k: int| start <= k < i ==> response@[k] != byte,
        decreases response@.len() - i,
    {
        if response[i] == byte {
            proof {
                assert(response@.skip(start as int)[i - start] == byte);
            }
            return true;
        }
        i = i + 1;
    }
    proof {
        assert forall|k: int| 0 <= k < response@.skip(start as int).len() implies response@.skip(
            start as int,
        )[k] != byte by {
            assert(response@.skip(start as int)[k] == response@[k + start]);
        }
    }
    false
}

fn has_blank_line_from(response: &[u8], start: usize) -> (r: bool)
    requires
        start <= response@.len(),
    ensures
        r == exists|i: int|
            start <= i && i + 4 <= response@.len() && #[trigger] response@.subrange(i, i + 4)
                == seq![13u8, 10, 13, 10],
{
    let length = response.len();
    if length < 4 {
        return false;
    }
    let last = length - 4;
    let mut i: usize = start;
    while i <= last
        invariant
            length == response@.len(),
            last + 4 == length,
            start <= i,
            i <= length,
            forall|k: int|
                start <= k < i && k + 4 <= length ==> #[trigger] response@.subrange(k, k + 4)
                    != seq![13u8, 10, 13, 10],
        decreases length - i,
    {
        if response[i] == 13 && response[i + 1] == 10 && response[i + 2] == 13 && response[i + 3]
            == 10 {
            proof {
                assert(response@.subrange(i as int, i + 4) =~= seq![13u8, 10, 13, 10]);
            }
            return true;
        }
        proof {
            assert(response@.subrange(i as int, i + 4)[0] == response@[i as int]);
            assert(response@.subrange(i as int, i + 4)[1] == response@[i + 1]);
            assert(response@.subrange(i as int, i + 4)[2] == response@[i + 2]);
            assert(response@.subrange(i as int, i + 4)[3] == response@[i + 3]);
        }
        i = i + 1;
    }
    false
}

/// Whether a response is complete enough to parse; advances the scan
/// offset so each call only rescans what the terminator may straddle.
pub fn response_complete(capability: &str, response: &[u8], scan_offset: &mut usize) -> (r: bool)
    ensures
        (r, *final(scan_offset)) == completeness(capability@, response@, *old(scan_offset)),
{
    if str_eq(capability, "ssh-identification") || str_eq(capability, "ftp-greeting") || str_eq(
        capability,
        "smtp-greeting",
    ) || str_eq(capability, "pop3-greeting") || str_eq(capability, "imap-greeting") || str_eq(
        capability,
        "redis-ping",
    ) {
        let back = scan_offset.saturating_sub(1);
        let start = if back < response.len() {
            back
        } else {
            response.len()
        };
        *scan_offset = response.len();
        return has_byte_from(response, start, 10);
    }
    if str_eq(capability, "http-head") {
        let back = scan_offset.saturating_sub(3);
        let start = if back < response.len() {
            back
        } else {
            response.len()
        };
        *scan_offset = response.len();
        return has_blank_line_from(response, start);
    }
    if str_eq(capability, "mysql-initial-handshake") {
        if response.len() < 4 {
            return false;
        }
        let length = response[0] as usize + 256 * response[1] as usize + 65536
            * response[2] as usize;
        return response.len() >= length + 4;
    }
    response.len() > 0
}

/// One field of an identified service.
#[derive(Clone, Debug)]
pub struct NativeServiceField {
    pub key: String,
    pub value: Vec<u8>,
}

/// What a service parser recognised.
#[derive(Clone, Debug)]
pub struct ServiceIdentity {
    pub protocol: String,
    pub confidence: String,
    pub fields: Vec<NativeServiceField>,
}

/// The result of one service identification.
#[derive(Clone, Debug)]
pub struct NativeServiceIdentificationRun {
    pub schema_version: u32,
    pub capability_id: String,
    pub target: String,
    pub port: u32,
    pub state: String,
    pub outcome: String,
    pub protocol: Option<String>,
    pub confidence: Option<String>,
    pub fields: Vec<NativeServiceField>,
    pub request_bytes: u32,
    pub response_bytes: u32,
}

/// A length as a `u32`, `u32::MAX` when it does not fit.
pub open spec fn clamp_u32(n: usize) -> u32 {
    if n > u32::MAX {
        u32::MAX
    } else {
        n as u32
    }
}

/// The result record of a conversation with an outcome. `target_text` is
/// the target's address as text.
pub fn service_result(
    plan: &ValidatedServicePlan,
    target_text: String,
    outcome: &str,
    identity: Option<ServiceIdentity>,
    response_bytes: usize,
) -> (r: NativeServiceIdentificationRun)
    ensures
        r.schema_version == 1,
        r.capability_id@ == plan.capability_id@,
        r.target == target_text,
        r.port == plan.port,
        r.state@ == (if outcome@ == "cancelled"@ {
            "cancelled"@
        } else {
            "completed"@
        }),
        r.outcome@ == outcome@,
        r.protocol == (match identity {
            Some(i) => Some(i.protocol),
            None => None,
        }),
        r.confidence == (match identity {
            Some(i) => Some(i.confidence),
            None => None,
        }),
        r.fields@ == (match identity {
            Some(i) => i.fields@,
            None => Seq::empty(),
        }),
        r.request_bytes == clamp_u32(plan.request@.len() as usize),
        r.response_bytes == clamp_u32(response_bytes),
{
    let cancelled = str_eq(outcome, "cancelled");
    let request_length = plan.request.len();
    let (protocol, confidence, fields) = match identity {
        Some(i) => (Some(i.protocol), Some(i.confidence), i.fields),
        None => (None, None, Vec::new()),
    };
    NativeServiceIdentificationRun {
        schema_version: 1,
        capability_id: owned(plan.capability_id.as_str()),
        target: target_text,
        port: plan.port as u32,
        state: owned(
            if cancelled {
                "cancelled"
            } else {
                "completed"
            },
        ),
        outcome: owned(outcome),
        protocol,
        confidence,
        fields,
        request_bytes: if request_length > u32::MAX as usize {
            u32::MAX
        } else {
            request_length as u32
        },
        response_bytes: if response_bytes > u32::MAX as usize {
            u32::MAX
        } else {
            response_bytes as u32
        },
    }
}

/// How a service parser judged a complete-looking response.
#[derive(Clone, Debug)]
pub enum ServiceParse {
    Identified(ServiceIdentity),
    Malformed,
    Unsupported,
    LimitExceeded,
    Truncated,
}

/// What a conversation does after checking its response.
#[derive(Clone, Debug)]
pub enum ServiceStep {
    /// End with this outcome and, when identified, the identity.
    Finish(&'static str, Option<ServiceIdentity>),
    /// Read more.
    Read,
}

/// Decides a conversation's next step from the parser's verdict on a
/// complete-looking response (if one was complete) and the response size.
pub fn service_step(parse: Option<ServiceParse>, response_length: usize, maximum: usize) -> (r:
    ServiceStep)
    ensures
        (parse matches Some(ServiceParse::Identified(_))) ==> (r matches ServiceStep::Finish(
            outcome,
            Some(found),
        ) && outcome@ == "identified"@ && parse == Some(ServiceParse::Identified(found))),
        (parse matches Some(ServiceParse::Malformed)) || (parse matches Some(ServiceParse::Unsupported))
            ==> (r matches ServiceStep::Finish(outcome, None) && outcome@ == "parserRejected"@),
        (parse matches Some(ServiceParse::LimitExceeded)) ==> (r matches ServiceStep::Finish(
            outcome,
            None,
        ) && outcome@ == "responseLimit"@),
        (parse is None || parse matches Some(ServiceParse::Truncated)) && response_length
            >= maximum ==> (r matches ServiceStep::Finish(outcome, None) && outcome@
            == "responseLimit"@),
        (parse is None || parse matches Some(ServiceParse::Truncated)) && response_length < maximum
            ==> r matches ServiceStep::Read,
{
    match parse {
        Some(ServiceParse::Identified(identity)) => ServiceStep::Finish("identified", Some(identity)),
        Some(ServiceParse::Malformed) | Some(ServiceParse::Unsupported) => ServiceStep::Finish(
            "parserRejected",
            None,
        ),
        Some(ServiceParse::LimitExceeded) => ServiceStep::Finish("responseLimit", None),
        _ => {
            if response_length >= maximum {
                ServiceStep::Finish("responseLimit", None)
            } else {
                ServiceStep::Read
            }
        },
    }
}

/// The outcome of a connection attempt from the result of `connect(2)` and,
/// for a pending connection, whether it became writable and the socket's
/// error: 111 is `ECONNREFUSED`, 115 `EINPROGRESS`, 114 `EALREADY`.
pub open spec fn connect_outcome(
    connect_errno: Option<i32>,
    writable: bool,
    cancelled: bool,
    socket_errno: i32,
) -> Seq<char> {
    match connect_errno {
        None => "connected"@,
        Some(e) => if e == 111 {
            "connectRefused"@
        } else if e != 115 && e != 114 {
            "connectError"@
        } else if !writable {
            if cancelled {
                "cancelled"@
            } else {
                "timeout"@
            }
        } else if socket_errno == 0 {
            "connected"@
        } else if socket_errno == 111 {
            "connectRefused"@
        } else {
            "connectError"@
        }
    }
}

/// Names the outcome of a nonblocking connect.
pub fn connection_outcome(
    connect_errno: Option<i32>,
    writable: bool,
    cancelled: bool,
    socket_errno: i32,
) -> (r: &'static str)
    ensures
        r@ == connect_outcome(connect_errno, writable, cancelled, socket_errno),
{
    match connect_errno {
        None => "connected",
        Some(e) => {
            if e == 111 {
                "connectRefused"
            } else if e != 115 && e != 114 {
                "connectError"
            } else if !writable {
                if cancelled {
                    "cancelled"
                } else {
                    "timeout"
                }
            } else if socket_errno == 0 {
                "connected"
            } else if socket_errno == 111 {
                "connectRefused"
            } else {
                "connectError"
            }
        },
    }
}

/// The cancellation flag of a service identification.
pub struct ServiceControl {
    cancelled: bool,
}

impl ServiceControl {
    /// An identification not yet cancelled.
    pub fn new() -> (r: Self)
        ensures
            !r.cancelled_spec(),
    {
        ServiceControl { cancelled: false }
    }

    /// Whether cancellation was requested.
    pub closed spec fn cancelled_spec(&self) -> bool {
        self.cancelled
    }

    /// Requests cancellation.
    pub fn cancel(&mut self)
        ensures
            final(self).cancelled_spec(),
    {
        self.cancelled = true;
    }

    /// Whether cancellation was requested.
    pub fn cancelled(&self) -> (r: bool)
        ensures
            r == self.cancelled_spec(),
    {
        self.cancelled
    }
}

} // verus!

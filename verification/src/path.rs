//! Path tracing: plan validation, the hop-by-hop probe schedule, pacing,
//! probe payloads, and the classification of replies and queued errors.
use vstd::prelude::*;

use crate::results::IpAddress;
use crate::scan_error::{invalid_plan, scan_fails_with, ScannerError, ScannerErrorView};
use crate::text::{decimal, decimal_string_u128, owned, str_eq};

verus! {

broadcast use vstd::string::group_string_axioms, vstd::array::group_array_axioms;

pub const MAX_PATH_HOP: u32 = 64;

pub const MAX_PATH_ATTEMPTS: u32 = 8;

pub const MAX_PATH_DEADLINE_MS: u32 = 300000;

pub const MAX_PATH_PACING_MS: u32 = 1000;

pub const MAX_PATH_RECEIVE_EVENTS: usize = 4096;

/// The metadata bytes a path session reserves.
pub const PATH_RESERVATION_BYTES: usize = 1048576;

/// A requested path trace.
#[derive(Clone)]
pub struct NativePathPlan {
    pub target: String,
    pub mode: String,
    pub port: Option<u32>,
    pub first_hop: Option<u32>,
    pub maximum_hop: Option<u32>,
    pub attempts_per_hop: Option<u32>,
    pub pacing_ms: Option<u32>,
    pub deadline_ms: u32,
}

/// How each hop is probed.
#[derive(Clone, Copy, Debug, PartialEq, Eq, Structural)]
pub enum PathMode {
    Echo,
    Udp(u16),
    TcpSyn(u16),
}

/// An admitted path trace.
#[derive(Clone, Copy, Debug)]
pub struct ValidatedPathPlan {
    pub target: IpAddress,
    pub mode: PathMode,
    pub first_hop: u8,
    pub maximum_hop: u8,
    pub attempts_per_hop: u8,
    pub pacing_ms: u32,
    pub deadline_ms: u32,
}

/// The port of a plan, when it fits 16 bits.
pub open spec fn plan_port(port: Option<u32>) -> Option<u16> {
    match port {
        Some(p) => if p <= 0xffff {
            Some(p as u16)
        } else {
            None
        },
        None => None,
    }
}

/// The probing mode a mode name and port select, if the combination is
/// valid.
pub open spec fn path_mode(mode: Seq<char>, port: Option<u16>) -> Option<PathMode> {
    if mode == "icmpEcho"@ && port is None {
        Some(PathMode::Echo)
    } else if mode == "udp"@ && port is Some && port.unwrap() != 0 {
        Some(PathMode::Udp(port.unwrap()))
    } else if mode == "tcpSyn"@ && port is Some && port.unwrap() != 0 {
        Some(PathMode::TcpSyn(port.unwrap()))
    } else {
        None
    }
}

/// Whether the hop, attempt, pacing and deadline bounds are within the
/// public limits.
pub open spec fn path_bounds_fit(first: u32, maximum: u32, attempts: u32, pacing: u32, deadline: u32) -> bool {
    &&& first != 0
    &&& maximum >= first
    &&& maximum <= MAX_PATH_HOP
    &&& attempts != 0
    &&& attempts <= MAX_PATH_ATTEMPTS
    &&& pacing <= MAX_PATH_PACING_MS
    &&& deadline != 0
    &&& deadline <= MAX_PATH_DEADLINE_MS
}

/// A value with its default.
pub open spec fn or_default(value: Option<u32>, default: u32) -> u32 {
    match value {
        Some(v) => v,
        None => default,
    }
}

fn resolve_mode(mode: &str, port: Option<u16>) -> (r: Option<PathMode>)
    ensures
        r == path_mode(mode@, port),
{
    if str_eq(mode, "icmpEcho") && port.is_none() {
        return Some(PathMode::Echo);
    }
    match port {
        Some(p) => {
            if p != 0 && str_eq(mode, "udp") {
                Some(PathMode::Udp(p))
            } else if p != 0 && str_eq(mode, "tcpSyn") {
                Some(PathMode::TcpSyn(p))
            } else {
                None
            }
        },
        None => None,
    }
}

impl NativePathPlan {
    /// Validates a plan; `target` is the plan's target text parsed as an IP
    /// literal, or nothing when it is not one.
    pub fn validate(self, target: Option<IpAddress>) -> (r: Result<ValidatedPathPlan, ScannerError>)
        ensures
            target is None ==> scan_fails_with(
                r,
                invalid_plan("start path trace"@, "target must be an IPv4 or IPv6 literal"@),
            ),
            target is Some && path_mode(self.mode@, plan_port(self.port)) is None
                ==> scan_fails_with(
                r,
                invalid_plan("start path trace"@, "path mode and port combination is invalid"@),
            ),
            target is Some && path_mode(self.mode@, plan_port(self.port)) is Some
                && !path_bounds_fit(
                or_default(self.first_hop, 1),
                or_default(self.maximum_hop, 30),
                or_default(self.attempts_per_hop, 3),
                or_default(self.pacing_ms, 0),
                self.deadline_ms,
            ) ==> scan_fails_with(
                r,
                invalid_plan("start path trace"@, "path bounds exceed the finite public limits"@),
            ),
            target is Some && path_mode(self.mode@, plan_port(self.port)) is Some
                && path_bounds_fit(
                or_default(self.first_hop, 1),
                or_default(self.maximum_hop, 30),
                or_default(self.attempts_per_hop, 3),
                or_default(self.pacing_ms, 0),
                self.deadline_ms,
            ) ==> (r matches Ok(plan) && {
                &&& plan.target == target.unwrap()
                &&& plan.mode == path_mode(self.mode@, plan_port(self.port)).unwrap()
                &&& plan.first_hop == or_default(self.first_hop, 1)
                &&& plan.maximum_hop == or_default(self.maximum_hop, 30)
                &&& plan.attempts_per_hop == or_default(self.attempts_per_hop, 3)
                &&& plan.pacing_ms == or_default(self.pacing_ms, 0)
                &&& plan.deadline_ms == self.deadline_ms
            }),
    {
        let address = match target {
            Some(address) => address,
            None => {
                return Err(
                    ScannerError::invalid(
                        "start path trace",
                        "target must be an IPv4 or IPv6 literal",
                    ),
                );
            },
        };
        let port: Option<u16> = match self.port {
            Some(p) => if p <= 0xffff {
                Some(p as u16)
            } else {
                None
            },
            None => None,
        };
        let mode = match resolve_mode(self.mode.as_str(), port) {
            Some(mode) => mode,
            None => {
                return Err(
                    ScannerError::invalid(
                        "start path trace",
                        "path mode and port combination is invalid",
                    ),
                );
            },
        };
        let first_hop = match self.first_hop {
            Some(v) => v,
            None => 1,
        };
        let maximum_hop = match self.maximum_hop {
            Some(v) => v,
            None => 30,
        };
        let attempts_per_hop = match self.attempts_per_hop {
            Some(v) => v,
            None => 3,
        };
        let pacing_ms = match self.pacing_ms {
            Some(v) => v,
            None => 0,
        };
        if first_hop == 0 || maximum_hop < first_hop || maximum_hop > MAX_PATH_HOP
            || attempts_per_hop == 0 || attempts_per_hop > MAX_PATH_ATTEMPTS || pacing_ms
            > MAX_PATH_PACING_MS || self.deadline_ms == 0 || self.deadline_ms
            > MAX_PATH_DEADLINE_MS {
            return Err(
                ScannerError::invalid("start path trace", "path bounds exceed the finite public limits"),
            );
        }
        Ok(
            ValidatedPathPlan {
                target: address,
                mode,
                first_hop: first_hop as u8,
                maximum_hop: maximum_hop as u8,
                attempts_per_hop: attempts_per_hop as u8,
                pacing_ms,
                deadline_ms: self.deadline_ms,
            },
        )
    }
}

/// The cancellation flag of a path trace.
pub struct PathControl {
    cancelled: bool,
}

impl PathControl {
    /// A trace not yet cancelled.
    pub fn new() -> (r: Self)
        ensures
            !r.is_cancelled_spec(),
    {
        PathControl { cancelled: false }
    }

    /// Whether cancellation was requested.
    pub closed spec fn is_cancelled_spec(&self) -> bool {
        self.cancelled
    }

    /// Requests cancellation.
    pub fn cancel(&mut self)
        ensures
            final(self).is_cancelled_spec(),
    {
        self.cancelled = true;
    }

    /// Whether cancellation was requested.
    pub fn is_cancelled(&self) -> (r: bool)
        ensures
            r == self.is_cancelled_spec(),
    {
        self.cancelled
    }
}

/// What a pacing wait does next.
#[derive(Clone, Copy, Debug, PartialEq, Eq, Structural)]
pub enum PaceStep {
    /// Sleep this many nanoseconds, then check again.
    Wait(u128),
    /// Stop waiting; whether the trace may send its next probe.
    Done(bool),
}

/// The longest single pacing sleep: 25 ms.
pub const PACE_SLICE_NANOS: u128 = 25_000_000;

/// When a pacing wait that starts at `now` ends: after the pacing interval,
/// but never past the session deadline.
pub open spec fn pace_end(now: u128, pacing: u128, deadline: u128) -> u128 {
    if now + pacing > u128::MAX {
        deadline
    } else if now + pacing < deadline {
        (now + pacing) as u128
    } else {
        deadline
    }
}

/// The end of a pacing wait that starts at `now`.
pub fn pace_deadline(now: u128, pacing: u128, deadline: u128) -> (r: u128)
    ensures
        r == pace_end(now, pacing, deadline),
{
    match now.checked_add(pacing) {
        Some(end) => if end < deadline {
            end
        } else {
            deadline
        },
        None => deadline,
    }
}

/// One step of a pacing wait at time `now`: sleep in slices of at most
/// 25 ms until the wait ends, giving up at once when cancelled; then allow
/// the next probe only if not cancelled and before the session deadline.
pub fn pace_step(now: u128, wait_end: u128, deadline: u128, cancelled: bool) -> (r: PaceStep)
    ensures
        now < wait_end && cancelled ==> r == PaceStep::Done(false),
        now < wait_end && !cancelled ==> r == PaceStep::Wait(
            if wait_end - now < PACE_SLICE_NANOS {
                (wait_end - now) as u128
            } else {
                PACE_SLICE_NANOS
            },
        ),
        now >= wait_end ==> r == PaceStep::Done(!cancelled && now < deadline),
{
    if now < wait_end {
        if cancelled {
            return PaceStep::Done(false);
        }
        let remaining = wait_end - now;
        return PaceStep::Wait(
            if remaining < PACE_SLICE_NANOS {
                remaining
            } else {
                PACE_SLICE_NANOS
            },
        );
    }
    PaceStep::Done(!cancelled && now < deadline)
}

/// Whether two addresses are the same.
pub fn same_address(a: &IpAddress, b: &IpAddress) -> (r: bool)
    ensures
        r == (*a == *b),
{
    match (a, b) {
        (IpAddress::V4(x), IpAddress::V4(y)) => {
            let mut i: usize = 0;
            while i < 4
                invariant
                    i <= 4,
                    *a == IpAddress::V4(*x),
                    *b == IpAddress::V4(*y),
                    forall|k: int| 0 <= k < i ==> x[k] == y[k],
                decreases 4 - i,
            {
                if x[i] != y[i] {
                    proof {
                        assert(!(*x =~= *y));
                    }
                    return false;
                }
                i = i + 1;
            }
            proof {
                assert(*x =~= *y);
            }
            true
        },
        (IpAddress::V6(x), IpAddress::V6(y)) => {
            let mut i: usize = 0;
            while i < 16
                invariant
                    i <= 16,
                    *a == IpAddress::V6(*x),
                    *b == IpAddress::V6(*y),
                    forall|k: int| 0 <= k < i ==> x[k] == y[k],
                decreases 16 - i,
            {
                if x[i] != y[i] {
                    proof {
                        assert(!(*x =~= *y));
                    }
                    return false;
                }
                i = i + 1;
            }
            proof {
                assert(*x =~= *y);
            }
            true
        },
        _ => false,
    }
}

/// What one probe attempt observed.
#[derive(Clone, Copy, Debug)]
pub struct AttemptOutcome {
    pub responder: Option<IpAddress>,
    pub outcome: &'static str,
    pub correlation: &'static str,
    pub error_fields: Option<(u8, u8, u8)>,
}

/// No reply before the attempt's deadline.
pub fn timeout() -> (r: AttemptOutcome)
    ensures
        r.responder is None,
        r.outcome@ == "timeout"@,
        r.correlation@ == "weak"@,
        r.error_fields is None,
{
    AttemptOutcome { responder: None, outcome: "timeout", correlation: "weak", error_fields: None }
}

/// The target itself answered.
pub fn destination(target: IpAddress) -> (r: AttemptOutcome)
    ensures
        r.responder == Some(target),
        r.outcome@ == "destinationReached"@,
        r.correlation@ == "strong"@,
        r.error_fields is None,
{
    AttemptOutcome {
        responder: Some(target),
        outcome: "destinationReached",
        correlation: "strong",
        error_fields: None,
    }
}

/// An extended error the kernel queued for a probe socket: the family (4 or
/// 6), the `ee_origin`, `ee_type` and `ee_code` fields, and the offender.
#[derive(Clone, Copy, Debug)]
pub struct QueuedError {
    pub family: u8,
    pub origin: u8,
    pub error_type: u8,
    pub error_code: u8,
    pub offender: Option<IpAddress>,
}

/// The outcome name of a queued error.
pub open spec fn error_outcome(target: IpAddress, e: QueuedError) -> Seq<char> {
    let remote = e.origin == 2 || e.origin == 3;
    let responder = if remote {
        e.offender
    } else {
        None
    };
    let terminal = responder == Some(target) && ((e.family == 4 && e.error_type == 3
        && e.error_code == 3) || (e.family == 6 && e.error_type == 1 && e.error_code == 4));
    let hop = (e.family == 4 && e.error_type == 11) || (e.family == 6 && e.error_type == 3);
    if terminal {
        "destinationReached"@
    } else if hop {
        "hopResponse"@
    } else if e.error_code == 13 || (e.family == 6 && e.error_code == 1) {
        "administrativelyFiltered"@
    } else {
        "unreachable"@
    }
}

/// The responder of a queued error: the offender, only for ICMP-originated
/// errors.
pub open spec fn error_responder(e: QueuedError) -> Option<IpAddress> {
    if e.origin == 2 || e.origin == 3 {
        e.offender
    } else {
        None
    }
}

/// Classifies a queued ICMP error: the target refusing the probe port ends
/// the trace, a time-exceeded (or hop-limit) error is a hop's response.
pub fn classify_error(target: &IpAddress, e: &QueuedError) -> (r: AttemptOutcome)
    ensures
        r.responder == error_responder(*e),
        r.outcome@ == error_outcome(*target, *e),
        r.correlation@ == (if error_responder(*e) is Some {
            "strong"@
        } else {
            "weak"@
        }),
        r.error_fields == Some((e.family, e.error_type, e.error_code)),
{
    let remote = e.origin == 2 || e.origin == 3;
    let responder = if remote {
        e.offender
    } else {
        None
    };
    let from_target = match &responder {
        Some(address) => same_address(address, target),
        None => false,
    };
    let terminal = from_target && ((e.family == 4 && e.error_type == 3 && e.error_code == 3) || (
    e.family == 6 && e.error_type == 1 && e.error_code == 4));
    let hop = (e.family == 4 && e.error_type == 11) || (e.family == 6 && e.error_type == 3);
    let outcome = if terminal {
        "destinationReached"
    } else if hop {
        "hopResponse"
    } else if e.error_code == 13 || (e.family == 6 && e.error_code == 1) {
        "administrativelyFiltered"
    } else {
        "unreachable"
    };
    AttemptOutcome {
        responder,
        outcome,
        correlation: if responder.is_some() {
            "strong"
        } else {
            "weak"
        },
        error_fields: Some((e.family, e.error_type, e.error_code)),
    }
}

/// Whether `needle` occurs in `data` as a contiguous run.
pub open spec fn contains_run(data: Seq<u8>, needle: Seq<u8>) -> bool {
    exists|i: int| 0 <= i && i + needle.len() <= data.len() && #[trigger] data.subrange(i, i + needle.len()) == needle
}

fn run_at(data: &[u8], start: usize, needle: &[u8]) -> (r: bool)
    requires
        start + needle@.len() <= data@.len(),
    ensures
        r == (data@.subrange(start as int, start + needle@.len()) == needle@),
{
    let length = data.len();
    let mut k: usize = 0;
    while k < needle.len()
        invariant
            start + needle@.len() <= data@.len(),
            length == data@.len(),
            k <= needle@.len(),
            forall|j: int| 0 <= j < k ==> data@[start + j] == needle@[j],
        decreases needle@.len() - k,
    {
        if data[start + k] != needle[k] {
            proof {
                assert(data@.subrange(start as int, start + needle@.len())[k as int] != needle@[k as int]);
            }
            return false;
        }
        k = k + 1;
    }
    proof {
        assert(data@.subrange(start as int, start + needle@.len()) =~= needle@);
    }
    true
}

/// Whether `data` holds `needle` as a contiguous run.
pub fn find_run(data: &[u8], needle: &[u8]) -> (r: bool)
    ensures
        needle@.len() > 0 ==> r == contains_run(data@, needle@),
{
    if needle.len() == 0 || needle.len() > data.len() {
        return false;
    }
    let mut i: usize = 0;
    let length = data.len();
    let last = length - needle.len();
    while i <= last
        invariant
            0 < needle@.len() <= data@.len(),
            length == data@.len(),
            last == data@.len() - needle@.len(),
            i <= last + 1,
            forall|j: int| 0 <= j < i && j + needle@.len() <= data@.len() ==> #[trigger] data@.subrange(j, j + needle@.len()) != needle@,
        decreases data@.len() - i,
    {
        if run_at(data, i, needle) {
            return true;
        }
        i = i + 1;
    }
    false
}

/// The outcome an error-queue read yields: nothing when a token is expected
/// and the returned payload does not carry it, else the first queued error's
/// classification.
pub fn error_queue_outcome(
    target: &IpAddress,
    token: &[u8],
    data: &[u8],
    first_error: Option<QueuedError>,
) -> (r: Option<AttemptOutcome>)
    ensures
        token@.len() > 0 && !contains_run(data@, token@) ==> r is None,
        !(token@.len() > 0 && !contains_run(data@, token@)) ==> match first_error {
            Some(e) => r matches Some(o) && o.responder == error_responder(e) && o.outcome@
                == error_outcome(*target, e) && o.error_fields == Some((e.family, e.error_type, e.error_code)),
            None => r is None,
        },
{
    if token.len() > 0 && !find_run(data, token) {
        return None;
    }
    match first_error {
        Some(e) => Some(classify_error(target, &e)),
        None => None,
    }
}

/// The ICMP message of a direct echo reply: after the IPv4 header for an
/// IPv4 target, the whole datagram for IPv6; nothing when the IPv4 header
/// is malformed.
pub open spec fn echo_message(target: IpAddress, response: Seq<u8>) -> Option<Seq<u8>> {
    match target {
        IpAddress::V4(_) => if response.len() == 0 {
            None
        } else {
            let header = ((response[0] & 0x0f) as int) * 4;
            if header < 20 || response.len() < header {
                None
            } else {
                Some(response.skip(header))
            }
        },
        IpAddress::V6(_) => Some(response),
    }
}

/// Whether a datagram on the probe socket is the target's own answer: from
/// the target, and for UDP from the probed port, for echo an echo reply
/// with the trace identifier that carries the probe token.
pub open spec fn direct_match(
    mode: PathMode,
    target: IpAddress,
    token: Seq<u8>,
    identifier: u16,
    response: Seq<u8>,
    source: Option<(IpAddress, u16)>,
) -> bool {
    match source {
        None => false,
        Some((address, port)) => address == target && match mode {
            PathMode::Udp(probed) => port == probed,
            PathMode::Echo => match echo_message(target, response) {
                Some(m) => {
                    &&& m.len() >= 8
                    &&& m[0] == (if target is V4 {
                        0u8
                    } else {
                        129u8
                    })
                    &&& m[1] == 0
                    &&& m[4] == (identifier / 256) as u8
                    &&& m[5] == (identifier % 256) as u8
                    &&& contains_run(m.skip(8), token)
                },
                None => false,
            },
            PathMode::TcpSyn(_) => false,
        },
    }
}

fn copy_from(data: &[u8], start: usize) -> (r: Vec<u8>)
    requires
        start <= data@.len(),
    ensures
        r@ == data@.skip(start as int),
{
    let mut out: Vec<u8> = Vec::new();
    let mut i: usize = start;
    while i < data.len()
        invariant
            start <= i <= data@.len(),
            out@ == data@.subrange(start as int, i as int),
        decreases data@.len() - i,
    {
        out.push(data[i]);
        proof {
            assert(out@ =~= data@.subrange(start as int, i + 1));
        }
        i = i + 1;
    }
    proof {
        assert(out@ =~= data@.skip(start as int));
    }
    out
}

/// Whether a datagram on the probe socket is the target's own answer.
pub fn direct_response_matches(
    mode: PathMode,
    target: &IpAddress,
    token: &[u8],
    identifier: u16,
    response: &[u8],
    source: Option<(IpAddress, u16)>,
) -> (r: bool)
    requires
        token@.len() > 0,
    ensures
        r == direct_match(mode, *target, token@, identifier, response@, source),
{
    let (address, port) = match source {
        Some(value) => value,
        None => return false,
    };
    if !same_address(&address, target) {
        return false;
    }
    match mode {
        PathMode::Udp(probed) => port == probed,
        PathMode::TcpSyn(_) => false,
        PathMode::Echo => {
            let (message, expected_type): (Vec<u8>, u8) = match target {
                IpAddress::V4(_) => {
                    if response.len() == 0 {
                        return false;
                    }
                    let header = ((response[0] & 0x0f) as usize) * 4;
                    if header < 20 || response.len() < header {
                        return false;
                    }
                    (copy_from(response, header), 0)
                },
                IpAddress::V6(_) => (copy_from(response, 0), 129),
            };
            proof {
                assert(response@.skip(0) =~= response@);
            }
            if message.len() < 8 || message[0] != expected_type || message[1] != 0 {
                return false;
            }
            if message[4] != (identifier / 256) as u8 || message[5] != (identifier % 256) as u8 {
                return false;
            }
            let body = copy_from(message.as_slice(), 8);
            find_run(body.as_slice(), token)
        },
    }
}

/// The probe token: the trace nonce, `NNPT`, the hop and attempt, and a
/// fixed `a5 5a` trailer.
pub open spec fn token_bytes(nonce: Seq<u8>, hop: u8, attempt: u8) -> Seq<u8> {
    nonce + seq![0x4eu8, 0x4e, 0x50, 0x54, hop, attempt, 0xa5, 0x5a]
}

/// The probe token of one attempt.
pub fn path_token(nonce: [u8; 8], hop: u8, attempt: u8) -> (r: [u8; 16])
    ensures
        r@ == token_bytes(nonce@, hop, attempt),
{
    let token: [u8; 16] = [
        nonce[0],
        nonce[1],
        nonce[2],
        nonce[3],
        nonce[4],
        nonce[5],
        nonce[6],
        nonce[7],
        0x4e,
        0x4e,
        0x50,
        0x54,
        hop,
        attempt,
        0xa5,
        0x5a,
    ];
    proof {
        assert(token@ =~= token_bytes(nonce@, hop, attempt));
    }
    token
}

/// The echo identifier of a trace: the nonce's first two bytes, big-endian.
pub open spec fn trace_identifier(nonce: Seq<u8>) -> u16 {
    (nonce[0] * 256 + nonce[1]) as u16
}

/// The 16-bit words of data summed with end-around carry (RFC 1071), a
/// trailing odd byte taken as a word's high byte.
pub open spec fn ones_complement_sum(data: Seq<u8>, words: nat) -> int
    decreases words,
{
    if words == 0 {
        0
    } else {
        let i = 2 * (words - 1);
        let word: int = if i + 1 < data.len() {
            data[i] * 256 + data[i + 1]
        } else {
            data[i] * 256
        };
        let total = ones_complement_sum(data, (words - 1) as nat) + word;
        if total > 0xffff {
            total - 0xffff
        } else {
            total
        }
    }
}

/// The Internet checksum of data: the complement of its ones'-complement
/// sum.
pub open spec fn internet_checksum_of(data: Seq<u8>) -> u16 {
    (0xffff - ones_complement_sum(data, ((data.len() + 1) / 2) as nat)) as u16
}

/// The Internet checksum of data.
pub fn internet_checksum(data: &[u8]) -> (r: u16)
    ensures
        r == internet_checksum_of(data@),
{
    let length = data.len();
    let words = length / 2 + length % 2;
    let mut total: u32 = 0;
    let mut w: usize = 0;
    while w < words
        invariant
            length == data@.len(),
            words == (data@.len() + 1) / 2,
            w <= words,
            total == ones_complement_sum(data@, w as nat),
            total <= 0xffff,
        decreases words - w,
    {
        let i = 2 * w;
        let word: u32 = if i + 1 < length {
            data[i] as u32 * 256 + data[i + 1] as u32
        } else {
            data[i] as u32 * 256
        };
        let sum = total + word;
        total = if sum > 0xffff {
            sum - 0xffff
        } else {
            sum
        };
        w = w + 1;
    }
    (0xffff - total) as u16
}

/// The echo request of one attempt: type 8 (IPv4) or 128 (IPv6), the trace
/// identifier, hop and attempt as sequence, then the token; IPv4 requests
/// carry their checksum, IPv6 ones leave it to the kernel.
pub open spec fn echo_request_bytes(ipv4: bool, nonce: Seq<u8>, hop: u8, attempt: u8) -> Seq<u8> {
    let unsummed = seq![if ipv4 {
        8u8
    } else {
        128u8
    }, 0u8, 0u8, 0u8, nonce[0], nonce[1], hop, attempt] + token_bytes(nonce, hop, attempt);
    if ipv4 {
        let c = internet_checksum_of(unsummed);
        unsummed.update(2, (c / 256) as u8).update(3, (c % 256) as u8)
    } else {
        unsummed
    }
}

/// Builds the echo request of one attempt.
pub fn echo_request(ipv4: bool, nonce: [u8; 8], hop: u8, attempt: u8) -> (r: Vec<u8>)
    ensures
        r@ == echo_request_bytes(ipv4, nonce@, hop, attempt),
{
    let token = path_token(nonce, hop, attempt);
    let mut message: Vec<u8> = Vec::new();
    message.push(if ipv4 {
        8
    } else {
        128
    });
    message.push(0);
    message.push(0);
    message.push(0);
    message.push(nonce[0]);
    message.push(nonce[1]);
    message.push(hop);
    message.push(attempt);
    let mut i: usize = 0;
    while i < 16
        invariant
            i <= 16,
            message@ == seq![if ipv4 {
                8u8
            } else {
                128u8
            }, 0u8, 0u8, 0u8, nonce@[0], nonce@[1], hop, attempt] + token@.take(i as int),
        decreases 16 - i,
    {
        message.push(token[i]);
        proof {
            assert(message@ =~= seq![if ipv4 {
                8u8
            } else {
                128u8
            }, 0u8, 0u8, 0u8, nonce@[0], nonce@[1], hop, attempt] + token@.take(i + 1));
        }
        i = i + 1;
    }
    proof {
        assert(token@.take(16) =~= token@);
    }
    if ipv4 {
        let checksum = internet_checksum(message.as_slice());
        message.set(2, (checksum / 256) as u8);
        message.set(3, (checksum % 256) as u8);
    }
    message
}

/// One recorded probe attempt.
#[derive(Clone, Debug)]
pub struct NativePathAttempt {
    pub hop: u32,
    pub attempt: u32,
    pub responder: Option<String>,
    pub round_trip_microseconds: Option<String>,
    pub outcome: String,
    pub correlation: String,
    pub icmp_family: Option<u32>,
    pub icmp_type: Option<u32>,
    pub icmp_code: Option<u32>,
}

/// The result of one path trace.
#[derive(Clone, Debug)]
pub struct NativePathRun {
    pub schema_version: u32,
    pub target: String,
    pub mode: String,
    pub state: String,
    pub destination_reached: bool,
    pub truncated: bool,
    pub attempts: Vec<NativePathAttempt>,
}

/// The position of a trace in its hop-by-attempt schedule and what it has
/// recorded.
pub struct PathSchedule {
    plan: ValidatedPathPlan,
    hop: u8,
    attempt: u8,
    finished: bool,
    destination_reached: bool,
    attempts: Vec<NativePathAttempt>,
}

/// The mathematical state of a [`PathSchedule`].
pub struct PathScheduleView {
    pub plan: ValidatedPathPlan,
    pub hop: u8,
    pub attempt: u8,
    pub finished: bool,
    pub destination_reached: bool,
    pub attempts: Seq<NativePathAttempt>,
}

impl View for PathSchedule {
    type V = PathScheduleView;

    closed spec fn view(&self) -> PathScheduleView {
        PathScheduleView {
            plan: self.plan,
            hop: self.hop,
            attempt: self.attempt,
            finished: self.finished,
            destination_reached: self.destination_reached,
            attempts: self.attempts@,
        }
    }
}

/// Whether a plan's hop and attempt bounds are admitted ones.
pub open spec fn plan_bounds(plan: ValidatedPathPlan) -> bool {
    &&& 1 <= plan.first_hop <= plan.maximum_hop <= MAX_PATH_HOP
    &&& 1 <= plan.attempts_per_hop <= MAX_PATH_ATTEMPTS
}

/// The schedule's invariant: the next probe position stays within the plan
/// (the hop may pass the last one by one, which ends the trace), and every
/// recorded attempt lies within the plan's hops and attempts.
pub open spec fn schedule_wf(v: PathScheduleView) -> bool {
    &&& plan_bounds(v.plan)
    &&& v.plan.first_hop <= v.hop <= v.plan.maximum_hop + 1
    &&& 1 <= v.attempt <= v.plan.attempts_per_hop
    &&& forall|i: int|
        0 <= i < v.attempts.len() ==> v.plan.first_hop <= (#[trigger] v.attempts[i]).hop
            <= v.plan.maximum_hop && 1 <= v.attempts[i].attempt <= v.plan.attempts_per_hop
}

/// Whether an outcome ends the trace.
pub open spec fn terminal_outcome(outcome: Seq<char>) -> bool {
    outcome == "destinationReached"@ || outcome == "unreachable"@
}

/// The position after one recorded attempt: the next attempt at this hop,
/// else the first attempt at the next hop.
pub open spec fn advanced(v: PathScheduleView) -> (u8, u8) {
    if v.attempt < v.plan.attempts_per_hop {
        (v.hop, (v.attempt + 1) as u8)
    } else {
        ((v.hop + 1) as u8, 1)
    }
}

fn widen(value: u8) -> (r: u32)
    ensures
        r == value,
{
    value as u32
}

fn widen_fields(fields: Option<(u8, u8, u8)>) -> (r: (Option<u32>, Option<u32>, Option<u32>))
    ensures
        r == (match fields {
            Some((a, b, c)) => (Some(a as u32), Some(b as u32), Some(c as u32)),
            None => (None, None, None),
        }),
{
    match fields {
        Some((a, b, c)) => (Some(widen(a)), Some(widen(b)), Some(widen(c))),
        None => (None, None, None),
    }
}

impl PathSchedule {
    /// A schedule at the plan's first hop and first attempt.
    pub fn new(plan: ValidatedPathPlan) -> (r: Self)
        requires
            plan_bounds(plan),
        ensures
            schedule_wf(r@),
            r@.plan == plan,
            r@.hop == plan.first_hop,
            r@.attempt == 1,
            !r@.finished,
            !r@.destination_reached,
            r@.attempts.len() == 0,
    {
        PathSchedule {
            plan,
            hop: plan.first_hop,
            attempt: 1,
            finished: false,
            destination_reached: false,
            attempts: Vec::new(),
        }
    }

    /// The next probe to send, or nothing once the trace has ended: after
    /// the last hop, on cancellation, or at the session deadline.
    pub fn next_probe(&mut self, cancelled: bool, before_deadline: bool) -> (r: Option<(u8, u8)>)
        requires
            schedule_wf(old(self)@),
        ensures
            schedule_wf(final(self)@),
            (!old(self)@.finished && old(self)@.hop <= old(self)@.plan.maximum_hop && !cancelled
                && before_deadline) ==> r == Some((old(self)@.hop, old(self)@.attempt))
                && final(self)@ == old(self)@,
            !(!old(self)@.finished && old(self)@.hop <= old(self)@.plan.maximum_hop && !cancelled
                && before_deadline) ==> r is None && final(self)@ == (PathScheduleView {
                finished: true,
                ..old(self)@
            }),
    {
        if self.finished || self.hop > self.plan.maximum_hop || cancelled || !before_deadline {
            self.finished = true;
            return None;
        }
        Some((self.hop, self.attempt))
    }

    /// Records the outcome of the attempt just sent. Returns whether the
    /// trace continues, in which case it paces before the next probe.
    /// `responder_text` is the responder's address as text.
    pub fn record(
        &mut self,
        cancelled: bool,
        outcome: &AttemptOutcome,
        responder_text: Option<String>,
        elapsed_micros: u128,
    ) -> (r: bool)
        requires
            schedule_wf(old(self)@),
            !old(self)@.finished,
            old(self)@.hop <= old(self)@.plan.maximum_hop,
            responder_text is Some == outcome.responder is Some,
        ensures
            schedule_wf(final(self)@),
            cancelled ==> !r && final(self)@ == (PathScheduleView { finished: true, ..old(self)@ }),
            !cancelled ==> {
                &&& final(self)@.attempts.len() == old(self)@.attempts.len() + 1
                &&& final(self)@.attempts.drop_last() == old(self)@.attempts
                &&& final(self)@.attempts.last().hop == old(self)@.hop
                &&& final(self)@.attempts.last().attempt == old(self)@.attempt
                &&& final(self)@.attempts.last().outcome@ == outcome.outcome@
                &&& final(self)@.attempts.last().correlation@ == outcome.correlation@
                &&& final(self)@.attempts.last().responder == responder_text
                &&& (final(self)@.attempts.last().round_trip_microseconds matches Some(text)
                    ==> text@ == micros_text(elapsed_micros))
                &&& final(self)@.attempts.last().round_trip_microseconds is Some
                    == outcome.responder is Some
            },
            !cancelled && terminal_outcome(outcome.outcome@) ==> !r && final(self)@.finished
                && final(self)@.destination_reached == (outcome.outcome@
                == "destinationReached"@),
            !cancelled && !terminal_outcome(outcome.outcome@) ==> r == (old(self)@.attempt
                < old(self)@.plan.attempts_per_hop || old(self)@.hop < old(self)@.plan.maximum_hop)
                && (final(self)@.hop, final(self)@.attempt) == advanced(old(self)@)
                && !final(self)@.finished,
    {
        if cancelled {
            self.finished = true;
            return false;
        }
        let (family, kind, code) = widen_fields(outcome.error_fields);
        let round_trip = match outcome.responder {
            Some(_) => Some(decimal_string_u128(elapsed_micros)),
            None => None,
        };
        let entry = NativePathAttempt {
            hop: widen(self.hop),
            attempt: widen(self.attempt),
            responder: responder_text,
            round_trip_microseconds: round_trip,
            outcome: owned(outcome.outcome),
            correlation: owned(outcome.correlation),
            icmp_family: family,
            icmp_type: kind,
            icmp_code: code,
        };
        self.attempts.push(entry);
        let reached = str_eq(outcome.outcome, "destinationReached");
        if reached || str_eq(outcome.outcome, "unreachable") {
            self.destination_reached = reached;
            self.finished = true;
            return false;
        }
        let has_next = self.attempt < self.plan.attempts_per_hop || self.hop
            < self.plan.maximum_hop;
        if self.attempt < self.plan.attempts_per_hop {
            self.attempt = self.attempt + 1;
        } else {
            self.hop = self.hop + 1;
            self.attempt = 1;
        }
        has_next
    }

    /// Ends the trace early, when pacing refused the next probe.
    pub fn stop(&mut self)
        ensures
            final(self)@ == (PathScheduleView { finished: true, ..old(self)@ }),
    {
        self.finished = true;
    }

    /// Whether the trace reached its target.
    pub fn destination_reached(&self) -> (r: bool)
        ensures
            r == self@.destination_reached,
    {
        self.destination_reached
    }

    /// The trace's result: cancelled, completed when the target answered,
    /// else partial, and truncated when the deadline cut an unfinished,
    /// uncancelled trace. `target_text` is the target's address as text.
    pub fn finish(self, target_text: String, cancelled: bool, deadline_passed: bool) -> (r:
        NativePathRun)
        ensures
            r.schema_version == 1,
            r.target == target_text,
            r.mode@ == path_mode_name(self@.plan.mode),
            r.state@ == (if cancelled {
                "cancelled"@
            } else if self@.destination_reached {
                "completed"@
            } else {
                "partial"@
            }),
            r.destination_reached == self@.destination_reached,
            r.truncated == (!self@.destination_reached && !cancelled && deadline_passed),
            r.attempts@ == self@.attempts,
    {
        let mode = match self.plan.mode {
            PathMode::Echo => "icmpEcho",
            PathMode::Udp(_) => "udp",
            PathMode::TcpSyn(_) => "tcpSyn",
        };
        let state = if cancelled {
            "cancelled"
        } else if self.destination_reached {
            "completed"
        } else {
            "partial"
        };
        NativePathRun {
            schema_version: 1,
            target: target_text,
            mode: owned(mode),
            state: owned(state),
            destination_reached: self.destination_reached,
            truncated: !self.destination_reached && !cancelled && deadline_passed,
            attempts: self.attempts,
        }
    }
}

/// A round-trip time in microseconds, spelled in base ten.
pub open spec fn micros_text(elapsed: u128) -> Seq<char> {
    decimal(elapsed as nat)
}

/// The reported name of a probing mode.
pub open spec fn path_mode_name(mode: PathMode) -> Seq<char> {
    match mode {
        PathMode::Echo => "icmpEcho"@,
        PathMode::Udp(_) => "udp"@,
        PathMode::TcpSyn(_) => "tcpSyn"@,
    }
}

/// A trace records at most one attempt per scheduled probe: the hops and
/// attempts of every recorded attempt lie within the plan.
pub proof fn recorded_attempts_stay_within_plan(v: PathScheduleView, i: int)
    requires
        schedule_wf(v),
        0 <= i < v.attempts.len(),
    ensures
        v.plan.first_hop <= v.attempts[i].hop <= v.plan.maximum_hop,
        1 <= v.attempts[i].attempt <= v.plan.attempts_per_hop,
        v.attempts[i].hop <= MAX_PATH_HOP,
        v.attempts[i].attempt <= MAX_PATH_ATTEMPTS,
{
}

/// A time-exceeded error is a hop's response, for IPv4 (ICMP type 11) and
/// IPv6 (ICMPv6 type 3) alike, whoever sent it and whatever its code; an
/// IPv4 and an IPv6 time-exceeded error from the same sender are classified
/// the same way.
pub proof fn time_exceeded_is_a_hop_response(target: IpAddress, e: QueuedError)
    ensures
        (e.origin == 2 || e.origin == 3) && e.offender == Some(target) && ((e.family == 4
            && e.error_type == 3 && e.error_code == 3) || (e.family == 6 && e.error_type == 1
            && e.error_code == 4)) ==> error_outcome(target, e) == "destinationReached"@,
        !(e.origin == 2 || e.origin == 3) ==> error_responder(e) is None,
        (e.origin == 2 || e.origin == 3) ==> error_responder(e) == e.offender,
        (e.family == 4 && e.error_type == 11) ==> error_outcome(target, e) == "hopResponse"@,
        (e.family == 6 && e.error_type == 3) ==> error_outcome(target, e) == "hopResponse"@,
        error_outcome(target, QueuedError { family: 4, error_type: 11, ..e }) == error_outcome(
            target,
            QueuedError { family: 6, error_type: 3, ..e },
        ),
{
}

} // verus!

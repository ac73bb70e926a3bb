//! Discovery session rules: the control state machine, the token-bucket
//! pacer, per-row bounds, query admission and the UUID URN form of message
//! identifiers.
use vstd::prelude::*;
use vstd::string::StringSliceAdditionalSpecFns;
use vstd::utf8::*;

use crate::results::IpAddress;
use crate::scan_error::{scan_failure, scan_fails_with, ScanFailure, ScannerError, ScannerErrorView};
use crate::text::{byte_len, bytes_of, decimal, decimal_string, owned, string_len};

verus! {

broadcast use vstd::string::group_string_axioms;

pub const MAX_NATIVE_DISCOVERY_QUERIES: usize = 1024;

pub const MAX_NATIVE_DISCOVERY_SOCKETS: usize = 256;

pub const MAX_MDNS_QUERIES_PER_SCOPE_MEMBER: usize = 256;

pub const MAX_RECEIVED_DATAGRAMS: usize = 65536;

pub const MAX_RECEIVED_BYTES: usize = 67108864;

pub const MAX_METADATA_FIELDS_PER_ROW: usize = 128;

pub const MAX_METADATA_BYTES_PER_ROW: usize = 16384;

/// The states of a discovery session.
#[derive(Clone, Copy, Debug, PartialEq, Eq, Structural)]
pub enum DiscoveryState {
    Running,
    Paused,
    Cancelling,
    Completed,
}

/// The progress counters of a discovery session.
#[derive(Clone, Copy, Debug, Default, PartialEq, Eq, Structural)]
pub struct DiscoveryCounters {
    pub queries: u64,
    pub sent: u64,
    pub received: u64,
    pub received_bytes: u64,
    pub accepted: u64,
    pub duplicate: u64,
    pub rejected: u64,
    pub truncated: u64,
    pub cleanup_sent: u64,
}

/// All-zero discovery counters.
pub open spec fn zero_discovery_counters() -> DiscoveryCounters {
    DiscoveryCounters {
        queries: 0,
        sent: 0,
        received: 0,
        received_bytes: 0,
        accepted: 0,
        duplicate: 0,
        rejected: 0,
        truncated: 0,
        cleanup_sent: 0,
    }
}

/// A discovery progress report, each counter spelled in base ten.
#[derive(Clone, Debug, Default)]
pub struct NativeDiscoveryProgress {
    pub queries: String,
    pub sent: String,
    pub received: String,
    pub received_bytes: String,
    pub accepted: String,
    pub duplicate: String,
    pub rejected: String,
    pub truncated: String,
    pub cleanup_sent: String,
}

/// Whether a report spells each counter in base ten.
pub open spec fn reports(p: NativeDiscoveryProgress, c: DiscoveryCounters) -> bool {
    &&& p.queries@ == decimal(c.queries as nat)
    &&& p.sent@ == decimal(c.sent as nat)
    &&& p.received@ == decimal(c.received as nat)
    &&& p.received_bytes@ == decimal(c.received_bytes as nat)
    &&& p.accepted@ == decimal(c.accepted as nat)
    &&& p.duplicate@ == decimal(c.duplicate as nat)
    &&& p.rejected@ == decimal(c.rejected as nat)
    &&& p.truncated@ == decimal(c.truncated as nat)
    &&& p.cleanup_sent@ == decimal(c.cleanup_sent as nat)
}

/// The progress report of a set of counters.
pub fn discovery_progress(c: &DiscoveryCounters) -> (r: NativeDiscoveryProgress)
    ensures
        reports(r, *c),
{
    NativeDiscoveryProgress {
        queries: decimal_string(c.queries),
        sent: decimal_string(c.sent),
        received: decimal_string(c.received),
        received_bytes: decimal_string(c.received_bytes),
        accepted: decimal_string(c.accepted),
        duplicate: decimal_string(c.duplicate),
        rejected: decimal_string(c.rejected),
        truncated: decimal_string(c.truncated),
        cleanup_sent: decimal_string(c.cleanup_sent),
    }
}

/// The control of one discovery session: its state and its last published
/// counters. A session starts running; it may pause and resume while not
/// cancelled, cancellation wins over everything but completion, and
/// completion is final for cancellation.
pub struct DiscoveryControl {
    state: DiscoveryState,
    progress: DiscoveryCounters,
}

/// The mathematical state of a [`DiscoveryControl`].
pub struct DiscoveryControlView {
    pub state: DiscoveryState,
    pub progress: DiscoveryCounters,
}

impl View for DiscoveryControl {
    type V = DiscoveryControlView;

    closed spec fn view(&self) -> DiscoveryControlView {
        DiscoveryControlView { state: self.state, progress: self.progress }
    }
}

/// The state after a pause request.
pub open spec fn paused_state(state: DiscoveryState) -> Option<DiscoveryState> {
    if state == DiscoveryState::Running {
        Some(DiscoveryState::Paused)
    } else {
        None
    }
}

/// The state after a resume request.
pub open spec fn resumed_state(state: DiscoveryState) -> Option<DiscoveryState> {
    if state == DiscoveryState::Paused {
        Some(DiscoveryState::Running)
    } else {
        None
    }
}

/// The state after a cancel request.
pub open spec fn cancelled_state(state: DiscoveryState) -> DiscoveryState {
    if state == DiscoveryState::Completed {
        state
    } else {
        DiscoveryState::Cancelling
    }
}

/// The reported name of a discovery state.
pub open spec fn discovery_state_name(state: DiscoveryState) -> Seq<char> {
    match state {
        DiscoveryState::Running => "running"@,
        DiscoveryState::Paused => "paused"@,
        DiscoveryState::Cancelling => "cancelling"@,
        DiscoveryState::Completed => "completed"@,
    }
}

impl DiscoveryControl {
    /// A running session with zero counters.
    pub fn new() -> (r: Self)
        ensures
            r@.state == DiscoveryState::Running,
            r@.progress == zero_discovery_counters(),
    {
        DiscoveryControl {
            state: DiscoveryState::Running,
            progress: DiscoveryCounters {
                queries: 0,
                sent: 0,
                received: 0,
                received_bytes: 0,
                accepted: 0,
                duplicate: 0,
                rejected: 0,
                truncated: 0,
                cleanup_sent: 0,
            },
        }
    }

    /// Pauses a running session.
    pub fn pause(&mut self) -> (r: Result<(), ScannerError>)
        ensures
            final(self)@.progress == old(self)@.progress,
            match paused_state(old(self)@.state) {
                Some(next) => r is Ok && final(self)@.state == next,
                None => final(self)@.state == old(self)@.state && scan_fails_with(
                    r,
                    scan_failure(ScanFailure::Lifecycle, "pause discovery"@, "session is not running"@),
                ),
            },
    {
        if self.state == DiscoveryState::Running {
            self.state = DiscoveryState::Paused;
            Ok(())
        } else {
            Err(ScannerError::lifecycle("pause discovery", "session is not running"))
        }
    }

    /// Resumes a paused session.
    pub fn resume(&mut self) -> (r: Result<(), ScannerError>)
        ensures
            final(self)@.progress == old(self)@.progress,
            match resumed_state(old(self)@.state) {
                Some(next) => r is Ok && final(self)@.state == next,
                None => final(self)@.state == old(self)@.state && scan_fails_with(
                    r,
                    scan_failure(ScanFailure::Lifecycle, "resume discovery"@, "session is not paused"@),
                ),
            },
    {
        if self.state == DiscoveryState::Paused {
            self.state = DiscoveryState::Running;
            Ok(())
        } else {
            Err(ScannerError::lifecycle("resume discovery", "session is not paused"))
        }
    }

    /// Requests cancellation; a completed session stays completed.
    pub fn cancel(&mut self)
        ensures
            final(self)@.state == cancelled_state(old(self)@.state),
            final(self)@.progress == old(self)@.progress,
    {
        if self.state != DiscoveryState::Completed {
            self.state = DiscoveryState::Cancelling;
        }
    }

    /// The reported name of the current state.
    pub fn state_name(&self) -> (r: &'static str)
        ensures
            r@ == discovery_state_name(self@.state),
    {
        match self.state {
            DiscoveryState::Running => "running",
            DiscoveryState::Paused => "paused",
            DiscoveryState::Cancelling => "cancelling",
            DiscoveryState::Completed => "completed",
        }
    }

    /// Whether cancellation was requested and the session has not completed.
    pub fn cancelling(&self) -> (r: bool)
        ensures
            r == (self@.state == DiscoveryState::Cancelling),
    {
        self.state == DiscoveryState::Cancelling
    }

    /// Whether sends of new queries are allowed: only while running.
    pub fn running(&self) -> (r: bool)
        ensures
            r == (self@.state == DiscoveryState::Running),
    {
        self.state == DiscoveryState::Running
    }

    /// Marks the session completed.
    pub fn complete(&mut self)
        ensures
            final(self)@.state == DiscoveryState::Completed,
            final(self)@.progress == old(self)@.progress,
    {
        self.state = DiscoveryState::Completed;
    }

    /// Publishes the latest counters.
    pub fn publish(&mut self, counters: &DiscoveryCounters)
        ensures
            final(self)@.state == old(self)@.state,
            final(self)@.progress == *counters,
    {
        self.progress = *counters;
    }

    /// The last published counters as a progress report.
    pub fn progress(&self) -> (r: NativeDiscoveryProgress)
        ensures
            reports(r, self@.progress),
    {
        discovery_progress(&self.progress)
    }
}

/// Pausing and then resuming a running session returns it to running, and a
/// completed session stays completed whatever control request follows.
pub proof fn discovery_control_laws(state: DiscoveryState)
    ensures
        state == DiscoveryState::Running ==> resumed_state(paused_state(state).unwrap()) == Some(
            DiscoveryState::Running,
        ),
        state == DiscoveryState::Completed ==> cancelled_state(state) == DiscoveryState::Completed
            && paused_state(state) is None && resumed_state(state) is None,
        state != DiscoveryState::Completed ==> cancelled_state(state)
            == DiscoveryState::Cancelling,
        cancelled_state(cancelled_state(state)) == cancelled_state(state),
{
}

/// Token units one packet costs: one second's worth at one packet per
/// second, in nanoseconds.
pub const UNITS_PER_PACKET: u128 = 1_000_000_000;

/// A token bucket that admits `packets_per_second` sends on average and at
/// most `burst` at once. Time is in nanoseconds of a monotonic clock.
pub struct DiscoveryPacer {
    packets_per_second: u32,
    capacity: u128,
    tokens: u128,
    updated: u128,
}

/// The mathematical state of a [`DiscoveryPacer`].
pub struct PacerView {
    pub packets_per_second: u32,
    pub capacity: u128,
    pub tokens: u128,
    pub updated: u128,
}

impl View for DiscoveryPacer {
    type V = PacerView;

    closed spec fn view(&self) -> PacerView {
        PacerView {
            packets_per_second: self.packets_per_second,
            capacity: self.capacity,
            tokens: self.tokens,
            updated: self.updated,
        }
    }
}

/// A `u128` product, saturating.
pub open spec fn sat_mul128(a: u128, b: u128) -> u128 {
    if a * b > u128::MAX {
        u128::MAX
    } else {
        (a * b) as u128
    }
}

/// One send attempt at time `now`: the bucket refills by the elapsed time at
/// the configured rate, up to its capacity, and a send takes one packet's
/// worth of tokens if there is one.
pub open spec fn pacer_step(v: PacerView, now: u128) -> (PacerView, bool) {
    let elapsed: u128 = if now >= v.updated {
        (now - v.updated) as u128
    } else {
        0
    };
    let refilled = v.tokens.saturating_add(sat_mul128(elapsed, v.packets_per_second as u128));
    let tokens: u128 = if refilled < v.capacity {
        refilled
    } else {
        v.capacity
    };
    if tokens < UNITS_PER_PACKET {
        (PacerView { tokens, updated: now, ..v }, false)
    } else {
        (PacerView { tokens: (tokens - UNITS_PER_PACKET) as u128, updated: now, ..v }, true)
    }
}

impl DiscoveryPacer {
    /// A full bucket for `burst` packets at time `now`.
    pub fn new(packets_per_second: u32, burst: u32, now: u128) -> (r: Self)
        ensures
            r@ == (PacerView {
                packets_per_second,
                capacity: (burst * UNITS_PER_PACKET) as u128,
                tokens: (burst * UNITS_PER_PACKET) as u128,
                updated: now,
            }),
    {
        let capacity = burst as u128 * UNITS_PER_PACKET;
        DiscoveryPacer { packets_per_second, capacity, tokens: capacity, updated: now }
    }

    /// Tries to take one send at time `now`.
    pub fn try_take(&mut self, now: u128) -> (r: bool)
        ensures
            (final(self)@, r) == pacer_step(old(self)@, now),
    {
        let elapsed: u128 = if now >= self.updated {
            now - self.updated
        } else {
            0
        };
        let replenished = match elapsed.checked_mul(self.packets_per_second as u128) {
            Some(value) => value,
            None => u128::MAX,
        };
        let refilled = self.tokens.saturating_add(replenished);
        self.tokens = if refilled < self.capacity {
            refilled
        } else {
            self.capacity
        };
        self.updated = now;
        if self.tokens < UNITS_PER_PACKET {
            return false;
        }
        self.tokens = self.tokens - UNITS_PER_PACKET;
        true
    }
}

/// `count` send attempts at the same instant: the final state and how many
/// were admitted.
pub open spec fn attempts_at(v: PacerView, now: u128, count: nat) -> (PacerView, nat)
    decreases count,
{
    if count == 0 {
        (v, 0)
    } else {
        let (before, admitted) = attempts_at(v, now, (count - 1) as nat);
        let (after, sent) = pacer_step(before, now);
        (after, if sent { admitted + 1 } else { admitted })
    }
}

/// The pacer never holds more tokens than its capacity.
pub proof fn pacer_tokens_stay_within_capacity(v: PacerView, now: u128)
    requires
        v.tokens <= v.capacity,
    ensures
        pacer_step(v, now).0.tokens <= pacer_step(v, now).0.capacity,
        pacer_step(v, now).0.capacity == v.capacity,
{
}

proof fn lemma_burst_prefix(v: PacerView, now: u128, burst: nat, count: nat)
    requires
        v.capacity == burst * UNITS_PER_PACKET,
        v.tokens == v.capacity,
        v.updated == now,
        count <= burst,
    ensures
        attempts_at(v, now, count).0.tokens == (burst - count) * UNITS_PER_PACKET,
        attempts_at(v, now, count).0.updated == now,
        attempts_at(v, now, count).0.capacity == v.capacity,
        attempts_at(v, now, count).0.packets_per_second == v.packets_per_second,
        attempts_at(v, now, count).1 == count,
    decreases count,
{
    if count > 0 {
        lemma_burst_prefix(v, now, burst, (count - 1) as nat);
        let before = attempts_at(v, now, (count - 1) as nat).0;
        let pps = before.packets_per_second as u128;
        assert(sat_mul128(0, pps) == 0) by (nonlinear_arith);
        assert((burst - (count - 1)) * UNITS_PER_PACKET == (burst - count) * UNITS_PER_PACKET
            + UNITS_PER_PACKET) by (nonlinear_arith)
            requires
                count >= 1,
        ;
        assert((burst - count) * UNITS_PER_PACKET >= 0) by (nonlinear_arith)
            requires
                count <= burst,
        ;
    }
}

/// From a full bucket, attempts at one instant admit exactly `burst` sends:
/// the first `burst` succeed and the next one is refused.
pub proof fn pacer_admits_exactly_one_burst(v: PacerView, now: u128, burst: nat)
    requires
        v.capacity == burst * UNITS_PER_PACKET,
        v.tokens == v.capacity,
        v.updated == now,
    ensures
        attempts_at(v, now, burst).1 == burst,
        attempts_at(v, now, burst + 1).1 == burst,
{
    lemma_burst_prefix(v, now, burst, burst);
    let spent = attempts_at(v, now, burst).0;
    assert(sat_mul128(0, spent.packets_per_second as u128) == 0) by (nonlinear_arith);
    assert(spent.tokens == 0);
}

/// The lowercase ASCII hexadecimal digit of a value below sixteen.
pub open spec fn hex_digit(d: int) -> u8 {
    if d < 10 {
        (48 + d) as u8
    } else {
        (87 + d) as u8
    }
}

/// The two lowercase hexadecimal digits of a byte.
pub open spec fn hex_pair(b: u8) -> Seq<u8> {
    seq![hex_digit((b / 16) as int), hex_digit((b % 16) as int)]
}

/// The bytes of `urn:uuid:`.
pub open spec fn urn_prefix() -> Seq<u8> {
    seq![0x75u8, 0x72, 0x6e, 0x3a, 0x75, 0x75, 0x69, 0x64, 0x3a]
}

/// Whether a dash precedes the digits of the byte at `i` in the
/// 8-4-4-4-12 grouping.
pub open spec fn dash_before(i: int) -> bool {
    i == 4 || i == 6 || i == 8 || i == 10
}

/// The URN bytes written for the first `i` bytes of a UUID.
pub open spec fn urn_bytes_upto(b: Seq<u8>, i: nat) -> Seq<u8>
    decreases i,
{
    if i == 0 {
        urn_prefix()
    } else {
        urn_bytes_upto(b, (i - 1) as nat) + (if dash_before(i - 1) {
            seq![0x2du8]
        } else {
            Seq::empty()
        }) + hex_pair(b[i - 1])
    }
}

/// The ASCII text of the URN form of a UUID: `urn:uuid:` and the 8-4-4-4-12
/// lowercase hexadecimal groups.
pub open spec fn urn_text(b: Seq<u8>) -> Seq<char> {
    urn_bytes_upto(b, 16).map(|_i: int, x: u8| x as char)
}

fn hex_str(d: u8) -> (r: &'static str)
    requires
        d < 16,
    ensures
        r@ == seq![hex_digit(d as int) as char],
{
    if d == 0 {
        proof {
            reveal_strlit("0");
        }
        "0"
    } else if d == 1 {
        proof {
            reveal_strlit("1");
        }
        "1"
    } else if d == 2 {
        proof {
            reveal_strlit("2");
        }
        "2"
    } else if d == 3 {
        proof {
            reveal_strlit("3");
        }
        "3"
    } else if d == 4 {
        proof {
            reveal_strlit("4");
        }
        "4"
    } else if d == 5 {
        proof {
            reveal_strlit("5");
        }
        "5"
    } else if d == 6 {
        proof {
            reveal_strlit("6");
        }
        "6"
    } else if d == 7 {
        proof {
            reveal_strlit("7");
        }
        "7"
    } else if d == 8 {
        proof {
            reveal_strlit("8");
        }
        "8"
    } else if d == 9 {
        proof {
            reveal_strlit("9");
        }
        "9"
    } else if d == 10 {
        proof {
            reveal_strlit("a");
        }
        "a"
    } else if d == 11 {
        proof {
            reveal_strlit("b");
        }
        "b"
    } else if d == 12 {
        proof {
            reveal_strlit("c");
        }
        "c"
    } else if d == 13 {
        proof {
            reveal_strlit("d");
        }
        "d"
    } else if d == 14 {
        proof {
            reveal_strlit("e");
        }
        "e"
    } else {
        proof {
            reveal_strlit("f");
        }
        "f"
    }
}

/// The URN form of a UUID: `urn:uuid:` and 8-4-4-4-12 lowercase hexadecimal
/// groups.
pub fn uuid_urn(bytes: [u8; 16]) -> (r: String)
    ensures
        r@ == urn_text(bytes@),
{
    let mut text = String::from_str("urn:uuid:");
    proof {
        reveal_strlit("urn:uuid:");
        assert(text@ =~= urn_bytes_upto(bytes@, 0).map(|_i: int, x: u8| x as char));
    }
    let mut i: usize = 0;
    while i < 16
        invariant
            i <= 16,
            text@ == urn_bytes_upto(bytes@, i as nat).map(|_i: int, x: u8| x as char),
        decreases 16 - i,
    {
        let ghost before = text@;
        if i == 4 || i == 6 || i == 8 || i == 10 {
            text.append("-");
            proof {
                reveal_strlit("-");
            }
        }
        let ghost dashed = text@;
        let byte = bytes[i];
        text.append(hex_str(byte / 16));
        text.append(hex_str(byte % 16));
        proof {
            let next = urn_bytes_upto(bytes@, (i + 1) as nat);
            assert(text@ =~= next.map(|_i: int, x: u8| x as char));
        }
        i = i + 1;
    }
    text
}

/// Whether a byte is an ASCII hexadecimal digit of either case.
pub open spec fn is_hex_byte(c: u8) -> bool {
    (48 <= c <= 57) || (97 <= c <= 102) || (65 <= c <= 70)
}

/// The value of an ASCII hexadecimal digit.
pub open spec fn hex_value(c: u8) -> int {
    if c <= 57 {
        c - 48
    } else if c >= 97 {
        c - 87
    } else {
        c - 55
    }
}

/// The byte a two-character group denotes under base-16 parsing of an
/// unsigned integer: two digits, or a plus sign and one digit.
pub open spec fn chunk_value(c0: u8, c1: u8) -> Option<u8> {
    if is_hex_byte(c0) && is_hex_byte(c1) {
        Some((16 * hex_value(c0) + hex_value(c1)) as u8)
    } else if c0 == 0x2b && is_hex_byte(c1) {
        Some(hex_value(c1) as u8)
    } else {
        None
    }
}

/// The bytes without their dashes.
pub open spec fn strip_dashes(s: Seq<u8>) -> Seq<u8>
    decreases s.len(),
{
    if s.len() == 0 {
        Seq::empty()
    } else {
        strip_dashes(s.drop_last()) + if s.last() == 0x2d {
            Seq::empty()
        } else {
            seq![s.last()]
        }
    }
}

/// Whether text starts with `urn:uuid:`.
pub open spec fn has_urn_prefix(bytes: Seq<u8>) -> bool {
    bytes.len() >= 9 && bytes.take(9) == urn_prefix()
}

/// The hexadecimal body of a URN: what follows the prefix, without dashes.
pub open spec fn urn_body(bytes: Seq<u8>) -> Seq<u8> {
    strip_dashes(bytes.skip(9))
}

/// Whether the first `k` two-character groups of a body parse.
pub open spec fn groups_parse(body: Seq<u8>, k: int) -> bool {
    forall|j: int| 0 <= j < k ==> (#[trigger] chunk_value(body[2 * j], body[2 * j + 1])) is Some
}

/// The UUID a URN denotes: `urn:uuid:` followed by 32 hexadecimal groups
/// once dashes are removed anywhere.
pub open spec fn parse_urn(bytes: Seq<u8>) -> Option<Seq<u8>> {
    let body = urn_body(bytes);
    if has_urn_prefix(bytes) && body.len() == 32 && groups_parse(body, 16) {
        Some(Seq::new(16, |k: int| chunk_value(body[2 * k], body[2 * k + 1]).unwrap()))
    } else {
        None
    }
}

/// Whether reading the groups of a 32-byte body would cut a multi-byte
/// character before a group fails to parse.
pub open spec fn urn_parse_splits_character(bytes: Seq<u8>) -> bool {
    let body = urn_body(bytes);
    &&& has_urn_prefix(bytes)
    &&& body.len() == 32
    &&& exists|k: int|
        0 <= k < 16 && groups_parse(body, k) && (vstd::utf8::is_continuation_byte(
            #[trigger] body[2 * k],
        ) || (2 * k + 2 < 32 && vstd::utf8::is_continuation_byte(body[2 * k + 2])))
}

fn hex_digit_value(c: u8) -> (r: Option<u8>)
    ensures
        is_hex_byte(c) ==> r == Some(hex_value(c) as u8),
        !is_hex_byte(c) ==> r is None,
{
    if 48 <= c && c <= 57 {
        Some(c - 48)
    } else if 97 <= c && c <= 102 {
        Some(c - 87)
    } else if 65 <= c && c <= 70 {
        Some(c - 55)
    } else {
        None
    }
}

fn group_value(c0: u8, c1: u8) -> (r: Option<u8>)
    ensures
        r == chunk_value(c0, c1),
{
    match (hex_digit_value(c0), hex_digit_value(c1)) {
        (Some(high), Some(low)) => Some(high * 16 + low),
        (None, Some(low)) => {
            if c0 == 0x2b {
                Some(low)
            } else {
                None
            }
        },
        _ => None,
    }
}

/// Parses a UUID URN: `urn:uuid:` and 32 hexadecimal digits of either case,
/// dashes anywhere ignored.
pub fn parse_uuid_urn(value: &str) -> (r: Option<[u8; 16]>)
    requires
        !urn_parse_splits_character(value.spec_bytes()),
    ensures
        match parse_urn(value.spec_bytes()) {
            Some(b) => r matches Some(a) && a@ == b,
            None => r is None,
        },
{
    let bytes = value.as_bytes();
    if bytes.len() < 9 {
        return None;
    }
    let prefix: [u8; 9] = [0x75, 0x72, 0x6e, 0x3a, 0x75, 0x75, 0x69, 0x64, 0x3a];
    proof {
        assert(prefix@ =~= urn_prefix());
    }
    let mut i: usize = 0;
    while i < 9
        invariant
            bytes@ == value.spec_bytes(),
            9 <= bytes@.len(),
            i <= 9,
            prefix@ == urn_prefix(),
            forall|j: int| 0 <= j < i ==> bytes@[j] == prefix@[j],
        decreases 9 - i,
    {
        if bytes[i] != prefix[i] {
            proof {
                assert(bytes@.take(9)[i as int] != urn_prefix()[i as int]);
                assert(bytes@.take(9) != urn_prefix());
            }
            return None;
        }
        i = i + 1;
    }
    proof {
        assert(bytes@.take(9) =~= urn_prefix());
    }
    let mut body: Vec<u8> = Vec::new();
    let mut j: usize = 9;
    proof {
        assert(bytes@.subrange(9, 9) =~= Seq::<u8>::empty());
    }
    while j < bytes.len()
        invariant
            9 <= j <= bytes@.len(),
            body@ == strip_dashes(bytes@.subrange(9, j as int)),
        decreases bytes@.len() - j,
    {
        proof {
            assert(bytes@.subrange(9, j + 1).drop_last() =~= bytes@.subrange(9, j as int));
        }
        if bytes[j] != 0x2d {
            body.push(bytes[j]);
        }
        proof {
            assert(body@ =~= strip_dashes(bytes@.subrange(9, j + 1)));
        }
        j = j + 1;
    }
    proof {
        assert(bytes@.subrange(9, bytes@.len() as int) =~= bytes@.skip(9));
    }
    if body.len() != 32 {
        return None;
    }
    let mut output: [u8; 16] = [0u8, 0, 0, 0, 0, 0, 0, 0, 0, 0, 0, 0, 0, 0, 0, 0];
    let mut k: usize = 0;
    while k < 16
        invariant
            bytes@ == value.spec_bytes(),
            has_urn_prefix(bytes@),
            body@.len() == 32,
            body@ == urn_body(bytes@),
            k <= 16,
            groups_parse(body@, k as int),
            forall|m: int|
                0 <= m < k ==> output@[m] == (#[trigger] chunk_value(
                    body@[2 * m],
                    body@[2 * m + 1],
                )).unwrap(),
        decreases 16 - k,
    {
        match group_value(body[2 * k], body[2 * k + 1]) {
            Some(value) => {
                output[k] = value;
            },
            None => {
                proof {
                    assert(chunk_value(body@[2 * k as int], body@[2 * k + 1]) is None);
                    assert(!groups_parse(body@, 16));
                }
                return None;
            },
        }
        k = k + 1;
    }
    proof {
        let body_view = body@;
        assert(output@ =~= Seq::new(
            16,
            |m: int| chunk_value(body_view[2 * m], body_view[2 * m + 1]).unwrap(),
        ));
    }
    Some(output)
}

/// The hexadecimal digits of the first `n` bytes of a UUID.
pub open spec fn hex_body(b: Seq<u8>, n: nat) -> Seq<u8>
    decreases n,
{
    if n == 0 {
        Seq::empty()
    } else {
        hex_body(b, (n - 1) as nat) + hex_pair(b[n - 1])
    }
}

proof fn lemma_urn_prefix(b: Seq<u8>, n: nat)
    ensures
        urn_bytes_upto(b, n).len() >= 9,
        urn_bytes_upto(b, n).take(9) == urn_prefix(),
    decreases n,
{
    if n == 0 {
        assert(urn_prefix().take(9) =~= urn_prefix());
    } else {
        lemma_urn_prefix(b, (n - 1) as nat);
        let x = urn_bytes_upto(b, (n - 1) as nat);
        let y = (if dash_before(n - 1) {
            seq![0x2du8]
        } else {
            Seq::empty()
        }) + hex_pair(b[n - 1]);
        assert(urn_bytes_upto(b, n) =~= x + y);
        assert((x + y).take(9) =~= x.take(9));
    }
}

proof fn lemma_strip_concat(x: Seq<u8>, y: Seq<u8>)
    ensures
        strip_dashes(x + y) == strip_dashes(x) + strip_dashes(y),
    decreases y.len(),
{
    if y.len() == 0 {
        assert(x + y =~= x);
        assert(strip_dashes(x) + strip_dashes(y) =~= strip_dashes(x));
    } else {
        lemma_strip_concat(x, y.drop_last());
        assert((x + y).drop_last() =~= x + y.drop_last());
        assert((x + y).last() == y.last());
        assert(strip_dashes(x + y) =~= strip_dashes(x) + strip_dashes(y));
    }
}

proof fn lemma_strip_digits(p: u8)
    ensures
        strip_dashes(hex_pair(p)) == hex_pair(p),
        strip_dashes(seq![0x2du8]) == Seq::<u8>::empty(),
{
    let pair = hex_pair(p);
    assert(pair[0] >= 48 && pair[1] >= 48);
    assert(pair.drop_last() =~= seq![pair[0]]);
    assert(seq![pair[0]].drop_last() =~= Seq::<u8>::empty());
    assert(strip_dashes(Seq::<u8>::empty()) =~= Seq::<u8>::empty());
    assert(seq![pair[0]].last() == pair[0]);
    assert(strip_dashes(seq![pair[0]]) =~= strip_dashes(Seq::<u8>::empty()) + seq![pair[0]]);
    assert(strip_dashes(seq![pair[0]]) =~= seq![pair[0]]);
    assert(strip_dashes(pair) =~= pair);
    assert(seq![0x2du8].drop_last() =~= Seq::<u8>::empty());
}

proof fn lemma_urn_body(b: Seq<u8>, n: nat)
    ensures
        strip_dashes(urn_bytes_upto(b, n).skip(9)) == hex_body(b, n),
    decreases n,
{
    lemma_urn_prefix(b, n);
    if n == 0 {
        assert(urn_prefix().skip(9) =~= Seq::<u8>::empty());
    } else {
        lemma_urn_body(b, (n - 1) as nat);
        lemma_urn_prefix(b, (n - 1) as nat);
        let x = urn_bytes_upto(b, (n - 1) as nat);
        let dash = if dash_before(n - 1) {
            seq![0x2du8]
        } else {
            Seq::empty()
        };
        let pair = hex_pair(b[n - 1]);
        assert(urn_bytes_upto(b, n).skip(9) =~= x.skip(9) + dash + pair);
        lemma_strip_concat(x.skip(9) + dash, pair);
        lemma_strip_concat(x.skip(9), dash);
        lemma_strip_digits(b[n - 1]);
        if !dash_before(n - 1) {
            assert(strip_dashes(dash) =~= Seq::<u8>::empty());
        }
        assert(strip_dashes(urn_bytes_upto(b, n).skip(9)) =~= hex_body(b, n));
    }
}

proof fn lemma_hex_body_digits(b: Seq<u8>, n: nat)
    requires
        n <= b.len(),
    ensures
        hex_body(b, n).len() == 2 * n,
        forall|k: int|
            0 <= k < n ==> hex_body(b, n)[2 * k] == hex_digit((b[k] / 16) as int) && hex_body(
                b,
                n,
            )[2 * k + 1] == hex_digit((b[k] % 16) as int),
    decreases n,
{
    if n > 0 {
        lemma_hex_body_digits(b, (n - 1) as nat);
    }
}

proof fn lemma_digit_group(v: u8)
    ensures
        chunk_value(hex_digit((v / 16) as int), hex_digit((v % 16) as int)) == Some(v),
{
}

proof fn lemma_urn_ascii(b: Seq<u8>, n: nat)
    ensures
        forall|i: int| 0 <= i < urn_bytes_upto(b, n).len() ==> urn_bytes_upto(b, n)[i] < 128,
    decreases n,
{
    if n == 0 {
        assert forall|i: int| 0 <= i < urn_prefix().len() implies urn_prefix()[i] < 128 by {
        }
    } else {
        lemma_urn_ascii(b, (n - 1) as nat);
        let x = urn_bytes_upto(b, (n - 1) as nat);
        let dash = if dash_before(n - 1) {
            seq![0x2du8]
        } else {
            Seq::empty()
        };
        let pair = hex_pair(b[n - 1]);
        assert(pair[0] < 128 && pair[1] < 128);
        assert(urn_bytes_upto(b, n) =~= x + dash + pair);
        assert forall|i: int| 0 <= i < urn_bytes_upto(b, n).len() implies urn_bytes_upto(b, n)[i]
            < 128 by {
            if i < x.len() {
                assert(urn_bytes_upto(b, n)[i] == x[i]);
            } else if i < x.len() + dash.len() {
                assert(urn_bytes_upto(b, n)[i] == dash[i - x.len()]);
            } else {
                assert(urn_bytes_upto(b, n)[i] == pair[i - x.len() - dash.len()]);
            }
        }
    }
}

/// The text form of a UUID is ASCII, so its UTF-8 bytes are its characters'
/// codes.
proof fn lemma_urn_text_bytes(b: Seq<u8>)
    ensures
        encode_utf8(urn_text(b)) == urn_bytes_upto(b, 16),
{
    let bytes = urn_bytes_upto(b, 16);
    lemma_urn_ascii(b, 16);
    let text = urn_text(b);
    assert(is_ascii_chars(text)) by {
        assert forall|i: int| 0 <= i < text.len() implies '\0' <= #[trigger] text[i] <= '\u{7f}' by {
            assert(bytes[i] < 128);
        }
    }
    is_ascii_chars_encode_utf8(text);
    assert(encode_utf8(text) =~= bytes);
}

/// Parsing the URN form of a UUID gives the UUID back.
pub proof fn uuid_urn_round_trips(b: Seq<u8>)
    requires
        b.len() == 16,
    ensures
        parse_urn(encode_utf8(urn_text(b))) == Some(b),
        !urn_parse_splits_character(encode_utf8(urn_text(b))),
{
    lemma_urn_text_bytes(b);
    let bytes = urn_bytes_upto(b, 16);
    lemma_urn_prefix(b, 16);
    lemma_urn_body(b, 16);
    lemma_hex_body_digits(b, 16);
    let body = urn_body(bytes);
    assert(body == hex_body(b, 16));
    assert forall|k: int| 0 <= k < 16 implies #[trigger] chunk_value(body[2 * k], body[2 * k + 1])
        == Some(b[k]) by {
        lemma_digit_group(b[k]);
    }
    assert(groups_parse(body, 16));
    assert(Seq::new(16, |k: int| chunk_value(body[2 * k], body[2 * k + 1]).unwrap()) =~= b);
    assert forall|k: int| 0 <= k < 16 implies !vstd::utf8::is_continuation_byte(
        #[trigger] body[2 * k],
    ) && (2 * k + 2 < 32 ==> !vstd::utf8::is_continuation_byte(body[2 * k + 2])) by {
        lemma_digit_group(b[k]);
        if 2 * k + 2 < 32 {
            lemma_digit_group(b[k + 1]);
        }
    }
}

/// One metadata field of a discovery row: a key, raw bytes, and the text
/// they spell when they are text.
#[derive(Clone, Debug, PartialEq, Eq)]
pub struct NativeDiscoveryMetadataField {
    pub key: String,
    pub value: Vec<u8>,
    pub text: Option<String>,
}

/// One discovered entity.
#[derive(Clone, Debug)]
pub struct NativeDiscoveryRow {
    pub entity_id: String,
    pub parent_entity_id: Option<String>,
    pub derivation_kind: Option<String>,
    pub operation_id: u32,
    pub protocol: String,
    pub kind: String,
    pub evidence: String,
    pub outcome: String,
    pub responder: String,
    pub responder_port: u32,
    pub interface_index: Option<u32>,
    pub identity: Vec<u8>,
    pub addresses: Vec<String>,
    pub metadata: Vec<NativeDiscoveryMetadataField>,
    pub truncated: bool,
}

/// The result of one discovery session.
#[derive(Clone, Debug)]
pub struct NativeDiscoveryRun {
    pub schema_version: u32,
    pub registry_version: String,
    pub registry_sha256: String,
    pub state: String,
    pub allow_risks: Vec<String>,
    pub receive_modes: Vec<String>,
    pub rows: Vec<NativeDiscoveryRow>,
    pub progress: NativeDiscoveryProgress,
}

/// A text metadata field.
pub fn field_text(key: &str, value: &str) -> (r: NativeDiscoveryMetadataField)
    ensures
        r.key@ == key@,
        r.value@ == value.spec_bytes(),
        r.text matches Some(text) && text@ == value@,
{
    NativeDiscoveryMetadataField {
        key: owned(key),
        value: bytes_of(value),
        text: Some(owned(value)),
    }
}

/// A `usize` sum, saturating.
pub open spec fn sat_add(a: int, b: int) -> int {
    if a + b > usize::MAX {
        usize::MAX as int
    } else {
        a + b
    }
}

/// The byte length of a field's optional text.
pub open spec fn text_len(text: Option<String>) -> nat {
    match text {
        Some(t) => byte_len(t@),
        None => 0,
    }
}

/// The bytes a metadata field occupies: key, value and text.
pub open spec fn field_len(field: NativeDiscoveryMetadataField) -> int {
    sat_add(sat_add(byte_len(field.key@) as int, field.value@.len() as int), text_len(field.text) as int)
}

/// The total byte length of a sequence of addresses.
pub open spec fn address_bytes(addresses: Seq<String>) -> int
    decreases addresses.len(),
{
    if addresses.len() == 0 {
        0
    } else {
        address_bytes(addresses.drop_last()) + byte_len(addresses.last()@)
    }
}

/// The total byte length of a sequence of fields.
pub open spec fn field_bytes(fields: Seq<NativeDiscoveryMetadataField>) -> int
    decreases fields.len(),
{
    if fields.len() == 0 {
        0
    } else {
        field_bytes(fields.drop_last()) + field_len(fields.last())
    }
}

/// The metadata bytes a row retains: identity, addresses and fields.
pub open spec fn row_bytes(row: NativeDiscoveryRow) -> int {
    sat_add(
        sat_add(row.identity@.len() as int, address_bytes(row.addresses@)),
        field_bytes(row.metadata@),
    )
}

fn saturating(a: usize, b: usize) -> (r: usize)
    ensures
        r == sat_add(a as int, b as int),
{
    a.saturating_add(b)
}

fn metadata_field_len(field: &NativeDiscoveryMetadataField) -> (r: usize)
    ensures
        r == field_len(*field),
{
    let text = match &field.text {
        Some(text) => string_len(text),
        None => 0,
    };
    saturating(saturating(string_len(&field.key), field.value.len()), text)
}

/// The metadata bytes a row retains.
pub fn discovery_row_metadata_bytes(row: &NativeDiscoveryRow) -> (r: usize)
    requires
        address_bytes(row.addresses@) <= usize::MAX,
        field_bytes(row.metadata@) <= usize::MAX,
    ensures
        r == row_bytes(*row),
{
    let mut addresses: usize = 0;
    let mut i: usize = 0;
    proof {
        assert(row.addresses@.take(0) =~= Seq::<String>::empty());
    }
    while i < row.addresses.len()
        invariant
            i <= row.addresses@.len(),
            address_bytes(row.addresses@) <= usize::MAX,
            addresses == address_bytes(row.addresses@.take(i as int)),
        decreases row.addresses@.len() - i,
    {
        proof {
            assert(row.addresses@.take(i + 1).drop_last() =~= row.addresses@.take(i as int));
            lemma_address_prefix(row.addresses@, i + 1);
        }
        addresses = addresses + string_len(&row.addresses[i]);
        i = i + 1;
    }
    proof {
        assert(row.addresses@.take(i as int) =~= row.addresses@);
    }
    let mut fields: usize = 0;
    let mut j: usize = 0;
    proof {
        assert(row.metadata@.take(0) =~= Seq::<NativeDiscoveryMetadataField>::empty());
    }
    while j < row.metadata.len()
        invariant
            j <= row.metadata@.len(),
            field_bytes(row.metadata@) <= usize::MAX,
            fields == field_bytes(row.metadata@.take(j as int)),
        decreases row.metadata@.len() - j,
    {
        proof {
            assert(row.metadata@.take(j + 1).drop_last() =~= row.metadata@.take(j as int));
            lemma_field_prefix(row.metadata@, j + 1);
        }
        fields = fields + metadata_field_len(&row.metadata[j]);
        j = j + 1;
    }
    proof {
        assert(row.metadata@.take(j as int) =~= row.metadata@);
    }
    saturating(saturating(row.identity.len(), addresses), fields)
}

proof fn lemma_address_prefix(addresses: Seq<String>, i: int)
    requires
        0 <= i <= addresses.len(),
    ensures
        address_bytes(addresses.take(i)) <= address_bytes(addresses),
    decreases addresses.len() - i,
{
    if i < addresses.len() {
        assert(addresses.take(i + 1).drop_last() =~= addresses.take(i));
        lemma_address_prefix(addresses, i + 1);
    } else {
        assert(addresses.take(i) =~= addresses);
    }
}

proof fn lemma_field_prefix(fields: Seq<NativeDiscoveryMetadataField>, i: int)
    requires
        0 <= i <= fields.len(),
    ensures
        field_bytes(fields.take(i)) <= field_bytes(fields),
    decreases fields.len() - i,
{
    if i < fields.len() {
        assert(fields.take(i + 1).drop_last() =~= fields.take(i));
        lemma_field_prefix(fields, i + 1);
    } else {
        assert(fields.take(i) =~= fields);
    }
}

/// Whether a row may keep an address: 1 through 128 bytes.
pub open spec fn address_fits(address: String) -> bool {
    1 <= byte_len(address@) <= 128
}

/// The addresses a row keeps, in order.
pub open spec fn kept_addresses(addresses: Seq<String>) -> Seq<String>
    decreases addresses.len(),
{
    if addresses.len() == 0 {
        Seq::empty()
    } else {
        (if address_fits(addresses[0]) {
            seq![addresses[0]]
        } else {
            Seq::empty()
        }) + kept_addresses(addresses.drop_first())
    }
}

/// Whether a field is individually acceptable: a key of 1 through 1024
/// bytes, and value and text of at most 1024 bytes each.
pub open spec fn field_fits(field: NativeDiscoveryMetadataField) -> bool {
    &&& 1 <= byte_len(field.key@) <= 1024
    &&& field.value@.len() <= 1024
    &&& text_len(field.text) <= 1024
}

/// The fields a row keeps after `used` bytes: each acceptable field whose
/// bytes still fit the per-row budget, in order; and whether any was dropped.
pub open spec fn kept_fields(fields: Seq<NativeDiscoveryMetadataField>, used: int) -> (
    Seq<NativeDiscoveryMetadataField>,
    bool,
)
    decreases fields.len(),
{
    if fields.len() == 0 {
        (Seq::empty(), false)
    } else {
        let f = fields[0];
        if !field_fits(f) || used + field_len(f) > MAX_METADATA_BYTES_PER_ROW {
            let (rest, _) = kept_fields(fields.drop_first(), used);
            (rest, true)
        } else {
            let (rest, dropped) = kept_fields(fields.drop_first(), used + field_len(f));
            (seq![f] + rest, dropped)
        }
    }
}

/// The addresses of a row after its bounds: acceptable ones, at most 32.
pub open spec fn bounded_addresses(addresses: Seq<String>) -> Seq<String> {
    let kept = kept_addresses(addresses);
    if kept.len() > 32 {
        kept.take(32)
    } else {
        kept
    }
}

/// The fields of a row after its bounds: at most 128 considered, then the
/// acceptable ones within the per-row byte budget.
pub open spec fn bounded_fields(fields: Seq<NativeDiscoveryMetadataField>) -> Seq<
    NativeDiscoveryMetadataField,
> {
    let considered = if fields.len() > MAX_METADATA_FIELDS_PER_ROW {
        fields.take(MAX_METADATA_FIELDS_PER_ROW as int)
    } else {
        fields
    };
    kept_fields(considered, 0).0
}

/// Whether bounding a row drops anything.
pub open spec fn bounding_drops(row: NativeDiscoveryRow) -> bool {
    ||| kept_addresses(row.addresses@).len() != row.addresses@.len()
    ||| kept_addresses(row.addresses@).len() > 32
    ||| row.metadata@.len() > MAX_METADATA_FIELDS_PER_ROW
    ||| kept_fields(
        if row.metadata@.len() > MAX_METADATA_FIELDS_PER_ROW {
            row.metadata@.take(MAX_METADATA_FIELDS_PER_ROW as int)
        } else {
            row.metadata@
        },
        0,
    ).1
}

fn keep_addresses(addresses: Vec<String>) -> (r: (Vec<String>, bool))
    ensures
        r.0@ == kept_addresses(addresses@),
        r.1 == (kept_addresses(addresses@).len() != addresses@.len()),
{
    let ghost before = addresses@;
    let mut remaining = addresses;
    let mut kept: Vec<String> = Vec::new();
    let mut dropped = false;
    proof {
        assert(before.skip(0) =~= before);
        lemma_kept_addresses_len(before);
    }
    while remaining.len() > 0
        invariant
            kept@ + kept_addresses(remaining@) == kept_addresses(before),
            kept@.len() + remaining@.len() <= before.len(),
            !dropped ==> kept@.len() + remaining@.len() == before.len(),
            dropped ==> kept@.len() + remaining@.len() < before.len(),
            kept_addresses(remaining@).len() <= remaining@.len(),
        decreases remaining@.len(),
    {
        let ghost pending = remaining@;
        let address = remaining.remove(0);
        proof {
            assert(remaining@ =~= pending.drop_first());
            lemma_kept_addresses_len(remaining@);
        }
        let length = string_len(&address);
        if 1 <= length && length <= 128 {
            kept.push(address);
            proof {
                assert(kept@ + kept_addresses(remaining@) =~= kept_addresses(before));
            }
        } else {
            dropped = true;
            proof {
                assert(kept@ + kept_addresses(remaining@) =~= kept_addresses(before));
            }
        }
    }
    proof {
        assert(kept@ =~= kept_addresses(before));
    }
    (kept, dropped)
}

proof fn lemma_kept_addresses_len(addresses: Seq<String>)
    ensures
        kept_addresses(addresses).len() <= addresses.len(),
    decreases addresses.len(),
{
    if addresses.len() > 0 {
        lemma_kept_addresses_len(addresses.drop_first());
    }
}

fn keep_fields(fields: Vec<NativeDiscoveryMetadataField>) -> (r: (
    Vec<NativeDiscoveryMetadataField>,
    bool,
))
    ensures
        r.0@ == kept_fields(fields@, 0).0,
        r.1 == kept_fields(fields@, 0).1,
{
    let ghost before = fields@;
    let mut remaining = fields;
    let mut kept: Vec<NativeDiscoveryMetadataField> = Vec::new();
    let mut dropped = false;
    let mut used: usize = 0;
    while remaining.len() > 0
        invariant
            used <= MAX_METADATA_BYTES_PER_ROW,
            kept@ + kept_fields(remaining@, used as int).0 == kept_fields(before, 0).0,
            (dropped || kept_fields(remaining@, used as int).1) == kept_fields(before, 0).1,
        decreases remaining@.len(),
    {
        let ghost pending = remaining@;
        let field = remaining.remove(0);
        proof {
            assert(remaining@ =~= pending.drop_first());
        }
        let text_length = match &field.text {
            Some(text) => string_len(text),
            None => 0,
        };
        let length = metadata_field_len(&field);
        let key_length = string_len(&field.key);
        if key_length == 0 || key_length > 1024 || field.value.len() > 1024 || text_length > 1024
            || used.saturating_add(length) > MAX_METADATA_BYTES_PER_ROW {
            dropped = true;
            proof {
                assert(kept@ + kept_fields(remaining@, used as int).0 =~= kept_fields(before, 0).0);
            }
        } else {
            used = used + length;
            kept.push(field);
            proof {
                assert(kept@ + kept_fields(remaining@, used as int).0 =~= kept_fields(before, 0).0);
            }
        }
    }
    proof {
        assert(kept@ =~= kept_fields(before, 0).0);
    }
    (kept, dropped)
}

/// Whether `r` is what a row's bounds leave of `row`: a 1 through 1024
/// byte identity (else the row is refused), at most 32 addresses of 1
/// through 128 bytes, at most 128 metadata fields within 16 KiB, and
/// anything dropped marks the row truncated by policy.
pub open spec fn bounds_applied(row: NativeDiscoveryRow, r: Result<NativeDiscoveryRow, ()>) -> bool {
    &&& (row.identity@.len() == 0 || row.identity@.len() > 1024) ==> r is Err
    &&& !(row.identity@.len() == 0 || row.identity@.len() > 1024) ==> (r matches Ok(out) && {
        &&& out.addresses@ == bounded_addresses(row.addresses@)
        &&& out.metadata@ == bounded_fields(row.metadata@)
        &&& out.truncated == (row.truncated || bounding_drops(row))
        &&& bounding_drops(row) ==> out.outcome@ == "truncatedByPolicy"@
        &&& !bounding_drops(row) ==> out.outcome == row.outcome
        &&& out.entity_id == row.entity_id
        &&& out.parent_entity_id == row.parent_entity_id
        &&& out.derivation_kind == row.derivation_kind
        &&& out.operation_id == row.operation_id
        &&& out.protocol == row.protocol
        &&& out.kind == row.kind
        &&& out.evidence == row.evidence
        &&& out.responder == row.responder
        &&& out.responder_port == row.responder_port
        &&& out.interface_index == row.interface_index
        &&& out.identity == row.identity
    })
}

/// Applies a row's bounds.
pub fn bounded_row(row: NativeDiscoveryRow) -> (r: Result<NativeDiscoveryRow, ()>)
    ensures
        bounds_applied(row, r),
{
    if row.identity.len() == 0 || row.identity.len() > 1024 {
        return Err(());
    }
    let ghost before = row;
    let NativeDiscoveryRow {
        entity_id,
        parent_entity_id,
        derivation_kind,
        operation_id,
        protocol,
        kind,
        evidence,
        outcome,
        responder,
        responder_port,
        interface_index,
        identity,
        addresses,
        metadata,
        truncated,
    } = row;
    let (mut addresses, mut dropped) = keep_addresses(addresses);
    if addresses.len() > 32 {
        addresses.truncate(32);
        dropped = true;
    }
    let mut metadata = metadata;
    if metadata.len() > MAX_METADATA_FIELDS_PER_ROW {
        metadata.truncate(MAX_METADATA_FIELDS_PER_ROW);
        dropped = true;
    }
    let (metadata, fields_dropped) = keep_fields(metadata);
    let dropped = dropped || fields_dropped;
    let outcome = if dropped {
        owned("truncatedByPolicy")
    } else {
        outcome
    };
    proof {
        assert(addresses@ =~= bounded_addresses(before.addresses@));
    }
    Ok(
        NativeDiscoveryRow {
            entity_id,
            parent_entity_id,
            derivation_kind,
            operation_id,
            protocol,
            kind,
            evidence,
            outcome,
            responder,
            responder_port,
            interface_index,
            identity,
            addresses,
            metadata,
            truncated: truncated || dropped,
        },
    )
}

/// The failure a session admission check reports, if any: at most 256
/// sockets, and at most 1024 physical queries counting follow-ups and up to
/// 255 adaptive mDNS queries per mDNS product.
pub open spec fn query_admission_failure(products: usize, derived: usize, mdns_products: usize) -> Option<
    ScannerErrorView,
> {
    if products > MAX_NATIVE_DISCOVERY_SOCKETS {
        Some(
            scan_failure(
                ScanFailure::Resource,
                "start discovery"@,
                "one discovery session may own at most 256 UDP sockets"@,
            ),
        )
    } else if mdns_products * 255 > usize::MAX {
        Some(scan_failure(ScanFailure::Resource, "start discovery"@, "adaptive query count overflow"@))
    } else if products + derived > usize::MAX || products + derived + mdns_products * 255
        > usize::MAX {
        Some(scan_failure(ScanFailure::Resource, "start discovery"@, "physical query count overflow"@))
    } else if products + derived + mdns_products * 255 > MAX_NATIVE_DISCOVERY_QUERIES {
        Some(
            scan_failure(
                ScanFailure::Resource,
                "start discovery"@,
                "one native discovery session may contain at most 1024 physical queries"@,
            ),
        )
    } else {
        None
    }
}

/// Admits a discovery session's queries before anything is sent, returning
/// the initial query count.
pub fn admit_discovery_queries(products: usize, derived: usize, mdns_products: usize) -> (r: Result<
    u64,
    ScannerError,
>)
    ensures
        match query_admission_failure(products, derived, mdns_products) {
            Some(e) => scan_fails_with(r, e),
            None => r == Ok::<u64, ScannerError>(products as u64),
        },
{
    if products > MAX_NATIVE_DISCOVERY_SOCKETS {
        return Err(
            ScannerError::resource(
                "start discovery",
                "one discovery session may own at most 256 UDP sockets",
            ),
        );
    }
    let adaptive = match mdns_products.checked_mul(MAX_MDNS_QUERIES_PER_SCOPE_MEMBER - 1) {
        Some(value) => value,
        None => {
            return Err(ScannerError::resource("start discovery", "adaptive query count overflow"));
        },
    };
    let possible = match products.checked_add(derived) {
        Some(value) => match value.checked_add(adaptive) {
            Some(total) => total,
            None => {
                return Err(
                    ScannerError::resource("start discovery", "physical query count overflow"),
                );
            },
        },
        None => {
            return Err(ScannerError::resource("start discovery", "physical query count overflow"));
        },
    };
    if possible > MAX_NATIVE_DISCOVERY_QUERIES {
        return Err(
            ScannerError::resource(
                "start discovery",
                "one native discovery session may contain at most 1024 physical queries",
            ),
        );
    }
    Ok(products as u64)
}

/// Whether a session has received more than its datagram or byte budget.
pub fn receive_budget_exhausted(received: u64, received_bytes: u64) -> (r: bool)
    ensures
        r == (received > MAX_RECEIVED_DATAGRAMS || received_bytes > MAX_RECEIVED_BYTES),
{
    received > MAX_RECEIVED_DATAGRAMS as u64 || received_bytes > MAX_RECEIVED_BYTES as u64
}

/// A per-query limit as a `usize`, `usize::MAX` when it does not fit.
pub open spec fn limit_usize(limit: u64) -> int {
    if limit > usize::MAX {
        usize::MAX as int
    } else {
        limit as int
    }
}

/// Whether a new entity's metadata fits both the query's and the session's
/// remaining budgets.
pub open spec fn new_row_fits(
    query_retained: usize,
    row_bytes: usize,
    query_limit: u64,
    session_retained: usize,
    session_limit: usize,
) -> bool {
    &&& query_retained + row_bytes <= usize::MAX
    &&& query_retained + row_bytes <= limit_usize(query_limit)
    &&& session_retained + row_bytes <= usize::MAX
    &&& session_retained + row_bytes <= session_limit
}

/// Decides whether a new entity's metadata may be retained.
pub fn admit_new_row(
    query_retained: usize,
    row_bytes: usize,
    query_limit: u64,
    session_retained: usize,
    session_limit: usize,
) -> (r: bool)
    ensures
        r == new_row_fits(query_retained, row_bytes, query_limit, session_retained, session_limit),
{
    let limit: usize = if query_limit > usize::MAX as u64 {
        usize::MAX
    } else {
        query_limit as usize
    };
    match query_retained.checked_add(row_bytes) {
        Some(total) => {
            if total > limit {
                return false;
            }
        },
        None => {
            return false;
        },
    }
    match session_retained.checked_add(row_bytes) {
        Some(total) => total <= session_limit,
        None => false,
    }
}

/// One address a network interface holds, as the kernel reports it.
#[derive(Clone, Copy, Debug)]
pub struct InterfaceAddressEntry {
    /// The address family (`AF_INET` is 2).
    pub family: u8,
    pub interface_index: u32,
    /// The local address, where the kernel distinguishes it.
    pub local: Option<IpAddress>,
    pub address: Option<IpAddress>,
    pub prefix_length: u8,
}

/// An IPv4 address as a big-endian number.
pub open spec fn ipv4_number(a: [u8; 4]) -> u32 {
    ((a[0] as u32) << 24u32) | ((a[1] as u32) << 16u32) | ((a[2] as u32) << 8u32) | (a[3] as u32)
}

/// The network mask of a prefix length, at most 32 bits long.
pub open spec fn prefix_mask(prefix_length: u8) -> u32 {
    let p: u8 = if prefix_length < 32 {
        prefix_length
    } else {
        32
    };
    if p == 0 {
        0
    } else {
        u32::MAX << ((32 - p) as u32)
    }
}

/// Whether an interface address puts an IPv4 target on its link: an IPv4
/// entry on the given interface (any, where none is given) whose local
/// address (else its address) shares the target's network prefix.
pub open spec fn entry_covers(entry: InterfaceAddressEntry, target: [u8; 4], interface_index: Option<u32>) -> bool {
    let own = if entry.local is Some {
        entry.local
    } else {
        entry.address
    };
    &&& entry.family == 2
    &&& !(interface_index matches Some(i) && i != entry.interface_index)
    &&& own matches Some(IpAddress::V4(local)) && (ipv4_number(local) & prefix_mask(
        entry.prefix_length,
    )) == (ipv4_number(target) & prefix_mask(entry.prefix_length))
}

/// Whether an IPv4 target is on a link one of the interface addresses
/// belongs to.
pub open spec fn on_same_link(
    target: IpAddress,
    interface_index: Option<u32>,
    entries: Seq<InterfaceAddressEntry>,
) -> bool {
    target matches IpAddress::V4(t) && exists|i: int|
        0 <= i < entries.len() && entry_covers(#[trigger] entries[i], t, interface_index)
}

fn ipv4_value(a: [u8; 4]) -> (r: u32)
    ensures
        r == ipv4_number(a),
{
    ((a[0] as u32) << 24u32) | ((a[1] as u32) << 16u32) | ((a[2] as u32) << 8u32) | (a[3] as u32)
}

fn mask_of(prefix_length: u8) -> (r: u32)
    ensures
        r == prefix_mask(prefix_length),
{
    let p: u8 = if prefix_length < 32 {
        prefix_length
    } else {
        32
    };
    if p == 0 {
        0
    } else {
        u32::MAX << ((32 - p) as u32)
    }
}

/// Whether an IPv4 target shares a network prefix with an address of the
/// given interface (or of any interface).
pub fn same_link_ipv4_target(
    target: IpAddress,
    interface_index: Option<u32>,
    entries: &[InterfaceAddressEntry],
) -> (r: bool)
    ensures
        r == on_same_link(target, interface_index, entries@),
{
    let t = match target {
        IpAddress::V4(t) => t,
        IpAddress::V6(_) => {
            return false;
        },
    };
    let target_number = ipv4_value(t);
    let mut i: usize = 0;
    while i < entries.len()
        invariant
            i <= entries@.len(),
            target == IpAddress::V4(t),
            target_number == ipv4_number(t),
            forall|j: int| 0 <= j < i ==> !entry_covers(#[trigger] entries@[j], t, interface_index),
        decreases entries@.len() - i,
    {
        let entry = entries[i];
        let other_interface = match interface_index {
            Some(index) => index != entry.interface_index,
            None => false,
        };
        if entry.family == 2 && !other_interface {
            let own = if entry.local.is_some() {
                entry.local
            } else {
                entry.address
            };
            match own {
                Some(IpAddress::V4(local)) => {
                    let mask = mask_of(entry.prefix_length);
                    if ipv4_value(local) & mask == target_number & mask {
                        return true;
                    }
                },
                _ => {},
            }
        }
        i = i + 1;
    }
    false
}

} // verus!

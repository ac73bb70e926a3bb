//! Scan and discovery plan inputs, and the checks that admit them: ports and
//! port ranges, VLAN overrides, address-family selections, UDP risk
//! consents and protocol policies, and decimal seeds.
use vstd::prelude::*;

use crate::scan_error::{
    invalid_plan, scan_failure, scan_fails_with, ScanFailure, ScannerError, ScannerErrorView,
};
use crate::text::{owned, str_eq};

verus! {

broadcast use vstd::string::group_string_axioms;

pub const MAX_BATCH_RESULTS: u32 = 4096;

pub const DEFAULT_BATCH_RESULTS: u32 = 512;

pub const DEFAULT_SOURCE_PORT_START: u16 = 49152;

pub const DEFAULT_SOURCE_PORT_END: u16 = 65535;

/// The largest UDP payload that fits an IPv4 packet with every header.
pub const MAX_UDP_USER_PAYLOAD_BYTES: usize = 65491;

/// The session budget for UDP payload templates.
pub const MAX_TEMPLATE_PAYLOAD_BYTES: usize = 1048576;

/// One target: a CIDR, or an inclusive start/end range.
#[derive(Clone)]
pub struct NativeScanTarget {
    pub cidr: Option<String>,
    pub start: Option<String>,
    pub end: Option<String>,
}

/// An inclusive port range.
#[derive(Clone, Copy)]
pub struct NativePortSelection {
    pub start: u32,
    pub end: u32,
}

/// One probe definition of a scan plan.
#[derive(Clone)]
pub struct NativeScanProbe {
    pub kind: String,
    pub family: Option<String>,
    pub ports: Option<Vec<NativePortSelection>>,
    pub payload: Option<Vec<u8>>,
    pub udp_mode: Option<String>,
    pub udp_profile: Option<String>,
    pub udp_intensity: Option<u32>,
    pub udp_strategy: Option<String>,
    pub udp_empty_fallback: Option<String>,
    pub udp_allow_risks: Option<Vec<String>>,
    pub udp_correlation: Option<String>,
}

/// Rate options of a scan plan.
#[derive(Clone, Copy)]
pub struct NativeRateOptions {
    pub packets_per_second: Option<u32>,
    pub burst: Option<u32>,
    pub max_outstanding: Option<u32>,
}

/// Timing options of a scan plan.
#[derive(Clone, Copy)]
pub struct NativeTimingOptions {
    pub timeout_ms: Option<u32>,
    pub minimum_timeout_ms: Option<u32>,
    pub maximum_timeout_ms: Option<u32>,
    pub retries: Option<u32>,
    pub fixed: Option<bool>,
}

/// A VLAN tag override of a scan plan.
#[derive(Clone, Copy)]
pub struct NativeVlanOptions {
    pub identifier: u32,
    pub priority: Option<u32>,
    pub drop_eligible: Option<bool>,
}

/// A requested active scan.
#[derive(Clone)]
pub struct NativeScanPlan {
    pub targets: Vec<NativeScanTarget>,
    pub exclude: Option<Vec<NativeScanTarget>>,
    pub probes: Vec<NativeScanProbe>,
    pub deadline_ms: u32,
    pub rate: Option<NativeRateOptions>,
    pub timing: Option<NativeTimingOptions>,
    pub seed: Option<String>,
    pub source_address: Option<String>,
    pub interface: Option<String>,
    pub vlan: Option<NativeVlanOptions>,
    pub source_port_start: Option<u32>,
    pub source_port_end: Option<u32>,
}

/// One selected discovery operation.
#[derive(Clone)]
pub struct NativeDiscoveryOperation {
    pub id: u32,
    pub query: Option<String>,
    pub follow_up: Option<bool>,
    pub receive_mode: Option<String>,
}

/// The scope of a discovery: links or targets.
#[derive(Clone)]
pub struct NativeDiscoveryScope {
    pub kind: String,
    pub interfaces: Option<Vec<String>>,
    pub all_eligible: Option<bool>,
    pub families: Vec<String>,
    pub targets: Option<Vec<NativeScanTarget>>,
    pub exclude: Option<Vec<NativeScanTarget>>,
    pub kernel_default_ipv4_gateway: Option<bool>,
}

/// Result limits of a discovery.
#[derive(Clone, Copy)]
pub struct NativeDiscoveryLimits {
    pub max_results: Option<u32>,
    pub max_metadata_bytes: Option<u32>,
}

/// Rate options of a discovery.
#[derive(Clone, Copy)]
pub struct NativeDiscoveryRate {
    pub packets_per_second: Option<u32>,
    pub burst: Option<u32>,
}

/// A requested discovery.
#[derive(Clone)]
pub struct NativeDiscoveryPlan {
    pub scope: NativeDiscoveryScope,
    pub operations: Vec<NativeDiscoveryOperation>,
    pub deadline_ms: u32,
    pub limits: Option<NativeDiscoveryLimits>,
    pub rate: Option<NativeDiscoveryRate>,
    pub allow_risks: Option<Vec<String>>,
}

/// The message a bad port field gets.
pub open spec fn port_message(field: Seq<char>) -> Seq<char> {
    field + " must be from 1 through 65535"@
}

/// Checks that a port field is from 1 through 65535.
pub fn checked_port(value: u32, field: &str) -> (r: Result<u16, ScannerError>)
    ensures
        1 <= value <= 65535 ==> r == Ok::<u16, ScannerError>(value as u16),
        !(1 <= value <= 65535) ==> scan_fails_with(
            r,
            invalid_plan("validate port"@, port_message(field@)),
        ),
{
    if value == 0 || value > 65535 {
        let message = String::from_str(field);
        let message = message.concat(" must be from 1 through 65535");
        return Err(ScannerError::invalid("validate port", message.as_str()));
    }
    Ok(value as u16)
}

/// A validated VLAN tag.
#[derive(Clone, Copy, Debug, PartialEq, Eq, Structural)]
pub struct VlanOverride {
    pub identifier: u16,
    pub priority: u8,
    pub drop_eligible: bool,
}

/// Checks a VLAN override: identifier 1 through 4094, priority 0 through 7
/// (default 0), drop eligibility default off.
pub fn validate_vlan(value: &NativeVlanOptions) -> (r: Result<VlanOverride, ScannerError>)
    ensures
        (value.identifier == 0 || value.identifier > 4094) ==> scan_fails_with(
            r,
            invalid_plan("validate VLAN"@, "VLAN identifier must be from 1 through 4094"@),
        ),
        1 <= value.identifier <= 4094 && (value.priority matches Some(p) && p > 7)
            ==> scan_fails_with(
            r,
            invalid_plan("validate VLAN"@, "VLAN priority must be from 0 through 7"@),
        ),
        1 <= value.identifier <= 4094 && !(value.priority matches Some(p) && p > 7) ==> r
            == Ok::<VlanOverride, ScannerError>(
            VlanOverride {
                identifier: value.identifier as u16,
                priority: match value.priority {
                    Some(p) => p as u8,
                    None => 0,
                },
                drop_eligible: match value.drop_eligible {
                    Some(d) => d,
                    None => false,
                },
            },
        ),
{
    if value.identifier == 0 || value.identifier > 4094 {
        return Err(ScannerError::invalid("validate VLAN", "VLAN identifier must be from 1 through 4094"));
    }
    let priority = match value.priority {
        Some(p) => p,
        None => 0,
    };
    if priority > 7 {
        return Err(ScannerError::invalid("validate VLAN", "VLAN priority must be from 0 through 7"));
    }
    Ok(
        VlanOverride {
            identifier: value.identifier as u16,
            priority: priority as u8,
            drop_eligible: match value.drop_eligible {
                Some(d) => d,
                None => false,
            },
        },
    )
}

/// The address families a canonical family list selects: `ipv4`, `ipv6`,
/// or `ipv4` then `ipv6`.
pub open spec fn family_selection(values: Seq<String>) -> Option<(bool, bool)> {
    if values.len() == 1 && values[0]@ == "ipv4"@ {
        Some((true, false))
    } else if values.len() == 1 && values[0]@ == "ipv6"@ {
        Some((false, true))
    } else if values.len() == 2 && values[0]@ == "ipv4"@ && values[1]@ == "ipv6"@ {
        Some((true, true))
    } else {
        None
    }
}

/// Parses a discovery scope's address families.
pub fn parse_discovery_families(values: &[String]) -> (r: Result<(bool, bool), ScannerError>)
    ensures
        match family_selection(values@) {
            Some(selection) => r == Ok::<(bool, bool), ScannerError>(selection),
            None => scan_fails_with(
                r,
                invalid_plan(
                    "validate discovery scope"@,
                    "families must be canonical ipv4, ipv6, or ipv4 then ipv6"@,
                ),
            ),
        },
{
    if values.len() == 1 && str_eq(values[0].as_str(), "ipv4") {
        return Ok((true, false));
    }
    if values.len() == 1 && str_eq(values[0].as_str(), "ipv6") {
        return Ok((false, true));
    }
    if values.len() == 2 && str_eq(values[0].as_str(), "ipv4") && str_eq(values[1].as_str(), "ipv6") {
        return Ok((true, true));
    }
    Err(
        ScannerError::invalid(
            "validate discovery scope",
            "families must be canonical ipv4, ipv6, or ipv4 then ipv6",
        ),
    )
}

/// The canonical position of a UDP risk consent, if it is one.
pub open spec fn risk_index(text: Seq<char>) -> Option<nat> {
    if text == "highAmplification"@ {
        Some(0)
    } else if text == "statefulHandshake"@ {
        Some(1)
    } else if text == "fixedSourcePort"@ {
        Some(2)
    } else if text == "multicastOrBroadcast"@ {
        Some(3)
    } else if text == "authenticationAttempt"@ {
        Some(4)
    } else if text == "sensitiveRead"@ {
        Some(5)
    } else {
        None
    }
}

/// The bit of a risk position.
pub open spec fn risk_bit(index: nat) -> nat
    decreases index,
{
    if index == 0 {
        1
    } else {
        2 * risk_bit((index - 1) as nat)
    }
}

/// The consent bits of a list of risk names read in order, each position
/// strictly after `prior`; the first unknown or out-of-order name fails.
pub open spec fn risk_bits_from(names: Seq<String>, prior: int, bits: nat) -> Result<
    nat,
    ScannerErrorView,
>
    decreases names.len(),
{
    if names.len() == 0 {
        Ok(bits)
    } else {
        match risk_index(names[0]@) {
            None => Err(invalid_plan("validate UDP policy"@, "UDP risk consent is unsupported"@)),
            Some(k) => if k <= prior {
                Err(
                    invalid_plan(
                        "validate UDP policy"@,
                        "UDP risk consent must be unique and canonical"@,
                    ),
                )
            } else {
                risk_bits_from(names.drop_first(), k as int, bits + risk_bit(k))
            },
        }
    }
}

fn risk_position(name: &str) -> (r: Option<u8>)
    ensures
        match risk_index(name@) {
            Some(k) => r == Some(k as u8),
            None => r is None,
        },
{
    if str_eq(name, "highAmplification") {
        Some(0)
    } else if str_eq(name, "statefulHandshake") {
        Some(1)
    } else if str_eq(name, "fixedSourcePort") {
        Some(2)
    } else if str_eq(name, "multicastOrBroadcast") {
        Some(3)
    } else if str_eq(name, "authenticationAttempt") {
        Some(4)
    } else if str_eq(name, "sensitiveRead") {
        Some(5)
    } else {
        None
    }
}

fn position_bit(k: u8) -> (r: u8)
    requires
        k <= 5,
    ensures
        r == risk_bit(k as nat),
{
    proof {
        reveal_with_fuel(risk_bit, 6);
    }
    if k == 0 {
        1
    } else if k == 1 {
        2
    } else if k == 2 {
        4
    } else if k == 3 {
        8
    } else if k == 4 {
        16
    } else {
        32
    }
}

proof fn lemma_risk_bit_bound(k: nat)
    ensures
        risk_bit(k) >= 1,
        risk_bit(k + 1) == 2 * risk_bit(k),
    decreases k,
{
    if k > 0 {
        lemma_risk_bit_bound((k - 1) as nat);
    }
}

/// Parses UDP risk consents: known names, each at most once, in canonical
/// order. Returns the consent bits.
pub fn parse_risk_set(risks: &[String]) -> (r: Result<u8, ScannerError>)
    ensures
        match risk_bits_from(risks@, -1, 0) {
            Ok(bits) => bits < 64 && r == Ok::<u8, ScannerError>(bits as u8),
            Err(e) => scan_fails_with(r, e),
        },
{
    let mut bits: u8 = 0;
    let mut prior: i32 = -1;
    let mut i: usize = 0;
    proof {
        assert(risks@.skip(0) =~= risks@);
    }
    while i < risks.len()
        invariant
            i <= risks@.len(),
            -1 <= prior <= 5,
            bits < risk_bit((prior + 1) as nat),
            risk_bits_from(risks@, -1, 0) == risk_bits_from(risks@.skip(i as int), prior as int, bits as nat),
        decreases risks@.len() - i,
    {
        proof {
            assert(risks@.skip(i as int)[0] == risks@[i as int]);
            assert(risks@.skip(i as int).drop_first() =~= risks@.skip(i + 1));
            reveal_with_fuel(risk_bit, 7);
        }
        let k = match risk_position(risks[i].as_str()) {
            Some(k) => k,
            None => {
                return Err(ScannerError::invalid("validate UDP policy", "UDP risk consent is unsupported"));
            },
        };
        if (k as i32) <= prior {
            return Err(
                ScannerError::invalid(
                    "validate UDP policy",
                    "UDP risk consent must be unique and canonical",
                ),
            );
        }
        proof {
            lemma_risk_bit_bound(k as nat);
            assert(risk_bit((prior + 1) as nat) <= risk_bit(k as nat)) by {
                lemma_risk_bit_monotone((prior + 1) as nat, k as nat);
            }
        }
        bits = bits + position_bit(k);
        prior = k as i32;
        i = i + 1;
    }
    proof {
        assert(risks@.skip(i as int).len() == 0);
        reveal_with_fuel(risk_bit, 7);
        lemma_risk_bit_monotone((prior + 1) as nat, 6);
    }
    Ok(bits)
}

proof fn lemma_risk_bit_monotone(a: nat, b: nat)
    requires
        a <= b,
    ensures
        risk_bit(a) <= risk_bit(b),
    decreases b - a,
{
    if a < b {
        lemma_risk_bit_monotone(a, (b - 1) as nat);
        lemma_risk_bit_bound((b - 1) as nat);
    }
}

/// Where no rate is given: a hundred packets per second, up to 4096
/// outstanding probes, and a burst of the outstanding limit capped at 32.
pub const DEFAULT_PACKETS_PER_SECOND: u32 = 100;

pub const DEFAULT_MAX_OUTSTANDING: u32 = 4096;

pub const DEFAULT_TIMEOUT_MS: u32 = 1000;

pub const DEFAULT_RETRIES: u32 = 1;

/// The scheduler settings a scan plan's deadline, rate and timing give.
#[derive(Clone, Copy, Debug, PartialEq, Eq, Structural)]
pub struct SchedulerSettings {
    pub rate_per_second: u32,
    pub burst: u32,
    pub max_outstanding: usize,
    pub max_retransmissions: u8,
    pub initial_timeout_ms: u32,
    pub minimum_timeout_ms: u32,
    pub maximum_timeout_ms: u32,
    pub session_deadline_ms: u32,
    pub max_per_target: usize,
    pub max_per_prefix: usize,
    pub fixed_rate: bool,
}

/// `value` if present, else `default`.
pub open spec fn or_default(value: Option<u32>, default: u32) -> u32 {
    match value {
        Some(v) => v,
        None => default,
    }
}

/// `value` clamped into `low` through `high`.
pub open spec fn clamped(value: int, low: int, high: int) -> int {
    if value < low {
        low
    } else if value > high {
        high
    } else {
        value
    }
}

/// The scheduler settings of a plan, with every default filled in: the
/// minimum timeout defaults to the smaller of the initial timeout and 100 ms,
/// the maximum to the larger of the initial timeout and 10 s; per-target and
/// per-prefix limits follow the outstanding limit within 1..64 and 1..1024.
pub open spec fn scheduler_settings_of(
    deadline_ms: u32,
    rate: NativeRateOptions,
    timing: NativeTimingOptions,
) -> SchedulerSettings {
    let max_outstanding = or_default(rate.max_outstanding, DEFAULT_MAX_OUTSTANDING);
    let initial = or_default(timing.timeout_ms, DEFAULT_TIMEOUT_MS);
    SchedulerSettings {
        rate_per_second: or_default(rate.packets_per_second, DEFAULT_PACKETS_PER_SECOND),
        burst: or_default(
            rate.burst,
            if max_outstanding < 32 {
                max_outstanding
            } else {
                32
            },
        ),
        max_outstanding: max_outstanding as usize,
        max_retransmissions: or_default(timing.retries, DEFAULT_RETRIES) as u8,
        initial_timeout_ms: initial,
        minimum_timeout_ms: or_default(
            timing.minimum_timeout_ms,
            if initial < 100 {
                initial
            } else {
                100
            },
        ),
        maximum_timeout_ms: or_default(
            timing.maximum_timeout_ms,
            if initial > 10000 {
                initial
            } else {
                10000
            },
        ),
        session_deadline_ms: deadline_ms,
        max_per_target: clamped(max_outstanding as int, 1, 64) as usize,
        max_per_prefix: clamped(max_outstanding as int, 1, 1024) as usize,
        fixed_rate: match timing.fixed {
            Some(f) => f,
            None => false,
        },
    }
}

/// The rate options of a plan, none set where absent.
pub open spec fn rate_or_default(rate: Option<NativeRateOptions>) -> NativeRateOptions {
    match rate {
        Some(r) => r,
        None => NativeRateOptions { packets_per_second: None, burst: None, max_outstanding: None },
    }
}

/// The timing options of a plan, none set where absent.
pub open spec fn timing_or_default(timing: Option<NativeTimingOptions>) -> NativeTimingOptions {
    match timing {
        Some(t) => t,
        None => NativeTimingOptions {
            timeout_ms: None,
            minimum_timeout_ms: None,
            maximum_timeout_ms: None,
            retries: None,
            fixed: None,
        },
    }
}

fn value_or(value: Option<u32>, default: u32) -> (r: u32)
    ensures
        r == or_default(value, default),
{
    match value {
        Some(v) => v,
        None => default,
    }
}

fn widen(value: u32) -> (r: usize)
    ensures
        r == value,
{
    value as usize
}

/// Fills in a scan plan's scheduler settings. A zero deadline and more
/// retries than a byte holds are refused; the engine's own check of the
/// finished configuration is not part of this function.
pub fn scheduler_settings(
    deadline_ms: u32,
    rate: Option<NativeRateOptions>,
    timing: Option<NativeTimingOptions>,
) -> (r: Result<SchedulerSettings, ScannerError>)
    ensures
        deadline_ms == 0 ==> scan_fails_with(
            r,
            invalid_plan("validate scan plan"@, "deadlineMs must be greater than zero"@),
        ),
        deadline_ms > 0 && or_default(timing_or_default(timing).retries, DEFAULT_RETRIES) > 255
            ==> scan_fails_with(
            r,
            invalid_plan("validate timing"@, "retries must not exceed 10"@),
        ),
        deadline_ms > 0 && or_default(timing_or_default(timing).retries, DEFAULT_RETRIES) <= 255
            ==> r == Ok::<SchedulerSettings, ScannerError>(
            scheduler_settings_of(deadline_ms, rate_or_default(rate), timing_or_default(timing)),
        ),
{
    if deadline_ms == 0 {
        return Err(ScannerError::invalid("validate scan plan", "deadlineMs must be greater than zero"));
    }
    let rate = match rate {
        Some(r) => r,
        None => NativeRateOptions { packets_per_second: None, burst: None, max_outstanding: None },
    };
    let timing = match timing {
        Some(t) => t,
        None => NativeTimingOptions {
            timeout_ms: None,
            minimum_timeout_ms: None,
            maximum_timeout_ms: None,
            retries: None,
            fixed: None,
        },
    };
    let retries = value_or(timing.retries, DEFAULT_RETRIES);
    if retries > 255 {
        return Err(ScannerError::invalid("validate timing", "retries must not exceed 10"));
    }
    let max_outstanding = value_or(rate.max_outstanding, DEFAULT_MAX_OUTSTANDING);
    let initial = value_or(timing.timeout_ms, DEFAULT_TIMEOUT_MS);
    let minimum = value_or(
        timing.minimum_timeout_ms,
        if initial < 100 {
            initial
        } else {
            100
        },
    );
    let maximum = value_or(
        timing.maximum_timeout_ms,
        if initial > 10000 {
            initial
        } else {
            10000
        },
    );
    let burst = value_or(
        rate.burst,
        if max_outstanding < 32 {
            max_outstanding
        } else {
            32
        },
    );
    let per_target: u32 = if max_outstanding < 1 {
        1
    } else if max_outstanding > 64 {
        64
    } else {
        max_outstanding
    };
    let per_prefix: u32 = if max_outstanding < 1 {
        1
    } else if max_outstanding > 1024 {
        1024
    } else {
        max_outstanding
    };
    Ok(
        SchedulerSettings {
            rate_per_second: value_or(rate.packets_per_second, DEFAULT_PACKETS_PER_SECOND),
            burst,
            max_outstanding: widen(max_outstanding),
            max_retransmissions: retries as u8,
            initial_timeout_ms: initial,
            minimum_timeout_ms: minimum,
            maximum_timeout_ms: maximum,
            session_deadline_ms: deadline_ms,
            max_per_target: widen(per_target),
            max_per_prefix: widen(per_prefix),
            fixed_rate: match timing.fixed {
                Some(f) => f,
                None => false,
            },
        },
    )
}

/// Whether a selected stateful UDP probe would outlive its state: a nonzero
/// state lifetime below the maximum timeout.
pub open spec fn outlives_state(lifetimes: Seq<u32>, maximum_timeout_ms: u32) -> bool {
    exists|i: int| 0 <= i < lifetimes.len() && lifetimes[i] != 0 && maximum_timeout_ms > lifetimes[i]
}

/// Checks the maximum timeout against the state lifetimes of the selected
/// UDP requests (zero for a stateless request).
pub fn check_state_lifetimes(lifetimes: &[u32], maximum_timeout_ms: u32) -> (r: Result<
    (),
    ScannerError,
>)
    ensures
        outlives_state(lifetimes@, maximum_timeout_ms) ==> scan_fails_with(
            r,
            invalid_plan(
                "validate UDP timing"@,
                "maximumTimeoutMs exceeds a selected stateful UDP probe lifetime"@,
            ),
        ),
        !outlives_state(lifetimes@, maximum_timeout_ms) ==> r is Ok,
{
    let mut i: usize = 0;
    while i < lifetimes.len()
        invariant
            i <= lifetimes@.len(),
            forall|j: int|
                0 <= j < i ==> !(lifetimes@[j] != 0 && maximum_timeout_ms > lifetimes@[j]),
        decreases lifetimes@.len() - i,
    {
        if lifetimes[i] != 0 && maximum_timeout_ms > lifetimes[i] {
            return Err(
                ScannerError::invalid(
                    "validate UDP timing",
                    "maximumTimeoutMs exceeds a selected stateful UDP probe lifetime",
                ),
            );
        }
        i = i + 1;
    }
    Ok(())
}

/// The source ports a plan asks for, 49152 through 65535 by default.
pub open spec fn source_port_failure(start: u32, end: u32, max_outstanding: usize) -> Option<
    ScannerErrorView,
> {
    if !(1 <= start <= 65535) {
        Some(invalid_plan("validate port"@, port_message("sourcePortRange.start"@)))
    } else if !(1 <= end <= 65535) {
        Some(invalid_plan("validate port"@, port_message("sourcePortRange.end"@)))
    } else if start > end {
        Some(invalid_plan("validate source port range"@, "source port range is reversed"@))
    } else if max_outstanding > (end - start + 1) / 4 {
        Some(
            invalid_plan(
                "validate source port range"@,
                "source port range provides fewer collision-free ports than maxOutstanding across four sessions"@,
            ),
        )
    } else {
        None
    }
}

/// Checks a plan's source port range: both ends are ports, the range is not
/// reversed, and a quarter of it (one share for each of four concurrent
/// sessions) holds `max_outstanding` ports.
pub fn admit_source_ports(start: Option<u32>, end: Option<u32>, max_outstanding: usize) -> (r:
    Result<(u16, u16), ScannerError>)
    ensures
        match source_port_failure(
            or_default(start, DEFAULT_SOURCE_PORT_START as u32),
            or_default(end, DEFAULT_SOURCE_PORT_END as u32),
            max_outstanding,
        ) {
            Some(e) => scan_fails_with(r, e),
            None => r == Ok::<(u16, u16), ScannerError>(
                (
                    or_default(start, DEFAULT_SOURCE_PORT_START as u32) as u16,
                    or_default(end, DEFAULT_SOURCE_PORT_END as u32) as u16,
                ),
            ),
        },
{
    let first = match checked_port(value_or(start, 49152), "sourcePortRange.start") {
        Ok(p) => p,
        Err(e) => {
            return Err(e);
        },
    };
    let last = match checked_port(value_or(end, 65535), "sourcePortRange.end") {
        Ok(p) => p,
        Err(e) => {
            return Err(e);
        },
    };
    if first > last {
        return Err(ScannerError::invalid("validate source port range", "source port range is reversed"));
    }
    let span: usize = (last - first) as usize + 1;
    if max_outstanding > span / 4 {
        return Err(
            ScannerError::invalid(
                "validate source port range",
                "source port range provides fewer collision-free ports than maxOutstanding across four sessions",
            ),
        );
    }
    Ok((first, last))
}

/// Whether a character is an ASCII decimal digit.
pub open spec fn is_digit(c: char) -> bool {
    '0' <= c <= '9'
}

/// The value of a string of decimal digits.
pub open spec fn digits_value(s: Seq<char>) -> nat
    decreases s.len(),
{
    if s.len() == 0 {
        0
    } else {
        digits_value(s.drop_last()) * 10 + (s.last() as nat - '0' as nat) as nat
    }
}

/// The digits of an unsigned number's text: without a leading `+`.
pub open spec fn unsigned_digits(s: Seq<char>) -> Seq<char> {
    if s.len() > 0 && s[0] == '+' {
        s.drop_first()
    } else {
        s
    }
}

/// What `u64`'s `from_str` gives for a text: an optional `+`, then at least
/// one decimal digit and nothing else, of a value that fits 64 bits.
pub open spec fn decimal_u64(s: Seq<char>) -> Option<u64> {
    let d = unsigned_digits(s);
    if d.len() > 0 && (forall|i: int| 0 <= i < d.len() ==> is_digit(d[i])) && digits_value(d)
        <= u64::MAX {
        Some(digits_value(d) as u64)
    } else {
        None
    }
}

proof fn lemma_digits_value_grows(d: Seq<char>, k: int, j: int)
    requires
        0 <= k <= j <= d.len(),
        forall|i: int| 0 <= i < d.len() ==> is_digit(d[i]),
    ensures
        digits_value(d.take(k)) <= digits_value(d.take(j)),
    decreases j - k,
{
    if k < j {
        lemma_digits_value_grows(d, k, j - 1);
        assert(d.take(j).drop_last() =~= d.take(j - 1));
    }
}

/// Parses the decimal text of an unsigned 64-bit number, as `u64`'s
/// `from_str` does.
pub fn parse_decimal_u64(text: &str) -> (r: Option<u64>)
    ensures
        r == decimal_u64(text@),
{
    if !text.is_ascii() {
        proof {
            let d = unsigned_digits(text@);
            if d.len() > 0 && (forall|i: int| 0 <= i < d.len() ==> is_digit(d[i])) {
                assert forall|i: int| 0 <= i < text@.len() implies '\0' <= #[trigger] text@[i] <= '\u{7f}' by {
                    if text@.len() > 0 && text@[0] == '+' {
                        if i > 0 {
                            assert(d[i - 1] == text@[i]);
                        }
                    } else {
                        assert(d[i] == text@[i]);
                    }
                }
                assert(vstd::utf8::is_ascii_chars(text@));
            }
        }
        return None;
    }
    let bytes = text.as_bytes();
    proof {
        vstd::string::is_ascii_spec_bytes(text);
    }
    let n = bytes.len();
    let first: usize = if n > 0 && bytes[0] == 43u8 {
        1
    } else {
        0
    };
    let ghost d = unsigned_digits(text@);
    proof {
        assert(d.len() == n - first);
        assert forall|i: int| 0 <= i < d.len() implies d[i] == bytes@[i + first] as char by {}
    }
    if first == n {
        return None;
    }
    let mut value: u64 = 0;
    let mut i: usize = first;
    while i < n
        invariant
            first <= i <= n,
            n == bytes@.len(),
            d == unsigned_digits(text@),
            d.len() == n - first,
            forall|k: int| 0 <= k < d.len() ==> d[k] == bytes@[k + first] as char,
            forall|k: int| 0 <= k < i - first ==> is_digit(d[k]),
            value == digits_value(d.take(i - first)),
        decreases n - i,
    {
        let b = bytes[i];
        if b < 48u8 || b > 57u8 {
            proof {
                assert(!is_digit(d[i - first]));
            }
            return None;
        }
        let ghost k = i - first;
        proof {
            assert(d.take(k + 1).drop_last() =~= d.take(k));
            assert(d.take(k + 1).last() == d[k]);
            assert(is_digit(d[k]));
        }
        let digit: u64 = (b - 48u8) as u64;
        let widened = match value.checked_mul(10) {
            Some(v) => v.checked_add(digit),
            None => None,
        };
        match widened {
            Some(v) => {
                value = v;
            },
            None => {
                proof {
                    if forall|m: int| 0 <= m < d.len() ==> is_digit(d[m]) {
                        lemma_digits_value_grows(d, k + 1, d.len() as int);
                        assert(d.take(d.len() as int) =~= d);
                    }
                }
                return None;
            },
        }
        i = i + 1;
    }
    proof {
        assert(d.take(d.len() as int) =~= d);
    }
    Some(value)
}

/// The seed of a scan plan: zero where absent, else its decimal value.
pub fn parse_seed(seed: &Option<String>) -> (r: Result<u64, ScannerError>)
    ensures
        match seed {
            None => r == Ok::<u64, ScannerError>(0),
            Some(s) => match decimal_u64(s@) {
                Some(v) => r == Ok::<u64, ScannerError>(v),
                None => scan_fails_with(
                    r,
                    invalid_plan("validate seed"@, "seed must fit an unsigned 64-bit integer"@),
                ),
            },
        },
{
    match seed {
        None => Ok(0),
        Some(s) => match parse_decimal_u64(s.as_str()) {
            Some(v) => Ok(v),
            None => Err(ScannerError::invalid("validate seed", "seed must fit an unsigned 64-bit integer")),
        },
    }
}

proof fn lemma_risk_positions_ascend(names: Seq<String>, prior: int, bits: nat)
    requires
        risk_bits_from(names, prior, bits) is Ok,
    ensures
        forall|i: int|
            0 <= i < names.len() ==> (risk_index(#[trigger] names[i]@) matches Some(k) && k
                > prior),
        forall|i: int, j: int|
            0 <= i < j < names.len() ==> (risk_index(#[trigger] names[i]@) matches Some(a)
                && risk_index(#[trigger] names[j]@) matches Some(b) && a < b),
    decreases names.len(),
{
    if names.len() > 0 {
        let k = risk_index(names[0]@)->Some_0;
        lemma_risk_positions_ascend(names.drop_first(), k as int, bits + risk_bit(k));
        assert forall|i: int| 0 <= i < names.len() implies (risk_index(
            #[trigger] names[i]@,
        ) matches Some(m) && m > prior) by {
            if i > 0 {
                assert(names[i] == names.drop_first()[i - 1]);
            }
        }
        assert forall|i: int, j: int| 0 <= i < j < names.len() implies (risk_index(
            #[trigger] names[i]@,
        ) matches Some(a) && risk_index(#[trigger] names[j]@) matches Some(b) && a < b) by {
            assert(names[j] == names.drop_first()[j - 1]);
            if i > 0 {
                assert(names[i] == names.drop_first()[i - 1]);
            }
        }
    }
}

/// An accepted consent list names each risk once, in the canonical order of
/// the risks.
pub proof fn accepted_consents_are_unique_and_ordered(names: Seq<String>)
    requires
        risk_bits_from(names, -1, 0) is Ok,
    ensures
        forall|i: int, j: int| 0 <= i < j < names.len() ==> (#[trigger] names[i])@ != (
        #[trigger] names[j])@,
        forall|i: int, j: int|
            0 <= i < j < names.len() ==> (risk_index(#[trigger] names[i]@) matches Some(a)
                && risk_index(#[trigger] names[j]@) matches Some(b) && a < b),
{
    lemma_risk_positions_ascend(names, -1, 0);
}

/// The consent name of the risk at a canonical position.
pub open spec fn risk_name_at(k: nat) -> Seq<char> {
    if k == 0 {
        "highAmplification"@
    } else if k == 1 {
        "statefulHandshake"@
    } else if k == 2 {
        "fixedSourcePort"@
    } else if k == 3 {
        "multicastOrBroadcast"@
    } else if k == 4 {
        "authenticationAttempt"@
    } else {
        "sensitiveRead"@
    }
}

/// The consent names of the bits of `rest`, read from position `k` up to
/// the sixth risk, in canonical order.
pub open spec fn names_of_bits(rest: nat, k: nat) -> Seq<Seq<char>>
    decreases 6 - k,
{
    if k >= 6 {
        Seq::empty()
    } else if rest % 2 == 1 {
        seq![risk_name_at(k)] + names_of_bits(rest / 2, k + 1)
    } else {
        names_of_bits(rest / 2, k + 1)
    }
}

fn risk_name_text(k: u8) -> (r: &'static str)
    requires
        k < 6,
    ensures
        r@ == risk_name_at(k as nat),
{
    if k == 0 {
        "highAmplification"
    } else if k == 1 {
        "statefulHandshake"
    } else if k == 2 {
        "fixedSourcePort"
    } else if k == 3 {
        "multicastOrBroadcast"
    } else if k == 4 {
        "authenticationAttempt"
    } else {
        "sensitiveRead"
    }
}

/// The consent names of a set of risk bits, in canonical order.
pub fn risk_names(bits: u8) -> (r: Vec<String>)
    ensures
        r@.len() == names_of_bits(bits as nat, 0).len(),
        forall|i: int| 0 <= i < r@.len() ==> (#[trigger] r@[i])@ == names_of_bits(bits as nat, 0)[i],
{
    let mut out: Vec<String> = Vec::new();
    let mut rest: u8 = bits;
    let mut k: u8 = 0;
    while k < 6
        invariant
            k <= 6,
            out@.len() + names_of_bits(rest as nat, k as nat).len() == names_of_bits(bits as nat, 0).len(),
            forall|i: int| 0 <= i < out@.len() ==> (#[trigger] out@[i])@ == names_of_bits(bits as nat, 0)[i],
            forall|i: int|
                0 <= i < names_of_bits(rest as nat, k as nat).len() ==> names_of_bits(rest as nat, k as nat)[i]
                    == names_of_bits(bits as nat, 0)[out@.len() + i],
        decreases 6 - k,
    {
        let ghost before = names_of_bits(rest as nat, k as nat);
        if rest % 2 == 1 {
            out.push(owned(risk_name_text(k)));
            proof {
                assert(before[0] == risk_name_at(k as nat));
                assert(names_of_bits((rest / 2) as nat, (k + 1) as nat) =~= before.drop_first());
            }
        }
        rest = rest / 2;
        k = k + 1;
    }
    out
}

proof fn lemma_risk_name_index(k: nat)
    requires
        k < 6,
    ensures
        risk_index(risk_name_at(k)) == Some(k),
{
    if k == 0 {
            reveal_strlit("highAmplification");
        } else if k == 1 {
            reveal_strlit("highAmplification");
            reveal_strlit("statefulHandshake");
            assert("statefulHandshake"@[0] != "highAmplification"@[0]);
        } else if k == 2 {
            reveal_strlit("highAmplification");
            reveal_strlit("statefulHandshake");
            reveal_strlit("fixedSourcePort");
            assert("fixedSourcePort"@.len() != "highAmplification"@.len());
            assert("fixedSourcePort"@.len() != "statefulHandshake"@.len());
        } else if k == 3 {
            reveal_strlit("highAmplification");
            reveal_strlit("statefulHandshake");
            reveal_strlit("fixedSourcePort");
            reveal_strlit("multicastOrBroadcast");
            assert("multicastOrBroadcast"@.len() != "highAmplification"@.len());
            assert("multicastOrBroadcast"@.len() != "statefulHandshake"@.len());
            assert("multicastOrBroadcast"@.len() != "fixedSourcePort"@.len());
        } else if k == 4 {
            reveal_strlit("highAmplification");
            reveal_strlit("statefulHandshake");
            reveal_strlit("fixedSourcePort");
            reveal_strlit("multicastOrBroadcast");
            reveal_strlit("authenticationAttempt");
            assert("authenticationAttempt"@.len() != "highAmplification"@.len());
            assert("authenticationAttempt"@.len() != "statefulHandshake"@.len());
            assert("authenticationAttempt"@.len() != "fixedSourcePort"@.len());
            assert("authenticationAttempt"@.len() != "multicastOrBroadcast"@.len());
        } else if k == 5 {
            reveal_strlit("highAmplification");
            reveal_strlit("statefulHandshake");
            reveal_strlit("fixedSourcePort");
            reveal_strlit("multicastOrBroadcast");
            reveal_strlit("authenticationAttempt");
            reveal_strlit("sensitiveRead");
            assert("sensitiveRead"@.len() != "highAmplification"@.len());
            assert("sensitiveRead"@.len() != "statefulHandshake"@.len());
            assert("sensitiveRead"@.len() != "fixedSourcePort"@.len());
            assert("sensitiveRead"@.len() != "multicastOrBroadcast"@.len());
            assert("sensitiveRead"@.len() != "authenticationAttempt"@.len());
        }
}

proof fn lemma_names_parse_back(names: Seq<String>, rest: nat, k: nat, prior: int, acc: nat)
    requires
        k <= 6,
        -1 <= prior < k,
        rest * risk_bit(k) < risk_bit(6),
        names.len() == names_of_bits(rest, k).len(),
        forall|i: int| 0 <= i < names.len() ==> (#[trigger] names[i])@ == names_of_bits(rest, k)[i],
    ensures
        risk_bits_from(names, prior, acc) == Ok::<nat, ScannerErrorView>(acc + rest * risk_bit(k)),
    decreases 6 - k,
{
    lemma_risk_bit_bound(k);
    if k >= 6 {
        lemma_risk_bit_monotone(6, k);
        assert(rest == 0) by (nonlinear_arith)
            requires
                rest * risk_bit(k) < risk_bit(6),
                risk_bit(k) >= risk_bit(6),
        {
        }
    } else {
        let half = rest / 2;
        assert(half * risk_bit(k + 1) < risk_bit(6)) by (nonlinear_arith)
            requires
                rest * risk_bit(k) < risk_bit(6),
                risk_bit(k + 1) == 2 * risk_bit(k),
                half == rest / 2,
        {
        }
        if rest % 2 == 1 {
            lemma_risk_name_index(k);
            assert(names[0]@ == risk_name_at(k));
            let tail = names.drop_first();
            assert forall|i: int| 0 <= i < tail.len() implies (#[trigger] tail[i])@ == names_of_bits(half, k + 1)[i] by {
                assert(tail[i] == names[i + 1]);
            }
            lemma_names_parse_back(tail, half, k + 1, k as int, acc + risk_bit(k));
            assert(acc + risk_bit(k) + half * risk_bit(k + 1) == acc + rest * risk_bit(k)) by (nonlinear_arith)
                requires
                    risk_bit(k + 1) == 2 * risk_bit(k),
                    half == rest / 2,
                    rest % 2 == 1,
            {
            }
        } else {
            lemma_names_parse_back(names, half, k + 1, prior, acc);
            assert(acc + half * risk_bit(k + 1) == acc + rest * risk_bit(k)) by (nonlinear_arith)
                requires
                    risk_bit(k + 1) == 2 * risk_bit(k),
                    half == rest / 2,
                    rest % 2 == 0,
            {
            }
        }
    }
}

/// Naming a set of risk bits and parsing the names back gives the same
/// bits: the consent names are a faithful spelling of the consent set.
pub proof fn risk_names_parse_back(bits: u8, names: Seq<String>)
    requires
        bits < 64,
        names.len() == names_of_bits(bits as nat, 0).len(),
        forall|i: int| 0 <= i < names.len() ==> (#[trigger] names[i])@ == names_of_bits(bits as nat, 0)[i],
    ensures
        risk_bits_from(names, -1, 0) == Ok::<nat, ScannerErrorView>(bits as nat),
{
    reveal_with_fuel(risk_bit, 7);
    assert(risk_bit(0) == 1);
    assert(risk_bit(6) == 64);
    assert(bits as nat * risk_bit(0) == bits as nat);
    lemma_names_parse_back(names, bits as nat, 0, -1, 0);
}

proof fn lemma_parsed_names_are_canonical(names: Seq<String>, k: nat, prior: int, acc: nat, total: nat)
    requires
        k <= 6,
        prior < k,
        risk_bits_from(names, prior, acc) == Ok::<nat, ScannerErrorView>(total),
        forall|i: int| 0 <= i < names.len() ==> (risk_index(#[trigger] names[i]@) matches Some(m) && m >= k),
    ensures
        total >= acc,
        (total - acc) % (risk_bit(k) as int) == 0,
        names.map_values(|n: String| n@) == names_of_bits(((total - acc) / (risk_bit(k) as int)) as nat, k),
    decreases 6 - k,
{
    lemma_risk_bit_bound(k);
    lemma_risk_positions_ascend(names, prior, acc);
    let rest = ((total - acc) / (risk_bit(k) as int)) as nat;
    if k >= 6 {
        if names.len() > 0 {
            assert(risk_index(names[0]@) matches Some(m) && m >= 6);
        }
        assert(names.map_values(|n: String| n@) =~= Seq::<Seq<char>>::empty());
    } else if names.len() > 0 && risk_index(names[0]@) == Some(k) {
        let tail = names.drop_first();
        assert forall|i: int| 0 <= i < tail.len() implies (risk_index(#[trigger] tail[i]@) matches Some(m) && m
            >= k + 1) by {
            assert(tail[i] == names[i + 1]);
        }
        lemma_parsed_names_are_canonical(tail, k + 1, k as int, acc + risk_bit(k), total);
        let bk = risk_bit(k) as int;
        let m = (total - acc - bk) / (2 * bk);
        assert(total - acc == bk * (2 * m + 1) && rest == 2 * m + 1 && rest % 2 == 1 && rest / 2 == m
            && (total - acc) % bk == 0) by (nonlinear_arith)
            requires
                bk >= 1,
                total - acc - bk >= 0,
                (total - acc - bk) % (2 * bk) == 0,
                m == (total - acc - bk) / (2 * bk),
                rest == (total - acc) / bk,
        {
        }
        assert(names[0]@ == risk_name_at(k));
        assert(names.map_values(|n: String| n@) =~= seq![risk_name_at(k)] + tail.map_values(
            |n: String| n@,
        ));
    } else {
        assert forall|i: int| 0 <= i < names.len() implies (risk_index(#[trigger] names[i]@) matches Some(m) && m
            >= k + 1) by {
            if i > 0 {
                assert(risk_index(names[0]@) matches Some(a) && a >= k);
            }
        }
        lemma_parsed_names_are_canonical(names, k + 1, prior, acc, total);
        let bk = risk_bit(k) as int;
        let m = (total - acc) / (2 * bk);
        assert(rest == 2 * m && rest % 2 == 0 && rest / 2 == m && (total - acc) % bk == 0) by (nonlinear_arith)
            requires
                bk >= 1,
                total - acc >= 0,
                (total - acc) % (2 * bk) == 0,
                m == (total - acc) / (2 * bk),
                rest == (total - acc) / bk,
        {
        }
    }
}

/// An accepted consent list is exactly the canonical spelling of the
/// consent bits it parses to: naming those bits gives the list back.
pub proof fn accepted_consents_name_their_bits(names: Seq<String>, bits: nat)
    requires
        risk_bits_from(names, -1, 0) == Ok::<nat, ScannerErrorView>(bits),
    ensures
        names.map_values(|n: String| n@) == names_of_bits(bits, 0),
{
    lemma_risk_positions_ascend(names, -1, 0);
    assert(risk_bit(0) == 1);
    lemma_parsed_names_are_canonical(names, 0, -1, 0, bits);
}

} // verus!

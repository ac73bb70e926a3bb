//! Probe definitions of a scan plan: port lists, the kind/family pairs a probe
//! may name, and the UDP policy a UDP probe selects (payload modes, the
//! protocol catalogue policy and its risk consents).
use vstd::prelude::*;

use crate::plan::{
    checked_port, parse_risk_set, port_message, risk_bits_from, NativePortSelection,
    NativeScanProbe, MAX_UDP_USER_PAYLOAD_BYTES,
};
use crate::results::ProbeFamily;
use crate::scan_error::{
    invalid_plan, scan_failure, scan_fails_with, ScanFailure, ScannerError, ScannerErrorView,
};
use crate::text::str_eq;

verus! {

broadcast use vstd::string::group_string_axioms;

/// The most ports one probe family may list.
pub const MAX_PROBE_PORTS: usize = 65536;

/// The text of an optional string.
pub open spec fn opt_text(value: Option<String>) -> Option<Seq<char>> {
    match value {
        Some(s) => Some(s@),
        None => None,
    }
}

/// Whether an optional string is present and equals `text`.
pub open spec fn opt_is(value: Option<String>, text: Seq<char>) -> bool {
    value matches Some(s) && s@ == text
}

fn opt_eq(value: &Option<String>, text: &str) -> (r: bool)
    ensures
        r == opt_is(*value, text@),
{
    match value {
        Some(s) => str_eq(s.as_str(), text),
        None => false,
    }
}

/// The ports from `start` through `end`, ascending.
pub open spec fn port_span(start: u16, end: u16) -> Seq<u16> {
    Seq::new((end - start + 1) as nat, |i: int| (start + i) as u16)
}

/// The ports a list of ranges expands to after `acc`, or the failure of the
/// first bad range: a port out of 1 through 65535, a reversed range, or more
/// than 65536 ports in all.
pub open spec fn expanded_ports(values: Seq<NativePortSelection>, acc: Seq<u16>) -> Result<
    Seq<u16>,
    ScannerErrorView,
>
    decreases values.len(),
{
    if values.len() == 0 {
        Ok(acc)
    } else {
        let v = values[0];
        if !(1 <= v.start <= 65535) {
            Err(invalid_plan("validate port"@, port_message("port.start"@)))
        } else if !(1 <= v.end <= 65535) {
            Err(invalid_plan("validate port"@, port_message("port.end"@)))
        } else if v.start > v.end {
            Err(invalid_plan("validate ports"@, "port range is reversed"@))
        } else if acc.len() + (v.end - v.start + 1) > MAX_PROBE_PORTS {
            Err(
                scan_failure(
                    ScanFailure::Resource,
                    "validate ports"@,
                    "a probe family may contain at most 65536 ports"@,
                ),
            )
        } else {
            expanded_ports(values.drop_first(), acc + port_span(v.start as u16, v.end as u16))
        }
    }
}

/// Expands port ranges into the ports they name, in order.
pub fn expand_ports(values: &[NativePortSelection]) -> (r: Result<Vec<u16>, ScannerError>)
    ensures
        match expanded_ports(values@, Seq::empty()) {
            Ok(ports) => r matches Ok(v) && v@ == ports,
            Err(e) => scan_fails_with(r, e),
        },
{
    let mut ports: Vec<u16> = Vec::new();
    let mut i: usize = 0;
    proof {
        assert(values@.skip(0) =~= values@);
    }
    while i < values.len()
        invariant
            i <= values@.len(),
            ports@.len() <= MAX_PROBE_PORTS,
            expanded_ports(values@, Seq::empty()) == expanded_ports(values@.skip(i as int), ports@),
        decreases values@.len() - i,
    {
        proof {
            assert(values@.skip(i as int)[0] == values@[i as int]);
            assert(values@.skip(i as int).drop_first() =~= values@.skip(i + 1));
        }
        let value = values[i];
        let start = match checked_port(value.start, "port.start") {
            Ok(p) => p,
            Err(e) => {
                return Err(e);
            },
        };
        let end = match checked_port(value.end, "port.end") {
            Ok(p) => p,
            Err(e) => {
                return Err(e);
            },
        };
        if start > end {
            return Err(ScannerError::invalid("validate ports", "port range is reversed"));
        }
        let additional: usize = (end - start) as usize + 1;
        if ports.len() + additional > MAX_PROBE_PORTS {
            return Err(
                ScannerError::resource(
                    "validate ports",
                    "a probe family may contain at most 65536 ports",
                ),
            );
        }
        let ghost base = ports@;
        let mut q: u32 = start as u32;
        while q <= end as u32
            invariant
                start <= end,
                start as u32 <= q <= end as u32 + 1,
                ports@ =~= base + Seq::new((q - start) as nat, |k: int| (start + k) as u16),
            decreases end as u32 + 1 - q,
        {
            ports.push(q as u16);
            q = q + 1;
        }
        proof {
            assert(ports@ =~= base + port_span(start, end));
        }
        i = i + 1;
    }
    proof {
        assert(values@.skip(i as int).len() == 0);
    }
    Ok(ports)
}

/// How a UDP request is matched to its replies.
#[derive(Clone, Copy, Debug, PartialEq, Eq, Structural)]
pub enum UdpCorrelation {
    /// By the request's address and port tuple.
    Tuple,
    /// By a token at the front of the payload.
    PrefixToken,
}

/// How the catalogue policy walks its probes.
#[derive(Clone, Copy, Debug, PartialEq, Eq, Structural)]
pub enum UdpStrategy {
    Exhaustive,
    Adaptive,
}

/// The catalogue profiles.
#[derive(Clone, Copy, Debug, PartialEq, Eq, Structural)]
pub enum UdpProfile {
    Safe,
    Comprehensive,
    Legacy,
}

/// What the catalogue policy sends where no catalogue probe applies.
#[derive(Clone, Copy, Debug, PartialEq, Eq, Structural)]
pub enum UdpFallback {
    Unmapped,
    AfterProtocol,
    Never,
}

/// The address families a payload policy sends to.
#[derive(Clone, Copy, Debug, PartialEq, Eq, Structural)]
pub enum PayloadFamily {
    Both,
    Ipv4,
    Ipv6,
}

/// The reported mode of a payload policy.
#[derive(Clone, Copy, Debug, PartialEq, Eq, Structural)]
pub enum PayloadMode {
    Custom,
    Empty,
}

/// The UDP policy one UDP probe selects.
#[derive(Debug)]
pub enum UdpPolicy {
    /// The protocol catalogue, filtered by profile, intensity and consent.
    Protocol {
        strategy: UdpStrategy,
        profile: UdpProfile,
        intensity: u8,
        allowed_risks: u8,
        empty_fallback: UdpFallback,
    },
    /// One caller payload (possibly empty) for every port.
    Payload {
        mode: PayloadMode,
        correlation: UdpCorrelation,
        family: PayloadFamily,
        payload: Vec<u8>,
    },
}

/// Whether a selected profile admits catalogue probes of `candidate`: safe
/// admits safe, comprehensive admits safe and comprehensive, legacy admits
/// every profile.
pub open spec fn profile_admits(selected: UdpProfile, candidate: UdpProfile) -> bool {
    match selected {
        UdpProfile::Safe => candidate == UdpProfile::Safe,
        UdpProfile::Comprehensive => candidate != UdpProfile::Legacy,
        UdpProfile::Legacy => true,
    }
}

/// Reports whether a selected profile admits a candidate profile.
pub fn profile_includes(selected: UdpProfile, candidate: UdpProfile) -> (r: bool)
    ensures
        r == profile_admits(selected, candidate),
{
    match selected {
        UdpProfile::Safe => match candidate {
            UdpProfile::Safe => true,
            _ => false,
        },
        UdpProfile::Comprehensive => match candidate {
            UdpProfile::Legacy => false,
            _ => true,
        },
        UdpProfile::Legacy => true,
    }
}

/// Reports whether every required risk bit is among the allowed bits.
pub fn risks_are_allowed(required: u8, allowed: u8) -> (r: bool)
    ensures
        r == (required & !allowed == 0),
        r == (required & allowed == required),
{
    assert((required & !allowed == 0) == (required & allowed == required)) by (bit_vector);
    required & !allowed == 0
}

/// The consent bits of an optional risk list (absent means none).
pub open spec fn consent_bits(risks: Option<Vec<String>>) -> Result<nat, ScannerErrorView> {
    match risks {
        Some(v) => risk_bits_from(v@, -1, 0),
        None => Ok(0),
    }
}

/// The first failure of the protocol policy fields of a probe, if any.
pub open spec fn protocol_policy_failure(probe: NativeScanProbe) -> Option<ScannerErrorView> {
    let op = "validate UDP policy"@;
    if probe.udp_profile is Some && !opt_is(probe.udp_profile, "safe"@) && !opt_is(
        probe.udp_profile,
        "comprehensive"@,
    ) && !opt_is(probe.udp_profile, "legacy"@) {
        Some(invalid_plan(op, "UDP profile is unsupported"@))
    } else if probe.udp_intensity matches Some(v) && v > 9 {
        Some(invalid_plan(op, "UDP intensity must be from 0 through 9"@))
    } else if probe.udp_strategy is Some && !opt_is(probe.udp_strategy, "exhaustive"@) && !opt_is(
        probe.udp_strategy,
        "adaptive"@,
    ) {
        Some(invalid_plan(op, "UDP strategy is unsupported"@))
    } else if probe.udp_empty_fallback is Some && !opt_is(probe.udp_empty_fallback, "unmapped"@)
        && !opt_is(probe.udp_empty_fallback, "afterProtocol"@) && !opt_is(
        probe.udp_empty_fallback,
        "never"@,
    ) {
        Some(invalid_plan(op, "UDP empty fallback is unsupported"@))
    } else if (probe.payload matches Some(p) && p@.len() > 0) || probe.udp_correlation is Some {
        Some(invalid_plan(op, "protocol UDP policy cannot contain custom payload fields"@))
    } else {
        match consent_bits(probe.udp_allow_risks) {
            Err(e) => Some(e),
            Ok(_) => None,
        }
    }
}

fn probe_consent_bits(probe: &NativeScanProbe) -> (r: Result<u8, ScannerError>)
    ensures
        match consent_bits(probe.udp_allow_risks) {
            Ok(bits) => bits < 64 && r == Ok::<u8, ScannerError>(bits as u8),
            Err(e) => scan_fails_with(r, e),
        },
{
    match &probe.udp_allow_risks {
        Some(v) => parse_risk_set(v.as_slice()),
        None => Ok(0),
    }
}

/// Checks the fields of the protocol catalogue policy: a known profile,
/// intensity at most nine, a known strategy and fallback, no custom payload
/// or correlation, and risk consents that are known, unique and canonical.
pub fn validate_protocol_policy(probe: &NativeScanProbe) -> (r: Result<(), ScannerError>)
    ensures
        match protocol_policy_failure(*probe) {
            Some(e) => scan_fails_with(r, e),
            None => r is Ok,
        },
{
    let op = "validate UDP policy";
    if probe.udp_profile.is_some() && !opt_eq(&probe.udp_profile, "safe") && !opt_eq(
        &probe.udp_profile,
        "comprehensive",
    ) && !opt_eq(&probe.udp_profile, "legacy") {
        return Err(ScannerError::invalid(op, "UDP profile is unsupported"));
    }
    match probe.udp_intensity {
        Some(v) => {
            if v > 9 {
                return Err(ScannerError::invalid(op, "UDP intensity must be from 0 through 9"));
            }
        },
        None => {},
    }
    if probe.udp_strategy.is_some() && !opt_eq(&probe.udp_strategy, "exhaustive") && !opt_eq(
        &probe.udp_strategy,
        "adaptive",
    ) {
        return Err(ScannerError::invalid(op, "UDP strategy is unsupported"));
    }
    if probe.udp_empty_fallback.is_some() && !opt_eq(&probe.udp_empty_fallback, "unmapped")
        && !opt_eq(&probe.udp_empty_fallback, "afterProtocol") && !opt_eq(
        &probe.udp_empty_fallback,
        "never",
    ) {
        return Err(ScannerError::invalid(op, "UDP empty fallback is unsupported"));
    }
    let custom_payload = match &probe.payload {
        Some(p) => p.len() > 0,
        None => false,
    };
    if custom_payload || probe.udp_correlation.is_some() {
        return Err(
            ScannerError::invalid(op, "protocol UDP policy cannot contain custom payload fields"),
        );
    }
    match probe_consent_bits(probe) {
        Ok(_) => Ok(()),
        Err(e) => Err(e),
    }
}

/// The policy mode a probe names, or the mode its payload implies: the
/// catalogue for no payload, the prefix-token payload mode otherwise.
pub open spec fn policy_mode(probe: NativeScanProbe, payload: Seq<u8>) -> Seq<char> {
    match probe.udp_mode {
        Some(m) => m@,
        None => if payload.len() == 0 {
            "protocol"@
        } else {
            "legacyPrefix"@
        },
    }
}

/// Whether any field of the catalogue policy is present.
pub open spec fn has_protocol_fields(probe: NativeScanProbe) -> bool {
    probe.udp_profile is Some || probe.udp_intensity is Some || probe.udp_strategy is Some
        || probe.udp_empty_fallback is Some || probe.udp_allow_risks is Some
}

/// The catalogue policy a valid protocol probe selects, with its defaults:
/// exhaustive, safe, intensity seven, the unmapped fallback.
pub open spec fn protocol_policy_of(probe: NativeScanProbe, bits: nat) -> (
    UdpStrategy,
    UdpProfile,
    nat,
    nat,
    UdpFallback,
) {
    (
        if opt_is(probe.udp_strategy, "adaptive"@) {
            UdpStrategy::Adaptive
        } else {
            UdpStrategy::Exhaustive
        },
        if opt_is(probe.udp_profile, "comprehensive"@) {
            UdpProfile::Comprehensive
        } else if opt_is(probe.udp_profile, "legacy"@) {
            UdpProfile::Legacy
        } else {
            UdpProfile::Safe
        },
        match probe.udp_intensity {
            Some(v) => v as nat,
            None => 7,
        },
        bits,
        if opt_is(probe.udp_empty_fallback, "afterProtocol"@) {
            UdpFallback::AfterProtocol
        } else if opt_is(probe.udp_empty_fallback, "never"@) {
            UdpFallback::Never
        } else {
            UdpFallback::Unmapped
        },
    )
}

/// The correlation of a payload policy mode, or its failure; `None` for a
/// mode that is not a payload mode.
pub open spec fn payload_correlation(probe: NativeScanProbe, mode: Seq<char>, payload: Seq<u8>) -> Option<
    Result<UdpCorrelation, ScannerErrorView>,
> {
    if mode == "legacyPrefix"@ {
        Some(Ok(UdpCorrelation::PrefixToken))
    } else if mode == "empty"@ {
        if payload.len() > 0 {
            Some(
                Err(
                    invalid_plan(
                        "validate UDP policy"@,
                        "empty UDP policy cannot contain payload bytes"@,
                    ),
                ),
            )
        } else {
            Some(Ok(UdpCorrelation::Tuple))
        }
    } else if mode == "custom"@ {
        if probe.udp_correlation is None || opt_is(probe.udp_correlation, "tuple"@) {
            Some(Ok(UdpCorrelation::Tuple))
        } else if opt_is(probe.udp_correlation, "prefixToken"@) {
            Some(Ok(UdpCorrelation::PrefixToken))
        } else {
            Some(
                Err(
                    invalid_plan(
                        "validate UDP policy"@,
                        "UDP custom correlation is unsupported"@,
                    ),
                ),
            )
        }
    } else {
        None
    }
}

/// The family a payload policy sends to.
pub open spec fn payload_family(probe: NativeScanProbe) -> PayloadFamily {
    if opt_is(probe.family, "ipv4"@) {
        PayloadFamily::Ipv4
    } else if opt_is(probe.family, "ipv6"@) {
        PayloadFamily::Ipv6
    } else {
        PayloadFamily::Both
    }
}

/// Whether `r` is the UDP policy a UDP probe with `payload` selects, or the
/// failure that refuses it.
pub open spec fn selects_udp_policy(
    probe: NativeScanProbe,
    payload: Seq<u8>,
    r: Result<UdpPolicy, ScannerError>,
) -> bool {
    let mode = policy_mode(probe, payload);
    let op = "validate UDP policy"@;
    if mode == "protocol"@ {
        match protocol_policy_failure(probe) {
            Some(e) => scan_fails_with(r, e),
            None => consent_bits(probe.udp_allow_risks) matches Ok(bits) && r matches Ok(
                UdpPolicy::Protocol {
                    strategy,
                    profile,
                    intensity,
                    allowed_risks,
                    empty_fallback,
                },
            ) && protocol_policy_of(probe, bits) == (
                strategy,
                profile,
                intensity as nat,
                allowed_risks as nat,
                empty_fallback,
            ),
        }
    } else {
        match payload_correlation(probe, mode, payload) {
            None => scan_fails_with(r, invalid_plan(op, "UDP policy mode is unsupported"@)),
            Some(Err(e)) => scan_fails_with(r, e),
            Some(Ok(correlation)) => if has_protocol_fields(probe) {
                scan_fails_with(
                    r,
                    invalid_plan(
                        op,
                        "protocol-only UDP policy fields are not valid for empty or custom mode"@,
                    ),
                )
            } else if mode != "custom"@ && probe.udp_correlation is Some {
                scan_fails_with(
                    r,
                    invalid_plan(op, "correlation is valid only for custom UDP policy"@),
                )
            } else {
                r matches Ok(UdpPolicy::Payload { mode: m, correlation: c, family, payload: p })
                    && m == (if mode == "empty"@ {
                    PayloadMode::Empty
                } else {
                    PayloadMode::Custom
                }) && c == correlation && family == payload_family(probe) && p@ == payload
            },
        }
    }
}

fn probe_mode_is(probe: &NativeScanProbe, payload: &Vec<u8>, text: &str) -> (r: bool)
    ensures
        r == (policy_mode(*probe, payload@) == text@),
{
    match &probe.udp_mode {
        Some(m) => str_eq(m.as_str(), text),
        None => {
            let implied = if payload.len() == 0 {
                "protocol"
            } else {
                "legacyPrefix"
            };
            proof {
                reveal_strlit("protocol");
                reveal_strlit("legacyPrefix");
            }
            str_eq(implied, text)
        },
    }
}

fn protocol_policy(probe: &NativeScanProbe) -> (r: Result<UdpPolicy, ScannerError>)
    ensures
        match protocol_policy_failure(*probe) {
            Some(e) => scan_fails_with(r, e),
            None => consent_bits(probe.udp_allow_risks) matches Ok(bits) && r matches Ok(
                UdpPolicy::Protocol {
                    strategy,
                    profile,
                    intensity,
                    allowed_risks,
                    empty_fallback,
                },
            ) && protocol_policy_of(*probe, bits) == (
                strategy,
                profile,
                intensity as nat,
                allowed_risks as nat,
                empty_fallback,
            ),
        },
{
    match validate_protocol_policy(probe) {
        Err(e) => {
            return Err(e);
        },
        Ok(()) => {},
    }
    let strategy = if opt_eq(&probe.udp_strategy, "adaptive") {
        UdpStrategy::Adaptive
    } else {
        UdpStrategy::Exhaustive
    };
    let profile = if opt_eq(&probe.udp_profile, "comprehensive") {
        UdpProfile::Comprehensive
    } else if opt_eq(&probe.udp_profile, "legacy") {
        UdpProfile::Legacy
    } else {
        UdpProfile::Safe
    };
    let intensity: u8 = match probe.udp_intensity {
        Some(v) => v as u8,
        None => 7,
    };
    let allowed_risks = match probe_consent_bits(probe) {
        Ok(bits) => bits,
        Err(e) => {
            return Err(e);
        },
    };
    let empty_fallback = if opt_eq(&probe.udp_empty_fallback, "afterProtocol") {
        UdpFallback::AfterProtocol
    } else if opt_eq(&probe.udp_empty_fallback, "never") {
        UdpFallback::Never
    } else {
        UdpFallback::Unmapped
    };
    Ok(UdpPolicy::Protocol { strategy, profile, intensity, allowed_risks, empty_fallback })
}

/// Selects the UDP policy of a UDP probe whose payload (empty where absent)
/// is `payload`. The catalogue policy keeps its profile, intensity, consent
/// bits, strategy and fallback; a payload policy keeps its correlation, the
/// family it sends to, and the payload.
pub fn parse_udp_policy(probe: &NativeScanProbe, payload: Vec<u8>) -> (r: Result<
    UdpPolicy,
    ScannerError,
>)
    ensures
        selects_udp_policy(*probe, payload@, r),
{
    let op = "validate UDP policy";
    if probe_mode_is(probe, &payload, "protocol") {
        return protocol_policy(probe);
    }
    let correlation = if probe_mode_is(probe, &payload, "legacyPrefix") {
        UdpCorrelation::PrefixToken
    } else if probe_mode_is(probe, &payload, "empty") {
        if payload.len() > 0 {
            return Err(ScannerError::invalid(op, "empty UDP policy cannot contain payload bytes"));
        }
        UdpCorrelation::Tuple
    } else if probe_mode_is(probe, &payload, "custom") {
        if probe.udp_correlation.is_none() || opt_eq(&probe.udp_correlation, "tuple") {
            UdpCorrelation::Tuple
        } else if opt_eq(&probe.udp_correlation, "prefixToken") {
            UdpCorrelation::PrefixToken
        } else {
            return Err(ScannerError::invalid(op, "UDP custom correlation is unsupported"));
        }
    } else {
        return Err(ScannerError::invalid(op, "UDP policy mode is unsupported"));
    };
    if probe.udp_profile.is_some() || probe.udp_intensity.is_some() || probe.udp_strategy.is_some()
        || probe.udp_empty_fallback.is_some() || probe.udp_allow_risks.is_some() {
        return Err(
            ScannerError::invalid(
                op,
                "protocol-only UDP policy fields are not valid for empty or custom mode",
            ),
        );
    }
    let is_custom = probe_mode_is(probe, &payload, "custom");
    if !is_custom && probe.udp_correlation.is_some() {
        return Err(ScannerError::invalid(op, "correlation is valid only for custom UDP policy"));
    }
    let family = if opt_eq(&probe.family, "ipv4") {
        PayloadFamily::Ipv4
    } else if opt_eq(&probe.family, "ipv6") {
        PayloadFamily::Ipv6
    } else {
        PayloadFamily::Both
    };
    let mode = if probe_mode_is(probe, &payload, "empty") {
        PayloadMode::Empty
    } else {
        PayloadMode::Custom
    };
    proof {
        reveal_strlit("protocol");
        reveal_strlit("legacyPrefix");
        reveal_strlit("empty");
        reveal_strlit("custom");
    }
    Ok(UdpPolicy::Payload { mode, correlation, family, payload })
}

/// The probe family a kind and family pair names, if it is supported.
pub open spec fn probe_family_of(kind: Seq<char>, family: Option<Seq<char>>) -> Option<ProbeFamily> {
    if kind == "arp"@ && family is None {
        Some(ProbeFamily::Arp)
    } else if kind == "ndp"@ && family is None {
        Some(ProbeFamily::Ndp)
    } else if kind == "icmpEcho"@ && family == Some("ipv4"@) {
        Some(ProbeFamily::Icmpv4Echo)
    } else if kind == "icmpEcho"@ && family == Some("ipv6"@) {
        Some(ProbeFamily::Icmpv6Echo)
    } else if kind == "tcpSyn"@ && family is None {
        Some(ProbeFamily::TcpSyn)
    } else if kind == "udp"@ && (family is None || family == Some("both"@) || family == Some(
        "ipv4"@,
    ) || family == Some("ipv6"@)) {
        Some(ProbeFamily::Udp)
    } else {
        None
    }
}

fn probe_family(probe: &NativeScanProbe) -> (r: Option<ProbeFamily>)
    ensures
        r == probe_family_of(probe.kind@, opt_text(probe.family)),
{
    let kind = probe.kind.as_str();
    let none = probe.family.is_none();
    if str_eq(kind, "arp") && none {
        Some(ProbeFamily::Arp)
    } else if str_eq(kind, "ndp") && none {
        Some(ProbeFamily::Ndp)
    } else if str_eq(kind, "icmpEcho") && opt_eq(&probe.family, "ipv4") {
        Some(ProbeFamily::Icmpv4Echo)
    } else if str_eq(kind, "icmpEcho") && opt_eq(&probe.family, "ipv6") {
        Some(ProbeFamily::Icmpv6Echo)
    } else if str_eq(kind, "tcpSyn") && none {
        Some(ProbeFamily::TcpSyn)
    } else if str_eq(kind, "udp") && (none || opt_eq(&probe.family, "both") || opt_eq(
        &probe.family,
        "ipv4",
    ) || opt_eq(&probe.family, "ipv6")) {
        Some(ProbeFamily::Udp)
    } else {
        None
    }
}

/// The payload of a probe, empty where absent.
pub open spec fn probe_payload(probe: NativeScanProbe) -> Seq<u8> {
    match probe.payload {
        Some(p) => p@,
        None => Seq::empty(),
    }
}

/// The port ranges of a probe, none where absent.
pub open spec fn probe_ranges(probe: NativeScanProbe) -> Seq<NativePortSelection> {
    match probe.ports {
        Some(p) => p@,
        None => Seq::empty(),
    }
}

/// Whether any UDP-only field of a probe is present.
pub open spec fn has_udp_fields(probe: NativeScanProbe) -> bool {
    probe_payload(probe).len() > 0 || probe.udp_mode is Some || has_protocol_fields(probe)
        || probe.udp_correlation is Some
}

/// Whether `r` is what parsing `probe` gives: the payload limit, then the
/// ports, then the kind/family pair, then that only UDP probes carry UDP
/// fields, then the UDP policy of a UDP probe.
pub open spec fn parses_probe(
    probe: NativeScanProbe,
    r: Result<(ProbeFamily, Vec<u16>, Option<UdpPolicy>), ScannerError>,
) -> bool {
    let payload = probe_payload(probe);
    if payload.len() > MAX_UDP_USER_PAYLOAD_BYTES {
        scan_fails_with(
            r,
            invalid_plan(
                "validate UDP payload"@,
                "UDP payload plus correlation, UDP, and IPv4 headers exceeds the maximum IP packet length"@,
            ),
        )
    } else {
        match expanded_ports(probe_ranges(probe), Seq::empty()) {
            Err(e) => scan_fails_with(r, e),
            Ok(ports) => match probe_family_of(probe.kind@, opt_text(probe.family)) {
                None => scan_fails_with(
                    r,
                    invalid_plan(
                        "validate scan probe"@,
                        "unsupported probe kind/family combination"@,
                    ),
                ),
                Some(family) => if family != ProbeFamily::Udp {
                    if has_udp_fields(probe) {
                        scan_fails_with(
                            r,
                            invalid_plan(
                                "validate scan probe"@,
                                "payload is supported only for UDP probes"@,
                            ),
                        )
                    } else {
                        r matches Ok((f, p, None)) && f == family && p@ == ports
                    }
                } else {
                    match r {
                        Ok((f, p, Some(policy))) => f == ProbeFamily::Udp && p@ == ports
                            && selects_udp_policy(probe, payload, Ok(policy)),
                        Ok((_, _, None)) => false,
                        Err(e) => selects_udp_policy(probe, payload, Err(e)),
                    }
                },
            },
        }
    }
}

fn copy_payload(probe: &NativeScanProbe) -> (r: Vec<u8>)
    ensures
        r@ == probe_payload(*probe),
{
    match &probe.payload {
        Some(p) => {
            let mut out: Vec<u8> = Vec::new();
            let mut i: usize = 0;
            while i < p.len()
                invariant
                    i <= p@.len(),
                    out@ =~= p@.take(i as int),
                decreases p@.len() - i,
            {
                out.push(p[i]);
                i = i + 1;
            }
            proof {
                assert(p@.take(p@.len() as int) =~= p@);
            }
            out
        },
        None => Vec::new(),
    }
}

/// Parses one probe definition into its family, its ports and, for a UDP
/// probe, its UDP policy.
pub fn parse_probe(probe: &NativeScanProbe) -> (r: Result<
    (ProbeFamily, Vec<u16>, Option<UdpPolicy>),
    ScannerError,
>)
    ensures
        parses_probe(*probe, r),
{
    let payload = copy_payload(probe);
    if payload.len() > MAX_UDP_USER_PAYLOAD_BYTES {
        return Err(
            ScannerError::invalid(
                "validate UDP payload",
                "UDP payload plus correlation, UDP, and IPv4 headers exceeds the maximum IP packet length",
            ),
        );
    }
    let ports = match &probe.ports {
        Some(v) => expand_ports(v.as_slice()),
        None => expand_ports(&[]),
    };
    proof {
        assert(probe.ports is None ==> Seq::<NativePortSelection>::empty() =~= probe_ranges(*probe));
    }
    let ports = match ports {
        Ok(p) => p,
        Err(e) => {
            return Err(e);
        },
    };
    let family = match probe_family(probe) {
        Some(f) => f,
        None => {
            return Err(
                ScannerError::invalid(
                    "validate scan probe",
                    "unsupported probe kind/family combination",
                ),
            );
        },
    };
    let is_udp = match family {
        ProbeFamily::Udp => true,
        _ => false,
    };
    if !is_udp {
        if payload.len() > 0 || probe.udp_mode.is_some() || probe.udp_profile.is_some()
            || probe.udp_intensity.is_some() || probe.udp_strategy.is_some()
            || probe.udp_empty_fallback.is_some() || probe.udp_allow_risks.is_some()
            || probe.udp_correlation.is_some() {
            return Err(
                ScannerError::invalid(
                    "validate scan probe",
                    "payload is supported only for UDP probes",
                ),
            );
        }
        return Ok((family, ports, None));
    }
    match parse_udp_policy(probe, payload) {
        Ok(policy) => Ok((ProbeFamily::Udp, ports, Some(policy))),
        Err(e) => Err(e),
    }
}

/// The catalogue profiles widen in order: what safe admits, comprehensive
/// admits, and what comprehensive admits, legacy admits.
pub proof fn profiles_widen_in_order(candidate: UdpProfile)
    ensures
        profile_admits(UdpProfile::Safe, candidate) ==> profile_admits(
            UdpProfile::Comprehensive,
            candidate,
        ),
        profile_admits(UdpProfile::Comprehensive, candidate) ==> profile_admits(
            UdpProfile::Legacy,
            candidate,
        ),
        profile_admits(UdpProfile::Safe, candidate) <==> candidate == UdpProfile::Safe,
{
}

/// Consent only widens what is allowed: a probe that needs no risk is always
/// allowed, and one allowed under some consents stays allowed under more.
pub proof fn more_consent_never_forbids(required: u8, allowed: u8, more: u8)
    requires
        allowed & more == allowed,
    ensures
        0u8 & !allowed == 0,
        required & !allowed == 0 ==> required & !more == 0,
{
    assert(0u8 & !allowed == 0) by (bit_vector);
    assert(allowed & more == allowed ==> (required & !allowed == 0 ==> required & !more == 0))
        by (bit_vector);
}

} // verus!

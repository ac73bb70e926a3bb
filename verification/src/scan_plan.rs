//! Admission of an active scan plan: its probes (at most one of them UDP),
//! the UDP programme that probe selects, multicast consent, the timing,
//! source-port and payload budgets, the VLAN override, the seed, and the
//! result schema the session reports in. Target parsing and normalization
//! belong to the scan engine, which hands over whether the normalized
//! targets hold a multicast or limited-broadcast address.
use vstd::prelude::*;

use crate::plan::{
    admit_source_ports, or_default, parse_seed, rate_or_default, scheduler_settings,
    scheduler_settings_of, source_port_failure, timing_or_default, validate_vlan, decimal_u64,
    NativeScanPlan, NativeScanProbe, NativeTimingOptions, NativeVlanOptions, SchedulerSettings,
    VlanOverride, DEFAULT_RETRIES, DEFAULT_SOURCE_PORT_END, DEFAULT_SOURCE_PORT_START,
    DEFAULT_TIMEOUT_MS, MAX_TEMPLATE_PAYLOAD_BYTES, MAX_UDP_USER_PAYLOAD_BYTES,
};
use crate::probe::{
    consent_bits, expanded_ports, has_protocol_fields, has_udp_fields, opt_text, parse_probe,
    parses_probe, payload_correlation, payload_family, policy_mode, probe_family_of,
    probe_payload, probe_ranges, protocol_policy_failure, protocol_policy_of, selects_udp_policy,
    PayloadFamily, UdpPolicy,
};
use crate::results::ProbeFamily;
use crate::scan_error::{
    invalid_plan, scan_failure, scan_fails_with, ScanFailure, ScannerError, ScannerErrorView,
};
use crate::udp_program::{
    catalogue_program, catalogue_requests, fallback_request, CatalogueEntry, CatalogueProgram,
    CatalogueRequest,
};

verus! {

/// The failure of a UDP policy, if it has one: what `parse_udp_policy`
/// refuses.
pub open spec fn udp_policy_failure(probe: NativeScanProbe, payload: Seq<u8>) -> Option<
    ScannerErrorView,
> {
    let mode = policy_mode(probe, payload);
    let op = "validate UDP policy"@;
    if mode == "protocol"@ {
        protocol_policy_failure(probe)
    } else {
        match payload_correlation(probe, mode, payload) {
            None => Some(invalid_plan(op, "UDP policy mode is unsupported"@)),
            Some(Err(e)) => Some(e),
            Some(Ok(_)) => if has_protocol_fields(probe) {
                Some(
                    invalid_plan(
                        op,
                        "protocol-only UDP policy fields are not valid for empty or custom mode"@,
                    ),
                )
            } else if mode != "custom"@ && probe.udp_correlation is Some {
                Some(invalid_plan(op, "correlation is valid only for custom UDP policy"@))
            } else {
                None
            },
        }
    }
}

/// The failure of one probe definition, if it has one: what `parse_probe`
/// refuses.
pub open spec fn probe_failure(probe: NativeScanProbe) -> Option<ScannerErrorView> {
    let payload = probe_payload(probe);
    if payload.len() > MAX_UDP_USER_PAYLOAD_BYTES {
        Some(
            invalid_plan(
                "validate UDP payload"@,
                "UDP payload plus correlation, UDP, and IPv4 headers exceeds the maximum IP packet length"@,
            ),
        )
    } else {
        match expanded_ports(probe_ranges(probe), Seq::empty()) {
            Err(e) => Some(e),
            Ok(_) => match probe_family_of(probe.kind@, opt_text(probe.family)) {
                None => Some(
                    invalid_plan(
                        "validate scan probe"@,
                        "unsupported probe kind/family combination"@,
                    ),
                ),
                Some(family) => if family != ProbeFamily::Udp {
                    if has_udp_fields(probe) {
                        Some(
                            invalid_plan(
                                "validate scan probe"@,
                                "payload is supported only for UDP probes"@,
                            ),
                        )
                    } else {
                        None
                    }
                } else {
                    udp_policy_failure(probe, payload)
                },
            },
        }
    }
}

/// Whether a probe names the UDP family.
pub open spec fn is_udp_probe(probe: NativeScanProbe) -> bool {
    probe_family_of(probe.kind@, opt_text(probe.family)) == Some(ProbeFamily::Udp)
}

/// Whether a UDP probe selects the protocol-catalogue policy.
pub open spec fn is_catalogue_policy(probe: NativeScanProbe) -> bool {
    policy_mode(probe, probe_payload(probe)) == "protocol"@
}

/// The profile, intensity, consents and fallback of a catalogue policy.
pub open spec fn catalogue_policy(probe: NativeScanProbe) -> (
    crate::probe::UdpStrategy,
    crate::probe::UdpProfile,
    nat,
    nat,
    crate::probe::UdpFallback,
) {
    protocol_policy_of(probe, consent_bits(probe.udp_allow_risks)->Ok_0)
}

/// The catalogue requests a catalogue policy selects, per address family,
/// before its fallback request.
pub open spec fn catalogue_selection(catalogue: Seq<CatalogueEntry>, probe: NativeScanProbe) -> Result<
    (Seq<CatalogueRequest>, Seq<CatalogueRequest>),
    ScannerErrorView,
> {
    let policy = catalogue_policy(probe);
    catalogue_requests(
        catalogue,
        policy.1,
        policy.2 as u8,
        policy.3 as u8,
        catalogue.len() as int,
    )
}

/// The programme of a catalogue policy: the selected requests, then the
/// fallback request for both families unless the policy sends none.
pub open spec fn catalogue_programme(catalogue: Seq<CatalogueEntry>, probe: NativeScanProbe) -> (
    Seq<CatalogueRequest>,
    Seq<CatalogueRequest>,
) {
    let (v4, v6) = catalogue_selection(catalogue, probe)->Ok_0;
    match fallback_request(catalogue_policy(probe).4) {
        Some(extra) => (v4.push(extra), v6.push(extra)),
        None => (v4, v6),
    }
}

/// The failure building a UDP probe's catalogue programme meets, if any.
pub open spec fn programme_failure(catalogue: Seq<CatalogueEntry>, probe: NativeScanProbe) -> Option<
    ScannerErrorView,
> {
    if is_catalogue_policy(probe) {
        match catalogue_selection(catalogue, probe) {
            Err(e) => Some(e),
            Ok(_) => None,
        }
    } else {
        None
    }
}

/// The failure of a plan that lists a second UDP probe.
pub open spec fn second_udp_failure() -> ScannerErrorView {
    invalid_plan(
        "validate scan probes"@,
        "a scan plan may contain exactly one UDP probe definition"@,
    )
}

/// The first failure of the probes from index `i` on, in order: a probe's
/// own failure, then the failure of a UDP probe's catalogue programme, then
/// a UDP probe after another (`saw_udp` says whether one came before `i`).
pub open spec fn probes_failure(
    catalogue: Seq<CatalogueEntry>,
    probes: Seq<NativeScanProbe>,
    i: int,
    saw_udp: bool,
) -> Option<ScannerErrorView>
    decreases probes.len() - i,
{
    if i < 0 || i >= probes.len() {
        None
    } else {
        match probe_failure(probes[i]) {
            Some(e) => Some(e),
            None => if is_udp_probe(probes[i]) {
                match programme_failure(catalogue, probes[i]) {
                    Some(e) => Some(e),
                    None => if saw_udp {
                        Some(second_udp_failure())
                    } else {
                        probes_failure(catalogue, probes, i + 1, true)
                    },
                }
            } else {
                probes_failure(catalogue, probes, i + 1, saw_udp)
            },
        }
    }
}

/// The first UDP probe of a list, if there is one.
pub open spec fn udp_probe_of(probes: Seq<NativeScanProbe>) -> Option<NativeScanProbe>
    decreases probes.len(),
{
    if probes.len() == 0 {
        None
    } else {
        match udp_probe_of(probes.drop_last()) {
            Some(p) => Some(p),
            None => if is_udp_probe(probes.last()) {
                Some(probes.last())
            } else {
                None
            },
        }
    }
}

/// The family and ports of one admitted probe.
#[derive(Debug)]
pub struct ProbeSelection {
    pub family: ProbeFamily,
    pub ports: Vec<u16>,
}

/// The admitted probes of a plan, with the UDP policy of its UDP probe and,
/// for the catalogue policy, the programme it selects.
#[derive(Debug)]
pub struct AdmittedProbes {
    pub selections: Vec<ProbeSelection>,
    pub udp_policy: Option<UdpPolicy>,
    pub udp_catalogue: Option<CatalogueProgram>,
}

/// Whether a selection is what a probe gives: its family and its ports.
pub open spec fn selects_probe(probe: NativeScanProbe, selection: ProbeSelection) -> bool {
    &&& probe_family_of(probe.kind@, opt_text(probe.family)) == Some(selection.family)
    &&& expanded_ports(probe_ranges(probe), Seq::empty()) == Ok::<
        Seq<u16>,
        ScannerErrorView,
    >(selection.ports@)
}

/// Whether a UDP policy and catalogue programme are what a UDP probe
/// selects.
pub open spec fn admits_udp(
    catalogue: Seq<CatalogueEntry>,
    probe: NativeScanProbe,
    policy: Option<UdpPolicy>,
    programme: Option<CatalogueProgram>,
) -> bool {
    &&& probe_payload(probe).len() <= MAX_UDP_USER_PAYLOAD_BYTES
    &&& policy matches Some(p) && selects_udp_policy(probe, probe_payload(probe), Ok(p))
    &&& (programme is Some <==> is_catalogue_policy(probe))
    &&& (programme matches Some(g) ==> catalogue_selection(catalogue, probe) is Ok && (
    g.ipv4@, g.ipv6@) == catalogue_programme(catalogue, probe))
}

/// Whether `admitted` is what the probes give.
pub open spec fn admits_probes(
    catalogue: Seq<CatalogueEntry>,
    probes: Seq<NativeScanProbe>,
    admitted: AdmittedProbes,
) -> bool {
    &&& admitted.selections@.len() == probes.len()
    &&& forall|j: int|
        0 <= j < probes.len() ==> #[trigger] selects_probe(probes[j], admitted.selections@[j])
    &&& match udp_probe_of(probes) {
        None => admitted.udp_policy is None && admitted.udp_catalogue is None,
        Some(p) => admits_udp(catalogue, p, admitted.udp_policy, admitted.udp_catalogue),
    }
}

proof fn lemma_udp_policy_outcome(probe: NativeScanProbe, payload: Seq<u8>, r: Result<
    UdpPolicy,
    ScannerError,
>)
    requires
        selects_udp_policy(probe, payload, r),
    ensures
        r is Err <==> udp_policy_failure(probe, payload) is Some,
        r matches Err(e) ==> udp_policy_failure(probe, payload) == Some(e@),
{
}

proof fn lemma_parse_outcome(probe: NativeScanProbe, r: Result<
    (ProbeFamily, Vec<u16>, Option<UdpPolicy>),
    ScannerError,
>)
    requires
        parses_probe(probe, r),
    ensures
        r is Err <==> probe_failure(probe) is Some,
        r matches Err(e) ==> probe_failure(probe) == Some(e@),
        r matches Ok((f, ports, policy)) ==> (probe_payload(probe).len()
            <= MAX_UDP_USER_PAYLOAD_BYTES && selects_probe(
            probe,
            ProbeSelection { family: f, ports },
        ) && (f == ProbeFamily::Udp <==> policy is Some) && (policy matches Some(p)
            ==> selects_udp_policy(probe, probe_payload(probe), Ok(p)))),
{
    let payload = probe_payload(probe);
    if payload.len() <= MAX_UDP_USER_PAYLOAD_BYTES {
        if let Ok(_) = expanded_ports(probe_ranges(probe), Seq::empty()) {
            if let Some(family) = probe_family_of(probe.kind@, opt_text(probe.family)) {
                if family == ProbeFamily::Udp {
                    match r {
                        Ok((_, _, Some(policy))) => {
                            lemma_udp_policy_outcome(probe, payload, Ok(policy));
                        },
                        Err(e) => {
                            lemma_udp_policy_outcome(probe, payload, Err(e));
                        },
                        _ => {},
                    }
                }
            }
        }
    }
}

proof fn lemma_udp_probe_step(probes: Seq<NativeScanProbe>, i: int)
    requires
        0 <= i < probes.len(),
    ensures
        udp_probe_of(probes.take(i + 1)) == match udp_probe_of(probes.take(i)) {
            Some(p) => Some(p),
            None => if is_udp_probe(probes[i]) {
                Some(probes[i])
            } else {
                None
            },
        },
{
    assert(probes.take(i + 1).drop_last() =~= probes.take(i));
}

/// Parses a plan's probes in order: each probe's definition, and for its UDP
/// probe the UDP policy and, for the catalogue policy, the programme that
/// policy selects from `catalogue`. Fails at the first probe that is
/// refused, whose catalogue programme fails, or that is a second UDP probe.
pub fn admit_scan_probes(probes: &[NativeScanProbe], catalogue: &[CatalogueEntry]) -> (r: Result<
    AdmittedProbes,
    ScannerError,
>)
    ensures
        match probes_failure(catalogue@, probes@, 0, false) {
            Some(e) => scan_fails_with(r, e),
            None => r matches Ok(admitted) && admits_probes(catalogue@, probes@, admitted),
        },
{
    let mut selections: Vec<ProbeSelection> = Vec::new();
    let mut udp_policy: Option<UdpPolicy> = None;
    let mut udp_catalogue: Option<CatalogueProgram> = None;
    let mut saw_udp = false;
    let mut i: usize = 0;
    proof {
        assert(probes@.take(0) =~= Seq::<NativeScanProbe>::empty());
    }
    while i < probes.len()
        invariant
            i <= probes@.len(),
            probes_failure(catalogue@, probes@, 0, false) == probes_failure(
                catalogue@,
                probes@,
                i as int,
                saw_udp,
            ),
            selections@.len() == i,
            forall|j: int| 0 <= j < i ==> #[trigger] selects_probe(probes@[j], selections@[j]),
            saw_udp == (udp_probe_of(probes@.take(i as int)) is Some),
            match udp_probe_of(probes@.take(i as int)) {
                None => udp_policy is None && udp_catalogue is None,
                Some(p) => admits_udp(catalogue@, p, udp_policy, udp_catalogue),
            },
        decreases probes@.len() - i,
    {
        let probe = &probes[i];
        let parsed = parse_probe(probe);
        proof {
            lemma_parse_outcome(*probe, parsed);
            lemma_udp_probe_step(probes@, i as int);
        }
        match parsed {
            Err(e) => {
                return Err(e);
            },
            Ok((family, ports, policy)) => {
                match policy {
                    Some(pol) => {
                        let programme = match &pol {
                            UdpPolicy::Protocol {
                                strategy,
                                profile,
                                intensity,
                                allowed_risks,
                                empty_fallback,
                            } => {
                                match catalogue_program(
                                    catalogue,
                                    *profile,
                                    *intensity,
                                    *allowed_risks,
                                    *empty_fallback,
                                ) {
                                    Ok(g) => Some(g),
                                    Err(e) => {
                                        return Err(e);
                                    },
                                }
                            },
                            UdpPolicy::Payload { .. } => None,
                        };
                        if saw_udp {
                            return Err(
                                ScannerError::invalid(
                                    "validate scan probes",
                                    "a scan plan may contain exactly one UDP probe definition",
                                ),
                            );
                        }
                        saw_udp = true;
                        udp_policy = Some(pol);
                        udp_catalogue = programme;
                    },
                    None => {},
                }
                selections.push(ProbeSelection { family, ports });
            },
        }
        i = i + 1;
    }
    proof {
        assert(probes@.take(probes@.len() as int) =~= probes@);
    }
    Ok(AdmittedProbes { selections, udp_policy, udp_catalogue })
}

/// The catalogue requests of a plan's UDP programme, per address family:
/// none unless its UDP probe selects the catalogue policy.
pub open spec fn udp_catalogue_requests(
    catalogue: Seq<CatalogueEntry>,
    probes: Seq<NativeScanProbe>,
) -> (Seq<CatalogueRequest>, Seq<CatalogueRequest>) {
    match udp_probe_of(probes) {
        Some(p) => if is_catalogue_policy(p) {
            catalogue_programme(catalogue, p)
        } else {
            (Seq::empty(), Seq::empty())
        },
        None => (Seq::empty(), Seq::empty()),
    }
}

/// Whether a request with a state lifetime would outlive it: a nonzero
/// lifetime below the maximum timeout.
pub open spec fn outlives_in(requests: Seq<CatalogueRequest>, maximum_timeout_ms: u32) -> bool {
    exists|i: int|
        0 <= i < requests.len() && #[trigger] requests[i].maximum_state_lifetime_ms != 0
            && maximum_timeout_ms > requests[i].maximum_state_lifetime_ms
}

/// Whether a request is served by a catalogue probe's request builder.
pub open spec fn uses_catalogue_probe(requests: Seq<CatalogueRequest>) -> bool {
    exists|i: int| 0 <= i < requests.len() && (#[trigger] requests[i]).catalogue_probe_id is Some
}

/// The payload bytes a plan's UDP programme carries: a payload policy's
/// payload once for each address family it sends to; the catalogue builds
/// its requests itself.
pub open spec fn udp_payload_bytes(probes: Seq<NativeScanProbe>) -> nat {
    match udp_probe_of(probes) {
        Some(p) => if is_catalogue_policy(p) {
            0
        } else if payload_family(p) == PayloadFamily::Both {
            2 * probe_payload(p).len()
        } else {
            probe_payload(p).len()
        },
        None => 0,
    }
}

/// The maximum timeout a plan's timing gives: the larger of the initial
/// timeout and 10 s unless set.
pub open spec fn maximum_timeout_of(timing: NativeTimingOptions) -> u32 {
    let initial = or_default(timing.timeout_ms, DEFAULT_TIMEOUT_MS);
    or_default(
        timing.maximum_timeout_ms,
        if initial > 10000 {
            initial
        } else {
            10000
        },
    )
}

/// The failure of a catalogue policy sent to multicast or limited-broadcast
/// targets: it needs the consent and an explicit interface.
pub open spec fn multicast_failure(plan: NativeScanPlan, targets_multicast: bool) -> Option<
    ScannerErrorView,
> {
    match udp_probe_of(plan.probes@) {
        Some(p) => if is_catalogue_policy(p) && targets_multicast {
            if (catalogue_policy(p).3 as u8) & 8u8 == 0u8 {
                Some(
                    invalid_plan(
                        "validate UDP targets"@,
                        "multicast or limited-broadcast protocol targets require multicastOrBroadcast consent"@,
                    ),
                )
            } else if plan.interface is None {
                Some(
                    invalid_plan(
                        "validate UDP targets"@,
                        "multicast or limited-broadcast protocol targets require an explicit interface"@,
                    ),
                )
            } else {
                None
            }
        } else {
            None
        },
        None => None,
    }
}

/// The failure of a VLAN override, if it has one.
pub open spec fn vlan_failure(value: NativeVlanOptions) -> Option<ScannerErrorView> {
    if value.identifier == 0 || value.identifier > 4094 {
        Some(invalid_plan("validate VLAN"@, "VLAN identifier must be from 1 through 4094"@))
    } else if value.priority matches Some(p) && p > 7 {
        Some(invalid_plan("validate VLAN"@, "VLAN priority must be from 0 through 7"@))
    } else {
        None
    }
}

/// The override a valid VLAN option gives: priority 0 and no drop
/// eligibility unless set.
pub open spec fn vlan_override(value: NativeVlanOptions) -> VlanOverride {
    VlanOverride {
        identifier: value.identifier as u16,
        priority: match value.priority {
            Some(p) => p as u8,
            None => 0,
        },
        drop_eligible: match value.drop_eligible {
            Some(d) => d,
            None => false,
        },
    }
}

/// The seed of a plan: zero unless set.
pub open spec fn seed_of(seed: Option<String>) -> Option<u64> {
    match seed {
        None => Some(0),
        Some(s) => decimal_u64(s@),
    }
}

/// The first failure of a plan after its probes, in order: multicast
/// consent, the stateful UDP lifetimes, the retries, the source address,
/// the source ports, the payload budget, the VLAN override, the seed.
pub open spec fn plan_options_failure(
    plan: NativeScanPlan,
    catalogue: Seq<CatalogueEntry>,
    targets_multicast: bool,
    source_address_parses: bool,
) -> Option<ScannerErrorView> {
    let timing = timing_or_default(plan.timing);
    let maximum = maximum_timeout_of(timing);
    let requests = udp_catalogue_requests(catalogue, plan.probes@);
    let settings = scheduler_settings_of(plan.deadline_ms, rate_or_default(plan.rate), timing);
    if multicast_failure(plan, targets_multicast) is Some {
        multicast_failure(plan, targets_multicast)
    } else if outlives_in(requests.0, maximum) || outlives_in(requests.1, maximum) {
        Some(
            invalid_plan(
                "validate UDP timing"@,
                "maximumTimeoutMs exceeds a selected stateful UDP probe lifetime"@,
            ),
        )
    } else if or_default(timing.retries, DEFAULT_RETRIES) > 255 {
        Some(invalid_plan("validate timing"@, "retries must not exceed 10"@))
    } else if !source_address_parses {
        Some(invalid_plan("validate address"@, "sourceAddress is not an IPv4/IPv6 address"@))
    } else if source_port_failure(
        or_default(plan.source_port_start, DEFAULT_SOURCE_PORT_START as u32),
        or_default(plan.source_port_end, DEFAULT_SOURCE_PORT_END as u32),
        settings.max_outstanding,
    ) is Some {
        source_port_failure(
            or_default(plan.source_port_start, DEFAULT_SOURCE_PORT_START as u32),
            or_default(plan.source_port_end, DEFAULT_SOURCE_PORT_END as u32),
            settings.max_outstanding,
        )
    } else if udp_payload_bytes(plan.probes@) > MAX_TEMPLATE_PAYLOAD_BYTES {
        Some(
            scan_failure(
                ScanFailure::Resource,
                "validate UDP payload"@,
                "UDP payloads exceed the 1 MiB session template budget"@,
            ),
        )
    } else if plan.vlan matches Some(v) && vlan_failure(v) is Some {
        vlan_failure(plan.vlan->Some_0)
    } else if seed_of(plan.seed) is None {
        Some(invalid_plan("validate seed"@, "seed must fit an unsigned 64-bit integer"@))
    } else {
        None
    }
}

/// The first failure of a scan plan: a zero deadline, then its probes,
/// then its options.
pub open spec fn scan_plan_failure(
    plan: NativeScanPlan,
    catalogue: Seq<CatalogueEntry>,
    targets_multicast: bool,
    source_address_parses: bool,
) -> Option<ScannerErrorView> {
    if plan.deadline_ms == 0 {
        Some(invalid_plan("validate scan plan"@, "deadlineMs must be greater than zero"@))
    } else {
        match probes_failure(catalogue, plan.probes@, 0, false) {
            Some(e) => Some(e),
            None => plan_options_failure(plan, catalogue, targets_multicast, source_address_parses),
        }
    }
}

/// An admitted scan plan: its probes and UDP programme, its scheduler
/// settings, source ports, VLAN override, seed, and the schema version of
/// its results (2 where a catalogue probe's builder serves a request).
#[derive(Debug)]
pub struct ValidatedScanPlan {
    pub probes: AdmittedProbes,
    pub scheduler: SchedulerSettings,
    pub source_port_start: u16,
    pub source_port_end: u16,
    pub vlan: Option<VlanOverride>,
    pub seed: u64,
    pub result_schema_version: u32,
}

fn maximum_timeout(timing: Option<NativeTimingOptions>) -> (r: u32)
    ensures
        r == maximum_timeout_of(timing_or_default(timing)),
{
    let (timeout, maximum) = match timing {
        Some(t) => (t.timeout_ms, t.maximum_timeout_ms),
        None => (None, None),
    };
    let initial = match timeout {
        Some(v) => v,
        None => DEFAULT_TIMEOUT_MS,
    };
    match maximum {
        Some(v) => v,
        None => if initial > 10000 {
            initial
        } else {
            10000
        },
    }
}

fn requests_outlive(requests: &Vec<CatalogueRequest>, maximum_timeout_ms: u32) -> (r: bool)
    ensures
        r == outlives_in(requests@, maximum_timeout_ms),
{
    let mut i: usize = 0;
    while i < requests.len()
        invariant
            i <= requests@.len(),
            forall|j: int|
                0 <= j < i ==> !(#[trigger] requests@[j].maximum_state_lifetime_ms != 0
                    && maximum_timeout_ms > requests@[j].maximum_state_lifetime_ms),
        decreases requests@.len() - i,
    {
        let lifetime = requests[i].maximum_state_lifetime_ms;
        if lifetime != 0 && maximum_timeout_ms > lifetime {
            return true;
        }
        i = i + 1;
    }
    false
}

fn requests_use_catalogue(requests: &Vec<CatalogueRequest>) -> (r: bool)
    ensures
        r == uses_catalogue_probe(requests@),
{
    let mut i: usize = 0;
    while i < requests.len()
        invariant
            i <= requests@.len(),
            forall|j: int| 0 <= j < i ==> (#[trigger] requests@[j]).catalogue_probe_id is None,
        decreases requests@.len() - i,
    {
        if requests[i].catalogue_probe_id.is_some() {
            return true;
        }
        i = i + 1;
    }
    false
}

/// Admits a scan plan. The scan engine parses and normalizes the targets
/// first; `targets_multicast` says whether the normalized targets hold a
/// multicast or limited-broadcast address, `source_address_parses` whether
/// the source address, where one is set, is an IPv4 or IPv6 address, and
/// `catalogue` is the UDP protocol catalogue. Fails with the first failure
/// `scan_plan_failure` names; otherwise returns the admitted probes and the
/// filled-in options.
pub fn validate_scan_plan(
    plan: &NativeScanPlan,
    catalogue: &[CatalogueEntry],
    targets_multicast: bool,
    source_address_parses: bool,
) -> (r: Result<ValidatedScanPlan, ScannerError>)
    ensures
        match scan_plan_failure(*plan, catalogue@, targets_multicast, source_address_parses) {
            Some(e) => scan_fails_with(r, e),
            None => r matches Ok(v) && admits_probes(catalogue@, plan.probes@, v.probes)
                && v.scheduler == scheduler_settings_of(
                plan.deadline_ms,
                rate_or_default(plan.rate),
                timing_or_default(plan.timing),
            ) && v.source_port_start == or_default(
                plan.source_port_start,
                DEFAULT_SOURCE_PORT_START as u32,
            ) && v.source_port_end == or_default(
                plan.source_port_end,
                DEFAULT_SOURCE_PORT_END as u32,
            ) && v.vlan == (match plan.vlan {
                Some(x) => Some(vlan_override(x)),
                None => None,
            }) && Some(v.seed) == seed_of(plan.seed) && v.result_schema_version == (if uses_catalogue_probe(
                udp_catalogue_requests(catalogue@, plan.probes@).0,
            ) || uses_catalogue_probe(udp_catalogue_requests(catalogue@, plan.probes@).1) {
                2u32
            } else {
                1u32
            }),
        },
{
    if plan.deadline_ms == 0 {
        return Err(ScannerError::invalid("validate scan plan", "deadlineMs must be greater than zero"));
    }
    let admitted = match admit_scan_probes(plan.probes.as_slice(), catalogue) {
        Ok(a) => a,
        Err(e) => {
            return Err(e);
        },
    };
    if targets_multicast {
        match &admitted.udp_policy {
            Some(UdpPolicy::Protocol { allowed_risks, .. }) => {
                if *allowed_risks & 8u8 == 0 {
                    return Err(
                        ScannerError::invalid(
                            "validate UDP targets",
                            "multicast or limited-broadcast protocol targets require multicastOrBroadcast consent",
                        ),
                    );
                }
                if plan.interface.is_none() {
                    return Err(
                        ScannerError::invalid(
                            "validate UDP targets",
                            "multicast or limited-broadcast protocol targets require an explicit interface",
                        ),
                    );
                }
            },
            _ => {},
        }
    }
    let maximum = maximum_timeout(plan.timing);
    let (outlive, served) = match &admitted.udp_catalogue {
        Some(g) => (
            requests_outlive(&g.ipv4, maximum) || requests_outlive(&g.ipv6, maximum),
            requests_use_catalogue(&g.ipv4) || requests_use_catalogue(&g.ipv6),
        ),
        None => (false, false),
    };
    if outlive {
        return Err(
            ScannerError::invalid(
                "validate UDP timing",
                "maximumTimeoutMs exceeds a selected stateful UDP probe lifetime",
            ),
        );
    }
    let scheduler = match scheduler_settings(plan.deadline_ms, plan.rate, plan.timing) {
        Ok(s) => s,
        Err(e) => {
            return Err(e);
        },
    };
    if !source_address_parses {
        return Err(
            ScannerError::invalid("validate address", "sourceAddress is not an IPv4/IPv6 address"),
        );
    }
    let (start, end) = match admit_source_ports(
        plan.source_port_start,
        plan.source_port_end,
        scheduler.max_outstanding,
    ) {
        Ok(ports) => ports,
        Err(e) => {
            return Err(e);
        },
    };
    let payload_bytes: usize = match &admitted.udp_policy {
        Some(UdpPolicy::Payload { family, payload, .. }) => match family {
            PayloadFamily::Both => 2 * payload.len(),
            _ => payload.len(),
        },
        _ => 0,
    };
    if payload_bytes > MAX_TEMPLATE_PAYLOAD_BYTES {
        return Err(
            ScannerError::resource(
                "validate UDP payload",
                "UDP payloads exceed the 1 MiB session template budget",
            ),
        );
    }
    let vlan = match &plan.vlan {
        Some(v) => match validate_vlan(v) {
            Ok(o) => Some(o),
            Err(e) => {
                return Err(e);
            },
        },
        None => None,
    };
    let seed = match parse_seed(&plan.seed) {
        Ok(s) => s,
        Err(e) => {
            return Err(e);
        },
    };
    let result_schema_version: u32 = if served {
        2
    } else {
        1
    };
    Ok(
        ValidatedScanPlan {
            probes: admitted,
            scheduler,
            source_port_start: start,
            source_port_end: end,
            vlan,
            seed,
            result_schema_version,
        },
    )
}

proof fn lemma_udp_pair_fails(
    catalogue: Seq<CatalogueEntry>,
    probes: Seq<NativeScanProbe>,
    k: int,
    saw_udp: bool,
    i: int,
    j: int,
)
    requires
        0 <= k <= j < probes.len(),
        i < j,
        is_udp_probe(probes[i]),
        is_udp_probe(probes[j]),
        saw_udp || k <= i,
    ensures
        probes_failure(catalogue, probes, k, saw_udp) is Some,
    decreases j - k,
{
    if probe_failure(probes[k]) is None && !(is_udp_probe(probes[k]) && programme_failure(
        catalogue,
        probes[k],
    ) is Some) && k < j {
        if is_udp_probe(probes[k]) {
            if !saw_udp {
                lemma_udp_pair_fails(catalogue, probes, k + 1, true, i, j);
            }
        } else {
            lemma_udp_pair_fails(catalogue, probes, k + 1, saw_udp, i, j);
        }
    }
}

/// A scan plan carries at most one UDP probe definition: any plan that lists
/// two UDP probes is refused, whatever else it holds.
pub proof fn second_udp_probe_is_refused(
    plan: NativeScanPlan,
    catalogue: Seq<CatalogueEntry>,
    targets_multicast: bool,
    source_address_parses: bool,
    i: int,
    j: int,
)
    requires
        0 <= i < j < plan.probes@.len(),
        is_udp_probe(plan.probes@[i]),
        is_udp_probe(plan.probes@[j]),
    ensures
        scan_plan_failure(plan, catalogue, targets_multicast, source_address_parses) is Some,
{
    lemma_udp_pair_fails(catalogue, plan.probes@, 0, false, i, j);
}

} // verus!

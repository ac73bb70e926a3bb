//! The request programme of the UDP protocol-catalogue policy: each
//! catalogue probe the policy's profile, intensity and risk consents admit
//! becomes one request per destination port range, for each address family
//! it serves, followed by the fallback request the policy asks for.
use vstd::prelude::*;

use crate::discovery_products::AddressFamilies;
use crate::plan::{checked_port, port_message};
use crate::probe::{profile_admits, profile_includes, risks_are_allowed, UdpFallback, UdpProfile};
use crate::scan_error::{invalid_plan, scan_failure, ScanFailure, ScannerError, ScannerErrorView};

verus! {

/// What the protocol catalogue says of one UDP probe.
#[derive(Clone, Debug)]
pub struct CatalogueEntry {
    pub id: u16,
    /// The request builder that serves the probe, where this build knows it.
    pub builder: Option<u16>,
    pub profile: UdpProfile,
    pub minimum_intensity: u8,
    /// The risk consent bits the probe needs.
    pub risks: u8,
    /// Whether the probe sends from an ephemeral source port.
    pub ephemeral_source: bool,
    /// Whether replies must come back on the request's own tuple.
    pub request_tuple_only: bool,
    /// The destination port ranges, each from its first to its last port.
    pub ports: Vec<(u16, u16)>,
    pub families: AddressFamilies,
    pub maximum_response_bytes: usize,
    pub maximum_parser_bytes: usize,
    pub maximum_state_lifetime_ms: u32,
    pub service_family: u16,
}

/// Which destinations a request is sent to.
#[derive(Clone, Copy, Debug, PartialEq, Eq, Structural)]
pub enum Eligibility {
    DestinationPort(u16),
    DestinationPortRange(u16, u16),
    /// Ports no catalogue probe covers.
    UnmappedFallback,
    /// Every port, once the catalogue probes are done.
    AfterProgrammeFallback,
}

/// One request of the catalogue programme.
#[derive(Clone, Copy, Debug, PartialEq, Eq, Structural)]
pub struct CatalogueRequest {
    pub catalogue_probe_id: Option<u16>,
    pub builder: Option<u16>,
    pub maximum_response_bytes: usize,
    pub maximum_parser_bytes: usize,
    pub maximum_state_lifetime_ms: u32,
    pub service_family: Option<u16>,
    pub eligibility: Eligibility,
}

/// The requests of the catalogue programme, per address family.
#[derive(Clone, Debug)]
pub struct CatalogueProgram {
    pub ipv4: Vec<CatalogueRequest>,
    pub ipv6: Vec<CatalogueRequest>,
}

/// Whether the policy selects a catalogue probe: its profile admits the
/// probe's, the probe's intensity is reached, and every risk it needs is
/// consented to.
pub open spec fn entry_selected(entry: CatalogueEntry, profile: UdpProfile, intensity: u8, allowed_risks: u8) -> bool {
    &&& profile_admits(profile, entry.profile)
    &&& entry.minimum_intensity <= intensity
    &&& entry.risks & allowed_risks == entry.risks
}

/// The failure of a selected probe with a source or reply policy the
/// scanner does not support.
pub open spec fn unsupported_endpoint_policy() -> ScannerErrorView {
    scan_failure(
        ScanFailure::Unsupported,
        "validate UDP catalogue"@,
        "selected UDP probe requires an unsupported source or response endpoint policy"@,
    )
}

/// The failure of a catalogue port outside 1 through 65535.
pub open spec fn catalogue_port_failure() -> ScannerErrorView {
    invalid_plan("validate port"@, port_message("catalogue port"@))
}

/// The request of a catalogue probe for one port range.
pub open spec fn range_request(entry: CatalogueEntry, builder: u16, start: u16, end: u16) -> CatalogueRequest {
    CatalogueRequest {
        catalogue_probe_id: Some(entry.id),
        builder: Some(builder),
        maximum_response_bytes: entry.maximum_response_bytes,
        maximum_parser_bytes: entry.maximum_parser_bytes,
        maximum_state_lifetime_ms: entry.maximum_state_lifetime_ms,
        service_family: Some(entry.service_family),
        eligibility: if start == end {
            Eligibility::DestinationPort(start)
        } else {
            Eligibility::DestinationPortRange(start, end)
        },
    }
}

/// The requests of a catalogue probe for its first `m` port ranges.
pub open spec fn range_requests(entry: CatalogueEntry, builder: u16, m: int) -> Result<
    Seq<CatalogueRequest>,
    ScannerErrorView,
>
    decreases m,
{
    if m <= 0 {
        Ok(Seq::empty())
    } else {
        match range_requests(entry, builder, m - 1) {
            Err(e) => Err(e),
            Ok(requests) => {
                let (start, end) = entry.ports@[m - 1];
                if start == 0 || end == 0 {
                    Err(catalogue_port_failure())
                } else {
                    Ok(requests.push(range_request(entry, builder, start, end)))
                }
            },
        }
    }
}

/// The requests one catalogue probe contributes: none where the policy does
/// not select it or no builder serves it, a failure where its endpoint
/// policy is unsupported, else one per port range.
pub open spec fn entry_requests(entry: CatalogueEntry, profile: UdpProfile, intensity: u8, allowed_risks: u8) -> Result<
    Seq<CatalogueRequest>,
    ScannerErrorView,
> {
    if !entry_selected(entry, profile, intensity, allowed_risks) {
        Ok(Seq::empty())
    } else if !(entry.ephemeral_source && entry.request_tuple_only) {
        Err(unsupported_endpoint_policy())
    } else {
        match entry.builder {
            None => Ok(Seq::empty()),
            Some(builder) => range_requests(entry, builder, entry.ports@.len() as int),
        }
    }
}

/// Whether an address family set includes IPv4.
pub open spec fn serves_ipv4(families: AddressFamilies) -> bool {
    families != AddressFamilies::Ipv6
}

/// Whether an address family set includes IPv6.
pub open spec fn serves_ipv6(families: AddressFamilies) -> bool {
    families != AddressFamilies::Ipv4
}

/// The IPv4 and IPv6 requests of the first `n` catalogue probes.
pub open spec fn catalogue_requests(
    catalogue: Seq<CatalogueEntry>,
    profile: UdpProfile,
    intensity: u8,
    allowed_risks: u8,
    n: int,
) -> Result<(Seq<CatalogueRequest>, Seq<CatalogueRequest>), ScannerErrorView>
    decreases n,
{
    if n <= 0 {
        Ok((Seq::empty(), Seq::empty()))
    } else {
        match catalogue_requests(catalogue, profile, intensity, allowed_risks, n - 1) {
            Err(e) => Err(e),
            Ok((v4, v6)) => match entry_requests(catalogue[n - 1], profile, intensity, allowed_risks) {
                Err(e) => Err(e),
                Ok(requests) => Ok(
                    (
                        if serves_ipv4(catalogue[n - 1].families) {
                            v4 + requests
                        } else {
                            v4
                        },
                        if serves_ipv6(catalogue[n - 1].families) {
                            v6 + requests
                        } else {
                            v6
                        },
                    ),
                ),
            },
        }
    }
}

/// The fallback request of a policy, unless it sends none.
pub open spec fn fallback_request(fallback: UdpFallback) -> Option<CatalogueRequest> {
    match fallback {
        UdpFallback::Never => None,
        _ => Some(
            CatalogueRequest {
                catalogue_probe_id: None,
                builder: None,
                maximum_response_bytes: 0,
                maximum_parser_bytes: 0,
                maximum_state_lifetime_ms: 0,
                service_family: None,
                eligibility: if fallback == UdpFallback::AfterProtocol {
                    Eligibility::AfterProgrammeFallback
                } else {
                    Eligibility::UnmappedFallback
                },
            },
        ),
    }
}

/// Appends the requests of one selected, supported probe for its port
/// ranges.
fn add_range_requests(
    entry: &CatalogueEntry,
    builder: u16,
    ipv4: &mut Vec<CatalogueRequest>,
    ipv6: &mut Vec<CatalogueRequest>,
) -> (r: Result<(), ScannerError>)
    ensures
        match (r, range_requests(*entry, builder, entry.ports@.len() as int)) {
            (Ok(_), Ok(requests)) => {
                &&& final(ipv4)@ == if serves_ipv4(entry.families) {
                    old(ipv4)@ + requests
                } else {
                    old(ipv4)@
                }
                &&& final(ipv6)@ == if serves_ipv6(entry.families) {
                    old(ipv6)@ + requests
                } else {
                    old(ipv6)@
                }
            },
            (Err(e), Err(v)) => e@ == v,
            _ => false,
        },
{
    let ghost start4 = ipv4@;
    let ghost start6 = ipv6@;
    let mut j: usize = 0;
    while j < entry.ports.len()
        invariant
            j <= entry.ports@.len(),
            range_requests(*entry, builder, j as int) matches Ok(requests) && ipv4@ == (if serves_ipv4(
                entry.families,
            ) {
                start4 + requests
            } else {
                start4
            }) && ipv6@ == (if serves_ipv6(entry.families) {
                start6 + requests
            } else {
                start6
            }),
        decreases entry.ports@.len() - j,
    {
        let ghost prior = range_requests(*entry, builder, j as int)->Ok_0;
        let (start, end) = entry.ports[j];
        let checked = match checked_port(start as u32, "catalogue port") {
            Ok(_) => checked_port(end as u32, "catalogue port"),
            Err(e) => Err(e),
        };
        match checked {
            Ok(_) => {},
            Err(e) => {
                proof {
                    lemma_range_failure_sticks(*entry, builder, j + 1, entry.ports@.len() as int);
                }
                return Err(e);
            },
        }
        let request = CatalogueRequest {
            catalogue_probe_id: Some(entry.id),
            builder: Some(builder),
            maximum_response_bytes: entry.maximum_response_bytes,
            maximum_parser_bytes: entry.maximum_parser_bytes,
            maximum_state_lifetime_ms: entry.maximum_state_lifetime_ms,
            service_family: Some(entry.service_family),
            eligibility: if start == end {
                Eligibility::DestinationPort(start)
            } else {
                Eligibility::DestinationPortRange(start, end)
            },
        };
        match entry.families {
            AddressFamilies::Ipv4 => ipv4.push(request),
            AddressFamilies::Ipv6 => ipv6.push(request),
            AddressFamilies::Both => {
                ipv4.push(request);
                ipv6.push(request);
            },
        }
        proof {
            assert(request == range_request(*entry, builder, start, end));
            assert(start4 + prior.push(request) =~= (start4 + prior).push(request));
            assert(start6 + prior.push(request) =~= (start6 + prior).push(request));
        }
        j = j + 1;
    }
    Ok(())
}

proof fn lemma_range_failure_sticks(entry: CatalogueEntry, builder: u16, k: int, m: int)
    requires
        k <= m,
        range_requests(entry, builder, k) is Err,
    ensures
        range_requests(entry, builder, m) == range_requests(entry, builder, k),
    decreases m - k,
{
    if k < m {
        lemma_range_failure_sticks(entry, builder, k, m - 1);
    }
}

proof fn lemma_catalogue_failure_sticks(
    catalogue: Seq<CatalogueEntry>,
    profile: UdpProfile,
    intensity: u8,
    allowed_risks: u8,
    k: int,
    n: int,
)
    requires
        k <= n,
        catalogue_requests(catalogue, profile, intensity, allowed_risks, k) is Err,
    ensures
        catalogue_requests(catalogue, profile, intensity, allowed_risks, n) == catalogue_requests(
            catalogue,
            profile,
            intensity,
            allowed_risks,
            k,
        ),
    decreases n - k,
{
    if k < n {
        lemma_catalogue_failure_sticks(catalogue, profile, intensity, allowed_risks, k, n - 1);
    }
}

/// Builds the programme of the protocol-catalogue policy: the requests of
/// every catalogue probe the profile, intensity and consents select, in
/// catalogue order per address family, then the fallback request (for
/// both families) unless the policy sends none. Fails at the first
/// selected probe whose endpoint policy is unsupported or whose port range
/// is bad.
pub fn catalogue_program(
    catalogue: &[CatalogueEntry],
    profile: UdpProfile,
    intensity: u8,
    allowed_risks: u8,
    fallback: UdpFallback,
) -> (r: Result<CatalogueProgram, ScannerError>)
    ensures
        match catalogue_requests(catalogue@, profile, intensity, allowed_risks, catalogue@.len() as int) {
            Err(v) => r matches Err(e) && e@ == v,
            Ok((v4, v6)) => r matches Ok(program) && match fallback_request(fallback) {
                Some(extra) => program.ipv4@ == v4.push(extra) && program.ipv6@ == v6.push(extra),
                None => program.ipv4@ == v4 && program.ipv6@ == v6,
            },
        },
{
    let mut ipv4: Vec<CatalogueRequest> = Vec::new();
    let mut ipv6: Vec<CatalogueRequest> = Vec::new();
    let mut i: usize = 0;
    while i < catalogue.len()
        invariant
            i <= catalogue@.len(),
            catalogue_requests(catalogue@, profile, intensity, allowed_risks, i as int) == Ok::<
                (Seq<CatalogueRequest>, Seq<CatalogueRequest>),
                ScannerErrorView,
            >((ipv4@, ipv6@)),
        decreases catalogue@.len() - i,
    {
        let entry = &catalogue[i];
        let selected = profile_includes(profile, entry.profile) && entry.minimum_intensity <= intensity
            && risks_are_allowed(entry.risks, allowed_risks);
        if selected {
            if !(entry.ephemeral_source && entry.request_tuple_only) {
                proof {
                    lemma_catalogue_failure_sticks(
                        catalogue@,
                        profile,
                        intensity,
                        allowed_risks,
                        i + 1,
                        catalogue@.len() as int,
                    );
                }
                return Err(
                    ScannerError::unsupported(
                        "validate UDP catalogue",
                        "selected UDP probe requires an unsupported source or response endpoint policy",
                    ),
                );
            }
            match entry.builder {
                Some(builder) => {
                    match add_range_requests(entry, builder, &mut ipv4, &mut ipv6) {
                        Ok(_) => {},
                        Err(e) => {
                            proof {
                                lemma_catalogue_failure_sticks(
                                    catalogue@,
                                    profile,
                                    intensity,
                                    allowed_risks,
                                    i + 1,
                                    catalogue@.len() as int,
                                );
                            }
                            return Err(e);
                        },
                    }
                },
                None => {
                    proof {
                        assert(ipv4@ + Seq::<CatalogueRequest>::empty() =~= ipv4@);
                        assert(ipv6@ + Seq::<CatalogueRequest>::empty() =~= ipv6@);
                    }
                },
            }
        }
        i = i + 1;
    }
    match fallback {
        UdpFallback::Never => {},
        _ => {
            let request = CatalogueRequest {
                catalogue_probe_id: None,
                builder: None,
                maximum_response_bytes: 0,
                maximum_parser_bytes: 0,
                maximum_state_lifetime_ms: 0,
                service_family: None,
                eligibility: match fallback {
                    UdpFallback::AfterProtocol => Eligibility::AfterProgrammeFallback,
                    _ => Eligibility::UnmappedFallback,
                },
            };
            ipv4.push(request);
            ipv6.push(request);
        },
    }
    Ok(CatalogueProgram { ipv4, ipv6 })
}

} // verus!

//! Admission of a discovery plan: its deadline, the selected operations
//! checked against an operation registry and the risk consents, result
//! limits, the pacing rate, and the link or target scope.
use vstd::prelude::*;
use vstd::multiset::Multiset;

use crate::names::{names_sorted, sort_names};
use crate::plan::{
    family_selection, parse_discovery_families, NativeDiscoveryOperation, NativeDiscoveryPlan,
    NativeDiscoveryScope,
};
use crate::probe::{consent_bits, opt_is};
use crate::scan_error::{
    invalid_plan, scan_failure, scan_fails_with, ScanFailure, ScannerError, ScannerErrorView,
};
use crate::plan::parse_risk_set;
use crate::text::{byte_len, str_eq, string_has_nul, string_len, text_has_nul};

verus! {

broadcast use vstd::string::group_string_axioms;

/// The longest discovery deadline, in milliseconds.
pub const MAX_DISCOVERY_DEADLINE_MS: u32 = 60000;

/// The most operations one discovery may select.
pub const MAX_DISCOVERY_OPERATIONS: usize = 8;

/// The most interfaces a link scope may name.
pub const MAX_DISCOVERY_INTERFACES: usize = 16;

/// The longest interface name, in bytes.
pub const MAX_INTERFACE_NAME_BYTES: usize = 64;

/// The longest operation query, in bytes.
pub const MAX_QUERY_BYTES: usize = 255;

/// The most addresses a target scope may expand to.
pub const MAX_DISCOVERY_TARGETS: usize = 65536;

pub const DEFAULT_DISCOVERY_MAX_RESULTS: u32 = 8192;

pub const DEFAULT_DISCOVERY_MAX_METADATA_BYTES: u32 = 16777216;

pub const DEFAULT_DISCOVERY_PACKETS_PER_SECOND: u32 = 100;

pub const DEFAULT_DISCOVERY_BURST: u32 = 16;

/// The identifier of the mDNS operation.
pub const OPERATION_MDNS: u16 = 1;

/// The identifier of the LLMNR operation.
pub const OPERATION_LLMNR: u16 = 4;

/// The identifier of the rpcbind operation.
pub const OPERATION_RPCBIND: u16 = 7;

/// What the operation registry says of one discovery operation.
#[derive(Clone, Copy, Debug, PartialEq, Eq, Structural)]
pub struct DiscoveryOperationDescriptor {
    pub id: u16,
    /// The risk consent bits the operation needs.
    pub required_risks: u8,
    /// Whether the operation runs on links (else on targets).
    pub link_scope: bool,
    pub permits_kernel_default_ipv4_gateway: bool,
}

/// An admitted operation selection.
#[derive(Clone, Debug)]
pub struct ValidatedDiscoveryOperation {
    pub id: u16,
    pub query: Option<String>,
    pub follow_up: bool,
}

/// The admitted scope of a discovery.
#[derive(Clone, Debug)]
pub enum DiscoveryScopeSelection {
    /// Named interfaces, sorted, or none for every eligible interface.
    Links { interfaces: Vec<String>, ipv4: bool, ipv6: bool },
    /// Targets; their normalization into addresses follows admission.
    Targets { ipv4: bool, ipv6: bool, kernel_default_ipv4_gateway: bool },
}

/// An admitted discovery plan.
#[derive(Clone, Debug)]
pub struct ValidatedDiscoveryPlan {
    pub scope: DiscoveryScopeSelection,
    pub operations: Vec<ValidatedDiscoveryOperation>,
    pub deadline_ms: u32,
    pub max_results: usize,
    pub max_metadata_bytes: usize,
    pub packets_per_second: u32,
    pub burst: u32,
    pub allow_risks: u8,
}

/// The first registry entry with the identifier, if any.
pub open spec fn registry_entry(registry: Seq<DiscoveryOperationDescriptor>, id: u16) -> Option<
    DiscoveryOperationDescriptor,
>
    decreases registry.len(),
{
    if registry.len() == 0 {
        None
    } else if registry[0].id == id {
        Some(registry[0])
    } else {
        registry_entry(registry.drop_first(), id)
    }
}

fn find_entry(registry: &[DiscoveryOperationDescriptor], id: u16) -> (r: Option<
    DiscoveryOperationDescriptor,
>)
    ensures
        r == registry_entry(registry@, id),
{
    let mut i: usize = 0;
    proof {
        assert(registry@.skip(0) =~= registry@);
    }
    while i < registry.len()
        invariant
            i <= registry@.len(),
            registry_entry(registry@, id) == registry_entry(registry@.skip(i as int), id),
        decreases registry@.len() - i,
    {
        proof {
            assert(registry@.skip(i as int)[0] == registry@[i as int]);
            assert(registry@.skip(i as int).drop_first() =~= registry@.skip(i + 1));
        }
        if registry[i].id == id {
            return Some(registry[i]);
        }
        i = i + 1;
    }
    None
}

/// Whether an optional query holds 1 through 255 bytes and no NUL.
pub open spec fn query_well_formed(query: Option<String>) -> bool {
    match query {
        Some(q) => 1 <= byte_len(q@) <= MAX_QUERY_BYTES && !text_has_nul(q@),
        None => true,
    }
}

/// Why a selection is refused, after the one with identifier `prior`:
/// identifiers are ascending from one and known to the registry, required
/// consents are given, a query is well formed and only LLMNR takes one (and
/// needs one), only rpcbind takes the follow-up flag, and only mDNS takes a
/// receive mode, which must be the legacy unicast one.
pub open spec fn operation_failure(
    selection: NativeDiscoveryOperation,
    prior: int,
    allow: u8,
    registry: Seq<DiscoveryOperationDescriptor>,
) -> Option<Seq<char>> {
    let id = selection.id;
    if id > 65535 {
        Some("operation identifier is too large"@)
    } else if id == 0 {
        Some("operation identifier must be nonzero"@)
    } else if id <= prior {
        Some("operation identifiers must be unique and ascending"@)
    } else {
        match registry_entry(registry, id as u16) {
            None => Some("unknown discovery operation identifier"@),
            Some(d) => if d.required_risks & !allow != 0 {
                Some("required discovery risk consent is missing"@)
            } else if !query_well_formed(selection.query) {
                Some("operation query must contain from 1 through 255 non-NUL bytes"@)
            } else if id == OPERATION_LLMNR && selection.query is None {
                Some("LLMNR requires an explicit query name"@)
            } else if id != OPERATION_LLMNR && selection.query is Some {
                Some("this discovery operation does not accept a query parameter"@)
            } else if id != OPERATION_RPCBIND && selection.follow_up is Some {
                Some("only rpcbind accepts the follow-up parameter"@)
            } else if id == OPERATION_MDNS && !opt_is(selection.receive_mode, "legacyUnicast"@) {
                Some("mDNS requires the explicit legacyUnicast receive mode"@)
            } else if id != OPERATION_MDNS && selection.receive_mode is Some {
                Some("only mDNS accepts a receive mode"@)
            } else {
                None
            },
        }
    }
}

/// The admitted form of an accepted selection; the follow-up flag defaults
/// to on.
pub open spec fn admitted_operation(selection: NativeDiscoveryOperation) -> ValidatedDiscoveryOperation {
    ValidatedDiscoveryOperation {
        id: selection.id as u16,
        query: selection.query,
        follow_up: match selection.follow_up {
            Some(f) => f,
            None => true,
        },
    }
}

/// The admitted selections after `acc`, or the message of the first refusal.
pub open spec fn admitted_operations(
    selections: Seq<NativeDiscoveryOperation>,
    prior: int,
    allow: u8,
    registry: Seq<DiscoveryOperationDescriptor>,
    acc: Seq<ValidatedDiscoveryOperation>,
) -> Result<Seq<ValidatedDiscoveryOperation>, Seq<char>>
    decreases selections.len(),
{
    if selections.len() == 0 {
        Ok(acc)
    } else {
        match operation_failure(selections[0], prior, allow, registry) {
            Some(m) => Err(m),
            None => admitted_operations(
                selections.drop_first(),
                selections[0].id as int,
                allow,
                registry,
                acc.push(admitted_operation(selections[0])),
            ),
        }
    }
}

fn opt_eq(value: &Option<String>, text: &str) -> (r: bool)
    ensures
        r == opt_is(*value, text@),
{
    match value {
        Some(s) => str_eq(s.as_str(), text),
        None => false,
    }
}

fn query_ok(query: &Option<String>) -> (r: bool)
    ensures
        r == query_well_formed(*query),
{
    match query {
        Some(q) => {
            let n = string_len(q);
            1 <= n && n <= MAX_QUERY_BYTES && !string_has_nul(q)
        },
        None => true,
    }
}

fn check_operation(
    selection: &NativeDiscoveryOperation,
    prior: u32,
    allow: u8,
    registry: &[DiscoveryOperationDescriptor],
) -> (r: Result<ValidatedDiscoveryOperation, &'static str>)
    ensures
        match operation_failure(*selection, prior as int, allow, registry@) {
            Some(m) => r matches Err(e) && e@ == m,
            None => r matches Ok(v) && v == admitted_operation(*selection),
        },
{
    let id = selection.id;
    if id > 65535 {
        return Err("operation identifier is too large");
    }
    if id == 0 {
        return Err("operation identifier must be nonzero");
    }
    if id <= prior {
        return Err("operation identifiers must be unique and ascending");
    }
    let entry = match find_entry(registry, id as u16) {
        Some(d) => d,
        None => {
            return Err("unknown discovery operation identifier");
        },
    };
    if entry.required_risks & !allow != 0 {
        return Err("required discovery risk consent is missing");
    }
    if !query_ok(&selection.query) {
        return Err("operation query must contain from 1 through 255 non-NUL bytes");
    }
    if id == OPERATION_LLMNR as u32 && selection.query.is_none() {
        return Err("LLMNR requires an explicit query name");
    }
    if id != OPERATION_LLMNR as u32 && selection.query.is_some() {
        return Err("this discovery operation does not accept a query parameter");
    }
    if id != OPERATION_RPCBIND as u32 && selection.follow_up.is_some() {
        return Err("only rpcbind accepts the follow-up parameter");
    }
    if id == OPERATION_MDNS as u32 && !opt_eq(&selection.receive_mode, "legacyUnicast") {
        return Err("mDNS requires the explicit legacyUnicast receive mode");
    }
    if id != OPERATION_MDNS as u32 && selection.receive_mode.is_some() {
        return Err("only mDNS accepts a receive mode");
    }
    let query = match &selection.query {
        Some(q) => Some(q.clone()),
        None => None,
    };
    Ok(
        ValidatedDiscoveryOperation {
            id: id as u16,
            query,
            follow_up: match selection.follow_up {
                Some(f) => f,
                None => true,
            },
        },
    )
}

/// Admits the selected operations in order against the registry and the
/// consent bits; a refusal names the first bad selection.
pub fn admit_operations(
    selections: &[NativeDiscoveryOperation],
    allow: u8,
    registry: &[DiscoveryOperationDescriptor],
) -> (r: Result<Vec<ValidatedDiscoveryOperation>, ScannerError>)
    ensures
        match admitted_operations(selections@, 0, allow, registry@, Seq::empty()) {
            Ok(ops) => r matches Ok(v) && v@ == ops,
            Err(m) => scan_fails_with(r, invalid_plan("validate discovery operation"@, m)),
        },
{
    let mut out: Vec<ValidatedDiscoveryOperation> = Vec::new();
    let mut prior: u32 = 0;
    let mut i: usize = 0;
    proof {
        assert(selections@.skip(0) =~= selections@);
    }
    while i < selections.len()
        invariant
            i <= selections@.len(),
            admitted_operations(selections@, 0, allow, registry@, Seq::empty())
                == admitted_operations(
                selections@.skip(i as int),
                prior as int,
                allow,
                registry@,
                out@,
            ),
        decreases selections@.len() - i,
    {
        proof {
            assert(selections@.skip(i as int)[0] == selections@[i as int]);
            assert(selections@.skip(i as int).drop_first() =~= selections@.skip(i + 1));
        }
        match check_operation(&selections[i], prior, allow, registry) {
            Ok(v) => {
                out.push(v);
            },
            Err(m) => {
                return Err(ScannerError::invalid("validate discovery operation", m));
            },
        }
        prior = selections[i].id;
        i = i + 1;
    }
    proof {
        assert(selections@.skip(i as int).len() == 0);
    }
    Ok(out)
}

/// Whether every admitted operation runs on links (`links`) or on targets.
pub open spec fn operations_in_scope(
    ops: Seq<ValidatedDiscoveryOperation>,
    registry: Seq<DiscoveryOperationDescriptor>,
    links: bool,
) -> bool {
    forall|i: int|
        0 <= i < ops.len() ==> (registry_entry(registry, #[trigger] ops[i].id) matches Some(d)
            && d.link_scope == links)
}

/// Whether every admitted operation works with the kernel's default IPv4
/// gateway as its target.
pub open spec fn operations_permit_gateway(
    ops: Seq<ValidatedDiscoveryOperation>,
    registry: Seq<DiscoveryOperationDescriptor>,
) -> bool {
    forall|i: int|
        0 <= i < ops.len() ==> (registry_entry(registry, #[trigger] ops[i].id) matches Some(d)
            && d.permits_kernel_default_ipv4_gateway)
}

fn all_in_scope(
    ops: &Vec<ValidatedDiscoveryOperation>,
    registry: &[DiscoveryOperationDescriptor],
    links: bool,
) -> (r: bool)
    ensures
        r == operations_in_scope(ops@, registry@, links),
{
    let mut i: usize = 0;
    while i < ops.len()
        invariant
            i <= ops@.len(),
            forall|k: int|
                0 <= k < i ==> (registry_entry(registry@, #[trigger] ops@[k].id) matches Some(d)
                    && d.link_scope == links),
        decreases ops@.len() - i,
    {
        match find_entry(registry, ops[i].id) {
            Some(d) => {
                if d.link_scope != links {
                    return false;
                }
            },
            None => {
                return false;
            },
        }
        i = i + 1;
    }
    true
}

fn all_permit_gateway(
    ops: &[ValidatedDiscoveryOperation],
    registry: &[DiscoveryOperationDescriptor],
) -> (r: bool)
    ensures
        r == operations_permit_gateway(ops@, registry@),
{
    let mut i: usize = 0;
    while i < ops.len()
        invariant
            i <= ops@.len(),
            forall|k: int|
                0 <= k < i ==> (registry_entry(registry@, #[trigger] ops@[k].id) matches Some(d)
                    && d.permits_kernel_default_ipv4_gateway),
        decreases ops@.len() - i,
    {
        match find_entry(registry, ops[i].id) {
            Some(d) => {
                if !d.permits_kernel_default_ipv4_gateway {
                    return false;
                }
            },
            None => {
                return false;
            },
        }
        i = i + 1;
    }
    true
}

/// Whether an interface name is 1 through 64 bytes without NUL.
pub open spec fn interface_name_ok(name: String) -> bool {
    1 <= byte_len(name@) <= MAX_INTERFACE_NAME_BYTES && !text_has_nul(name@)
}

/// Whether two entries of a list spell the same name.
pub open spec fn repeats_a_name(v: Seq<String>) -> bool {
    exists|i: int, j: int| 0 <= i < j < v.len() && (#[trigger] v[i])@ == (#[trigger] v[j])@
}

/// Whether a link scope's interface list is refused: empty without
/// `allEligible`, longer than sixteen, repeating a name, or holding a bad
/// name.
pub open spec fn interfaces_refused(names: Seq<String>, all_eligible: bool) -> bool {
    (!all_eligible && names.len() == 0) || names.len() > MAX_DISCOVERY_INTERFACES
        || repeats_a_name(names) || exists|i: int|
        0 <= i < names.len() && !interface_name_ok(#[trigger] names[i])
}

fn names_refused(names: &Vec<String>, all_eligible: bool) -> (r: bool)
    ensures
        r == interfaces_refused(names@, all_eligible),
{
    if !all_eligible && names.len() == 0 {
        return true;
    }
    if names.len() > MAX_DISCOVERY_INTERFACES {
        return true;
    }
    let mut i: usize = 0;
    while i < names.len()
        invariant
            i <= names@.len(),
            names@.len() <= MAX_DISCOVERY_INTERFACES,
            forall|a: int, b: int| 0 <= a < b < names@.len() && a < i ==> (#[trigger] names@[a])@
                != (#[trigger] names@[b])@,
            forall|a: int| 0 <= a < i ==> interface_name_ok(#[trigger] names@[a]),
        decreases names@.len() - i,
    {
        let n = string_len(&names[i]);
        if n < 1 || n > MAX_INTERFACE_NAME_BYTES || string_has_nul(&names[i]) {
            return true;
        }
        let mut j: usize = i + 1;
        while j < names.len()
            invariant
                i < j <= names@.len(),
                forall|b: int| i < b < j ==> names@[i as int]@ != (#[trigger] names@[b])@,
            decreases names@.len() - j,
        {
            if str_eq(names[i].as_str(), names[j].as_str()) {
                return true;
            }
            j = j + 1;
        }
        i = i + 1;
    }
    false
}

/// Why a link scope is refused, if it is: target fields, not exactly one of
/// named interfaces and `allEligible`, a refused interface list, bad
/// families, or a target-only operation.
pub open spec fn link_scope_failure(
    scope: NativeDiscoveryScope,
    ops: Seq<ValidatedDiscoveryOperation>,
    registry: Seq<DiscoveryOperationDescriptor>,
) -> Option<Seq<char>> {
    let all_eligible = match scope.all_eligible {
        Some(a) => a,
        None => false,
    };
    let names = match scope.interfaces {
        Some(v) => v@,
        None => Seq::empty(),
    };
    if scope.targets is Some || scope.exclude is Some || scope.kernel_default_ipv4_gateway == Some(
        true,
    ) {
        Some("link scope cannot contain target fields"@)
    } else if all_eligible == scope.interfaces is Some {
        Some("link scope requires exactly explicit interfaces or allEligible"@)
    } else if interfaces_refused(names, all_eligible) {
        Some("interfaces must be a unique bounded nonempty list"@)
    } else if family_selection(scope.families@) is None {
        Some("families must be canonical ipv4, ipv6, or ipv4 then ipv6"@)
    } else if !operations_in_scope(ops, registry, true) {
        Some("link scope contains a target-only operation"@)
    } else {
        None
    }
}

/// Why a target scope is refused before its targets are normalized: link
/// interface fields, a link-only operation, or bad families.
pub open spec fn target_scope_failure(
    scope: NativeDiscoveryScope,
    ops: Seq<ValidatedDiscoveryOperation>,
    registry: Seq<DiscoveryOperationDescriptor>,
) -> Option<Seq<char>> {
    if scope.interfaces is Some || scope.all_eligible is Some {
        Some("target scope cannot contain link interface fields"@)
    } else if !operations_in_scope(ops, registry, false) {
        Some("target scope contains a link-only operation"@)
    } else if family_selection(scope.families@) is None {
        Some("families must be canonical ipv4, ipv6, or ipv4 then ipv6"@)
    } else {
        None
    }
}

/// Whether `r` is the admitted scope of `scope` for the admitted operations,
/// or its refusal.
pub open spec fn admits_scope(
    scope: NativeDiscoveryScope,
    ops: Seq<ValidatedDiscoveryOperation>,
    registry: Seq<DiscoveryOperationDescriptor>,
    r: Result<DiscoveryScopeSelection, ScannerError>,
) -> bool {
    let op = "validate discovery scope"@;
    if scope.kind@ == "links"@ {
        match link_scope_failure(scope, ops, registry) {
            Some(m) => scan_fails_with(r, invalid_plan(op, m)),
            None => {
                let names = match scope.interfaces {
                    Some(v) => v@,
                    None => Seq::empty(),
                };
                r matches Ok(DiscoveryScopeSelection::Links { interfaces, ipv4, ipv6 })
                    && family_selection(scope.families@) == Some((ipv4, ipv6)) && names_sorted(
                    interfaces@,
                ) && interfaces@.to_multiset() == names.to_multiset()
            },
        }
    } else if scope.kind@ == "targets"@ {
        match target_scope_failure(scope, ops, registry) {
            Some(m) => scan_fails_with(r, invalid_plan(op, m)),
            None => r matches Ok(
                DiscoveryScopeSelection::Targets { ipv4, ipv6, kernel_default_ipv4_gateway },
            ) && family_selection(scope.families@) == Some((ipv4, ipv6))
                && kernel_default_ipv4_gateway == (scope.kernel_default_ipv4_gateway == Some(true)),
        }
    } else {
        scan_fails_with(r, invalid_plan(op, "scope kind must be links or targets"@))
    }
}

fn family_error_is(r: &Result<(bool, bool), ScannerError>, scope: &NativeDiscoveryScope)
    requires
        match family_selection(scope.families@) {
            Some(selection) => *r == Ok::<(bool, bool), ScannerError>(selection),
            None => scan_fails_with(
                *r,
                invalid_plan(
                    "validate discovery scope"@,
                    "families must be canonical ipv4, ipv6, or ipv4 then ipv6"@,
                ),
            ),
        },
    ensures
        r is Err <==> family_selection(scope.families@) is None,
{
}

/// Admits the scope of a discovery for its admitted operations: a link scope
/// keeps its interface names, sorted; a target scope keeps its families and
/// whether it targets the kernel's default IPv4 gateway.
pub fn admit_scope(
    scope: &NativeDiscoveryScope,
    ops: &Vec<ValidatedDiscoveryOperation>,
    registry: &[DiscoveryOperationDescriptor],
) -> (r: Result<DiscoveryScopeSelection, ScannerError>)
    ensures
        admits_scope(*scope, ops@, registry@, r),
{
    let op = "validate discovery scope";
    if str_eq(scope.kind.as_str(), "links") {
        if scope.targets.is_some() || scope.exclude.is_some() || match scope.kernel_default_ipv4_gateway {
            Some(g) => g,
            None => false,
        } {
            return Err(ScannerError::invalid(op, "link scope cannot contain target fields"));
        }
        let all_eligible = match scope.all_eligible {
            Some(a) => a,
            None => false,
        };
        if all_eligible == scope.interfaces.is_some() {
            return Err(
                ScannerError::invalid(
                    op,
                    "link scope requires exactly explicit interfaces or allEligible",
                ),
            );
        }
        let names: Vec<String> = match &scope.interfaces {
            Some(v) => v.clone(),
            None => Vec::new(),
        };
        proof {
            if scope.interfaces is Some {
                assert(names@ =~= scope.interfaces.unwrap()@);
            }
        }
        if names_refused(&names, all_eligible) {
            return Err(ScannerError::invalid(op, "interfaces must be a unique bounded nonempty list"));
        }
        let families = parse_discovery_families(scope.families.as_slice());
        family_error_is(&families, scope);
        let (ipv4, ipv6) = match families {
            Ok(f) => f,
            Err(e) => {
                return Err(e);
            },
        };
        if !all_in_scope(ops, registry, true) {
            return Err(ScannerError::invalid(op, "link scope contains a target-only operation"));
        }
        let interfaces = sort_names(names);
        proof {
            reveal_strlit("links");
        }
        return Ok(DiscoveryScopeSelection::Links { interfaces, ipv4, ipv6 });
    }
    if str_eq(scope.kind.as_str(), "targets") {
        if scope.interfaces.is_some() || scope.all_eligible.is_some() {
            return Err(ScannerError::invalid(op, "target scope cannot contain link interface fields"));
        }
        if !all_in_scope(ops, registry, false) {
            return Err(ScannerError::invalid(op, "target scope contains a link-only operation"));
        }
        let families = parse_discovery_families(scope.families.as_slice());
        family_error_is(&families, scope);
        let (ipv4, ipv6) = match families {
            Ok(f) => f,
            Err(e) => {
                return Err(e);
            },
        };
        let gateway = match scope.kernel_default_ipv4_gateway {
            Some(g) => g,
            None => false,
        };
        proof {
            reveal_strlit("links");
            reveal_strlit("targets");
        }
        return Ok(
            DiscoveryScopeSelection::Targets { ipv4, ipv6, kernel_default_ipv4_gateway: gateway },
        );
    }
    Err(ScannerError::invalid(op, "scope kind must be links or targets"))
}

/// Why the member list of a target scope is refused once its targets are
/// normalized: more than 65536 addresses, no address in a selected family
/// and no gateway, the gateway without IPv4, or an operation that cannot
/// target the gateway.
pub open spec fn target_members_failure(
    normalized: nat,
    selected: nat,
    gateway: bool,
    ipv4: bool,
    ops: Seq<ValidatedDiscoveryOperation>,
    registry: Seq<DiscoveryOperationDescriptor>,
) -> Option<ScannerErrorView> {
    if normalized > MAX_DISCOVERY_TARGETS {
        Some(
            scan_failure(
                ScanFailure::Resource,
                "validate discovery targets"@,
                "target discovery expands to more than 65536 addresses"@,
            ),
        )
    } else if selected == 0 && !gateway {
        Some(
            invalid_plan(
                "validate discovery scope"@,
                "target scope requires targets or kernelDefaultIpv4Gateway"@,
            ),
        )
    } else if gateway && !ipv4 {
        Some(
            invalid_plan(
                "validate discovery scope"@,
                "kernelDefaultIpv4Gateway requires the ipv4 family"@,
            ),
        )
    } else if gateway && !operations_permit_gateway(ops, registry) {
        Some(
            invalid_plan(
                "validate discovery scope"@,
                "kernelDefaultIpv4Gateway is not compatible with every selected operation"@,
            ),
        )
    } else {
        None
    }
}

/// Checks a target scope's members once its targets are normalized:
/// `normalized` addresses in all, `selected` of them in the selected
/// families.
pub fn check_target_members(
    normalized: usize,
    selected: usize,
    gateway: bool,
    ipv4: bool,
    ops: &[ValidatedDiscoveryOperation],
    registry: &[DiscoveryOperationDescriptor],
) -> (r: Result<(), ScannerError>)
    ensures
        match target_members_failure(
            normalized as nat,
            selected as nat,
            gateway,
            ipv4,
            ops@,
            registry@,
        ) {
            Some(e) => scan_fails_with(r, e),
            None => r is Ok,
        },
{
    if normalized > MAX_DISCOVERY_TARGETS {
        return Err(
            ScannerError::resource(
                "validate discovery targets",
                "target discovery expands to more than 65536 addresses",
            ),
        );
    }
    if selected == 0 && !gateway {
        return Err(
            ScannerError::invalid(
                "validate discovery scope",
                "target scope requires targets or kernelDefaultIpv4Gateway",
            ),
        );
    }
    if gateway && !ipv4 {
        return Err(
            ScannerError::invalid(
                "validate discovery scope",
                "kernelDefaultIpv4Gateway requires the ipv4 family",
            ),
        );
    }
    if gateway && !all_permit_gateway(ops, registry) {
        return Err(
            ScannerError::invalid(
                "validate discovery scope",
                "kernelDefaultIpv4Gateway is not compatible with every selected operation",
            ),
        );
    }
    Ok(())
}

/// `value` if present, else `default`.
pub open spec fn or_default(value: Option<u32>, default: u32) -> u32 {
    match value {
        Some(v) => v,
        None => default,
    }
}

/// Why a discovery plan is refused before its scope is looked at, if it is.
pub open spec fn plan_header_failure(
    plan: NativeDiscoveryPlan,
    registry: Seq<DiscoveryOperationDescriptor>,
) -> Option<ScannerErrorView> {
    let rate_pps = match plan.rate {
        Some(r) => or_default(r.packets_per_second, DEFAULT_DISCOVERY_PACKETS_PER_SECOND),
        None => DEFAULT_DISCOVERY_PACKETS_PER_SECOND,
    };
    let burst = match plan.rate {
        Some(r) => or_default(r.burst, DEFAULT_DISCOVERY_BURST),
        None => DEFAULT_DISCOVERY_BURST,
    };
    if plan.deadline_ms == 0 || plan.deadline_ms > MAX_DISCOVERY_DEADLINE_MS {
        Some(invalid_plan("validate discovery plan"@, "deadlineMs must be from 1 through 60000"@))
    } else if plan.operations@.len() == 0 || plan.operations@.len() > MAX_DISCOVERY_OPERATIONS {
        Some(
            invalid_plan(
                "validate discovery plan"@,
                "operations must contain from 1 through 8 selections"@,
            ),
        )
    } else {
        match consent_bits(plan.allow_risks) {
            Err(e) => Some(e),
            Ok(bits) => match admitted_operations(
                plan.operations@,
                0,
                bits as u8,
                registry,
                Seq::empty(),
            ) {
                Err(m) => Some(invalid_plan("validate discovery operation"@, m)),
                Ok(_) => if rate_pps == 0 || rate_pps > 1000000 {
                    Some(
                        invalid_plan(
                            "validate discovery rate"@,
                            "packetsPerSecond must be from 1 through 1000000"@,
                        ),
                    )
                } else if burst == 0 || burst > 65536 {
                    Some(
                        invalid_plan(
                            "validate discovery rate"@,
                            "burst must be from 1 through 65536"@,
                        ),
                    )
                } else {
                    None
                },
            },
        }
    }
}

/// Whether `r` is the admission of `plan` against `registry`: the header
/// checks, then the scope; an admitted plan keeps its deadline, consent
/// bits, admitted operations, limits (8192 results and 16 MiB of metadata
/// by default) and rate (100 packets per second, bursts of 16, by default).
pub open spec fn admits_discovery_plan(
    plan: NativeDiscoveryPlan,
    registry: Seq<DiscoveryOperationDescriptor>,
    r: Result<ValidatedDiscoveryPlan, ScannerError>,
) -> bool {
    match plan_header_failure(plan, registry) {
        Some(e) => scan_fails_with(r, e),
        None => {
            let bits = consent_bits(plan.allow_risks)->Ok_0;
            let ops = admitted_operations(plan.operations@, 0, bits as u8, registry, Seq::empty())->Ok_0;
            match r {
                Err(e) => admits_scope(plan.scope, ops, registry, Err(e)),
                Ok(v) => admits_scope(plan.scope, ops, registry, Ok(v.scope)) && v.operations@ == ops
                    && v.deadline_ms == plan.deadline_ms && v.allow_risks == bits
                    && v.max_results == match plan.limits {
                    Some(l) => or_default(l.max_results, DEFAULT_DISCOVERY_MAX_RESULTS),
                    None => DEFAULT_DISCOVERY_MAX_RESULTS,
                } && v.max_metadata_bytes == match plan.limits {
                    Some(l) => or_default(l.max_metadata_bytes, DEFAULT_DISCOVERY_MAX_METADATA_BYTES),
                    None => DEFAULT_DISCOVERY_MAX_METADATA_BYTES,
                } && v.packets_per_second == match plan.rate {
                    Some(q) => or_default(q.packets_per_second, DEFAULT_DISCOVERY_PACKETS_PER_SECOND),
                    None => DEFAULT_DISCOVERY_PACKETS_PER_SECOND,
                } && v.burst == match plan.rate {
                    Some(q) => or_default(q.burst, DEFAULT_DISCOVERY_BURST),
                    None => DEFAULT_DISCOVERY_BURST,
                },
            }
        },
    }
}

fn value_or(value: Option<u32>, default: u32) -> (r: u32)
    ensures
        r == or_default(value, default),
{
    match value {
        Some(v) => v,
        None => default,
    }
}

fn widen(value: u32) -> (r: usize)
    ensures
        r == value,
{
    value as usize
}

impl NativeDiscoveryPlan {
    /// Admits a discovery plan against the operation registry: the deadline
    /// (1 ms through 60 s), one to eight operations, the risk consents, each
    /// operation, the rate, and the scope. The normalization of a target
    /// scope's targets, and the member checks after it
    /// ([`check_target_members`]), follow this admission.
    pub fn validate(self, registry: &[DiscoveryOperationDescriptor]) -> (r: Result<
        ValidatedDiscoveryPlan,
        ScannerError,
    >)
        ensures
            admits_discovery_plan(self, registry@, r),
    {
        if self.deadline_ms == 0 || self.deadline_ms > MAX_DISCOVERY_DEADLINE_MS {
            return Err(
                ScannerError::invalid(
                    "validate discovery plan",
                    "deadlineMs must be from 1 through 60000",
                ),
            );
        }
        if self.operations.len() == 0 || self.operations.len() > MAX_DISCOVERY_OPERATIONS {
            return Err(
                ScannerError::invalid(
                    "validate discovery plan",
                    "operations must contain from 1 through 8 selections",
                ),
            );
        }
        let allow = match &self.allow_risks {
            Some(v) => parse_risk_set(v.as_slice()),
            None => Ok(0),
        };
        let allow = match allow {
            Ok(bits) => bits,
            Err(e) => {
                return Err(e);
            },
        };
        let operations = match admit_operations(self.operations.as_slice(), allow, registry) {
            Ok(ops) => ops,
            Err(e) => {
                return Err(e);
            },
        };
        let (max_results, max_metadata_bytes) = match self.limits {
            Some(l) => (
                value_or(l.max_results, DEFAULT_DISCOVERY_MAX_RESULTS),
                value_or(l.max_metadata_bytes, DEFAULT_DISCOVERY_MAX_METADATA_BYTES),
            ),
            None => (DEFAULT_DISCOVERY_MAX_RESULTS, DEFAULT_DISCOVERY_MAX_METADATA_BYTES),
        };
        let (packets_per_second, burst) = match self.rate {
            Some(q) => (
                value_or(q.packets_per_second, DEFAULT_DISCOVERY_PACKETS_PER_SECOND),
                value_or(q.burst, DEFAULT_DISCOVERY_BURST),
            ),
            None => (DEFAULT_DISCOVERY_PACKETS_PER_SECOND, DEFAULT_DISCOVERY_BURST),
        };
        if packets_per_second == 0 || packets_per_second > 1000000 {
            return Err(
                ScannerError::invalid(
                    "validate discovery rate",
                    "packetsPerSecond must be from 1 through 1000000",
                ),
            );
        }
        if burst == 0 || burst > 65536 {
            return Err(
                ScannerError::invalid("validate discovery rate", "burst must be from 1 through 65536"),
            );
        }
        let scope = match admit_scope(&self.scope, &operations, registry) {
            Ok(s) => s,
            Err(e) => {
                return Err(e);
            },
        };
        Ok(
            ValidatedDiscoveryPlan {
                scope,
                operations,
                deadline_ms: self.deadline_ms,
                max_results: widen(max_results),
                max_metadata_bytes: widen(max_metadata_bytes),
                packets_per_second,
                burst,
                allow_risks: allow,
            },
        )
    }
}

/// Whether admitted operations have strictly ascending identifiers, each
/// known to the registry with its required consents among `allow`.
pub open spec fn operations_well_admitted(
    ops: Seq<ValidatedDiscoveryOperation>,
    allow: u8,
    registry: Seq<DiscoveryOperationDescriptor>,
) -> bool {
    &&& forall|i: int, j: int| 0 <= i < j < ops.len() ==> #[trigger] ops[i].id < #[trigger] ops[j].id
    &&& forall|i: int|
        0 <= i < ops.len() ==> (registry_entry(registry, #[trigger] ops[i].id) matches Some(d)
            && d.required_risks & !allow == 0)
}

proof fn lemma_admitted_operations(
    selections: Seq<NativeDiscoveryOperation>,
    prior: int,
    allow: u8,
    registry: Seq<DiscoveryOperationDescriptor>,
    acc: Seq<ValidatedDiscoveryOperation>,
)
    requires
        operations_well_admitted(acc, allow, registry),
        forall|i: int| 0 <= i < acc.len() ==> #[trigger] acc[i].id <= prior,
        admitted_operations(selections, prior, allow, registry, acc) is Ok,
    ensures
        operations_well_admitted(
            admitted_operations(selections, prior, allow, registry, acc)->Ok_0,
            allow,
            registry,
        ),
        admitted_operations(selections, prior, allow, registry, acc)->Ok_0.len() == acc.len()
            + selections.len(),
    decreases selections.len(),
{
    if selections.len() > 0 {
        let next = acc.push(admitted_operation(selections[0]));
        assert(operations_well_admitted(next, allow, registry)) by {
            assert forall|i: int, j: int| 0 <= i < j < next.len() implies #[trigger] next[i].id
                < #[trigger] next[j].id by {
                if j == acc.len() {
                    assert(next[i] == acc[i]);
                }
            }
            assert forall|i: int| 0 <= i < next.len() implies (registry_entry(
                registry,
                #[trigger] next[i].id,
            ) matches Some(d) && d.required_risks & !allow == 0) by {
                if i < acc.len() {
                    assert(next[i] == acc[i]);
                }
            }
        }
        assert forall|i: int| 0 <= i < next.len() implies #[trigger] next[i].id
            <= selections[0].id as int by {
            if i < acc.len() {
                assert(next[i] == acc[i]);
            }
        }
        lemma_admitted_operations(selections.drop_first(), selections[0].id as int, allow, registry, next);
    }
}

/// The operations a discovery admits come in strictly ascending identifier
/// order, one per selection, each known to the registry and covered by the
/// given risk consents.
pub proof fn admitted_operations_ascend_with_consent(
    selections: Seq<NativeDiscoveryOperation>,
    allow: u8,
    registry: Seq<DiscoveryOperationDescriptor>,
)
    requires
        admitted_operations(selections, 0, allow, registry, Seq::empty()) is Ok,
    ensures
        operations_well_admitted(
            admitted_operations(selections, 0, allow, registry, Seq::empty())->Ok_0,
            allow,
            registry,
        ),
        admitted_operations(selections, 0, allow, registry, Seq::empty())->Ok_0.len()
            == selections.len(),
{
    lemma_admitted_operations(selections, 0, allow, registry, Seq::empty());
}

} // verus!

//! The queries a discovery session sends: on a link scope, each operation's
//! multicast group on each selected interface; on a target scope, each
//! operation at each resolved target of a family it serves.
use vstd::prelude::*;

use crate::discovery::{on_same_link, same_link_ipv4_target, InterfaceAddressEntry};
use crate::discovery_order::{
    ascending_by, compare_bytes, index_before, lemma_contains_after_adding,
    lemma_insert_keeps_ascending, transitive, Precedence,
};
use crate::discovery_plan::{DiscoveryScopeSelection, ValidatedDiscoveryOperation, ValidatedDiscoveryPlan};
use crate::names::{lemma_lex_total, lemma_lex_trans, lex_lt};
use crate::path::same_address;
use crate::names::{names_sorted, sort_names};
use crate::results::IpAddress;
use crate::scan_error::{invalid_plan, scan_failure, ScanFailure, ScannerError, ScannerErrorView};
use crate::text::str_eq;

verus! {

broadcast use vstd::string::group_string_axioms, vstd::array::group_array_axioms;

/// The IPv4 address family.
pub const AF_INET: u8 = 2;

/// The IPv6 address family.
pub const AF_INET6: u8 = 10;

/// The interface flag of an interface that is up.
pub const IFF_UP: u32 = 1;

/// The interface flag of a loopback interface.
pub const IFF_LOOPBACK: u32 = 8;

/// The identifier of the NAT-PMP operation.
pub const OPERATION_NAT_PMP: u16 = 5;

/// The address families an operation serves.
#[derive(Clone, Copy, Debug, PartialEq, Eq, Structural)]
pub enum AddressFamilies {
    Ipv4,
    Ipv6,
    Both,
}

/// Where the operation registry sends one operation's queries.
#[derive(Clone, Copy, Debug)]
pub struct DiscoveryEndpoint {
    pub id: u16,
    pub families: AddressFamilies,
    pub destination_port: u16,
    pub ipv4_multicast: Option<[u8; 4]>,
    pub ipv6_multicast: Option<[u8; 16]>,
}

/// A network interface as the kernel reports it.
#[derive(Clone, Debug)]
pub struct NetworkInterface {
    pub index: u32,
    pub name: String,
    pub flags: u32,
}

/// A socket address: an address, a port and (for IPv6) a scope.
#[derive(Clone, Copy, Debug)]
pub struct SocketEndpoint {
    pub address: IpAddress,
    pub port: u16,
    pub scope_id: u32,
}

/// One query to prepare: the operation (by its position in the plan), where
/// it goes, where it is sent from, the interface it is bound to, and the
/// target replies must come from.
#[derive(Clone, Copy, Debug)]
pub struct QueryProduct {
    pub operation: usize,
    pub destination: SocketEndpoint,
    pub source: SocketEndpoint,
    pub interface_index: Option<u32>,
    pub expected_target: Option<IpAddress>,
}

/// The first registry endpoint of an operation.
pub open spec fn endpoint_entry(endpoints: Seq<DiscoveryEndpoint>, id: u16) -> Option<DiscoveryEndpoint>
    decreases endpoints.len(),
{
    if endpoints.len() == 0 {
        None
    } else if endpoints[0].id == id {
        Some(endpoints[0])
    } else {
        endpoint_entry(endpoints.drop_first(), id)
    }
}

/// Finds the registry endpoint of an operation.
pub fn find_endpoint(endpoints: &[DiscoveryEndpoint], id: u16) -> (r: Option<DiscoveryEndpoint>)
    ensures
        r == endpoint_entry(endpoints@, id),
{
    let mut i: usize = 0;
    proof {
        assert(endpoints@.skip(0) =~= endpoints@);
    }
    while i < endpoints.len()
        invariant
            i <= endpoints@.len(),
            endpoint_entry(endpoints@, id) == endpoint_entry(endpoints@.skip(i as int), id),
        decreases endpoints@.len() - i,
    {
        proof {
            assert(endpoints@.skip(i as int)[0] == endpoints@[i as int]);
            assert(endpoints@.skip(i as int).drop_first() =~= endpoints@.skip(i + 1));
        }
        if endpoints[i].id == id {
            return Some(endpoints[i]);
        }
        i = i + 1;
    }
    None
}

/// The address an interface entry stands for: its local address, else its
/// address.
pub open spec fn entry_address(entry: InterfaceAddressEntry) -> Option<IpAddress> {
    if entry.local is Some {
        entry.local
    } else {
        entry.address
    }
}

/// Whether an address is an IPv6 address.
pub open spec fn is_v6(address: IpAddress) -> bool {
    address is V6
}

/// The first address of the wanted family among an interface's entries.
pub open spec fn first_source(entries: Seq<InterfaceAddressEntry>, index: u32, v6: bool) -> Option<
    IpAddress,
>
    decreases entries.len(),
{
    if entries.len() == 0 {
        None
    } else if entries[0].interface_index == index && (entry_address(entries[0]) matches Some(a)
        && is_v6(a) == v6) {
        entry_address(entries[0])
    } else {
        first_source(entries.drop_first(), index, v6)
    }
}

/// Finds the first address of the wanted family on an interface.
pub fn interface_source(entries: &[InterfaceAddressEntry], index: u32, v6: bool) -> (r: Option<
    IpAddress,
>)
    ensures
        r == first_source(entries@, index, v6),
{
    let mut i: usize = 0;
    proof {
        assert(entries@.skip(0) =~= entries@);
    }
    while i < entries.len()
        invariant
            i <= entries@.len(),
            first_source(entries@, index, v6) == first_source(entries@.skip(i as int), index, v6),
        decreases entries@.len() - i,
    {
        proof {
            assert(entries@.skip(i as int)[0] == entries@[i as int]);
            assert(entries@.skip(i as int).drop_first() =~= entries@.skip(i + 1));
        }
        let entry = entries[i];
        let own = if entry.local.is_some() {
            entry.local
        } else {
            entry.address
        };
        if entry.interface_index == index {
            match own {
                Some(IpAddress::V4(_)) => {
                    if !v6 {
                        return own;
                    }
                },
                Some(IpAddress::V6(_)) => {
                    if v6 {
                        return own;
                    }
                },
                None => {},
            }
        }
        i = i + 1;
    }
    None
}

/// Whether an interface takes part in an all-eligible link scope: it is up,
/// not loopback, and holds an address of a selected family.
pub open spec fn interface_eligible(
    interface: NetworkInterface,
    entries: Seq<InterfaceAddressEntry>,
    ipv4: bool,
    ipv6: bool,
) -> bool {
    &&& interface.flags & IFF_UP != 0
    &&& interface.flags & IFF_LOOPBACK == 0
    &&& exists|k: int|
        0 <= k < entries.len() && (#[trigger] entries[k]).interface_index == interface.index && ((
        ipv4 && entries[k].family == AF_INET) || (ipv6 && entries[k].family == AF_INET6))
}

/// The names of the eligible interfaces among `interfaces`, in order.
pub open spec fn eligible_names(
    interfaces: Seq<NetworkInterface>,
    entries: Seq<InterfaceAddressEntry>,
    ipv4: bool,
    ipv6: bool,
) -> Seq<String>
    decreases interfaces.len(),
{
    if interfaces.len() == 0 {
        Seq::empty()
    } else {
        let rest = eligible_names(interfaces.drop_last(), entries, ipv4, ipv6);
        if interface_eligible(interfaces.last(), entries, ipv4, ipv6) {
            rest.push(interfaces.last().name)
        } else {
            rest
        }
    }
}

fn has_family_address(entries: &[InterfaceAddressEntry], index: u32, ipv4: bool, ipv6: bool) -> (r:
    bool)
    ensures
        r == exists|k: int|
            0 <= k < entries@.len() && (#[trigger] entries@[k]).interface_index == index && ((ipv4
                && entries@[k].family == AF_INET) || (ipv6 && entries@[k].family == AF_INET6)),
{
    let mut i: usize = 0;
    while i < entries.len()
        invariant
            i <= entries@.len(),
            forall|k: int|
                0 <= k < i ==> !((#[trigger] entries@[k]).interface_index == index && ((ipv4
                    && entries@[k].family == AF_INET) || (ipv6 && entries@[k].family == AF_INET6))),
        decreases entries@.len() - i,
    {
        let entry = entries[i];
        if entry.interface_index == index && ((ipv4 && entry.family == AF_INET) || (ipv6
            && entry.family == AF_INET6)) {
            return true;
        }
        i = i + 1;
    }
    false
}

/// The failure of an all-eligible link scope that finds no eligible
/// interface, or more than 16.
pub open spec fn eligible_count_failure() -> ScannerErrorView {
    scan_failure(
        ScanFailure::Context,
        "resolve eligible discovery interfaces"@,
        "allEligible selected zero or more than 16 eligible interfaces"@,
    )
}

/// Selects the eligible interfaces of an all-eligible link scope, sorted by
/// name; fails where there is none or more than 16.
pub fn eligible_interfaces(
    interfaces: &Vec<NetworkInterface>,
    entries: &[InterfaceAddressEntry],
    ipv4: bool,
    ipv6: bool,
) -> (r: Result<Vec<String>, ScannerError>)
    ensures
        match r {
            Ok(names) => {
                &&& names_sorted(names@)
                &&& names@.to_multiset() == eligible_names(interfaces@, entries@, ipv4, ipv6).to_multiset()
                &&& 1 <= eligible_names(interfaces@, entries@, ipv4, ipv6).len() <= 16
            },
            Err(e) => {
                &&& e@ == eligible_count_failure()
                &&& !(1 <= eligible_names(interfaces@, entries@, ipv4, ipv6).len() <= 16)
            },
        },
{
    let mut names: Vec<String> = Vec::new();
    let mut i: usize = 0;
    while i < interfaces.len()
        invariant
            i <= interfaces@.len(),
            names@ == eligible_names(interfaces@.take(i as int), entries@, ipv4, ipv6),
        decreases interfaces@.len() - i,
    {
        let interface = &interfaces[i];
        proof {
            assert(interfaces@.take(i + 1).drop_last() =~= interfaces@.take(i as int));
            assert(interfaces@.take(i + 1).last() == *interface);
        }
        if interface.flags & IFF_UP != 0 && interface.flags & IFF_LOOPBACK == 0 && has_family_address(
            entries,
            interface.index,
            ipv4,
            ipv6,
        ) {
            names.push(interface.name.clone());
        }
        i = i + 1;
    }
    proof {
        assert(interfaces@.take(i as int) =~= interfaces@);
    }
    if names.len() == 0 || names.len() > 16 {
        return Err(
            ScannerError::context(
                "resolve eligible discovery interfaces",
                "allEligible selected zero or more than 16 eligible interfaces",
            ),
        );
    }
    let sorted = sort_names(names);
    Ok(sorted)
}

/// The outcome of a run of steps: the first failure, else all products in
/// order.
pub open spec fn then_append(
    a: Result<Seq<QueryProduct>, ScannerErrorView>,
    b: Result<Seq<QueryProduct>, ScannerErrorView>,
) -> Result<Seq<QueryProduct>, ScannerErrorView> {
    match a {
        Err(e) => Err(e),
        Ok(x) => match b {
            Err(e) => Err(e),
            Ok(y) => Ok(x + y),
        },
    }
}

/// Whether an outcome is the one a specification gives.
pub open spec fn outcome_is(
    r: Result<Vec<QueryProduct>, ScannerError>,
    expected: Result<Seq<QueryProduct>, ScannerErrorView>,
) -> bool {
    match (r, expected) {
        (Ok(products), Ok(ps)) => products@ == ps,
        (Err(e), Err(v)) => e@ == v,
        _ => false,
    }
}

/// The operation identifiers of a plan's operations.
pub open spec fn operation_ids(operations: Seq<ValidatedDiscoveryOperation>) -> Seq<u16> {
    operations.map_values(|o: ValidatedDiscoveryOperation| o.id)
}

/// The texts of a list of names.
pub open spec fn name_texts(names: Seq<String>) -> Seq<Seq<char>> {
    names.map_values(|n: String| n@)
}

/// The failure of a link scope naming an interface the host lacks.
pub open spec fn absent_interface(name: Seq<char>) -> ScannerErrorView {
    scan_failure(
        ScanFailure::Context,
        "resolve discovery interface"@,
        "interface "@ + name + " is absent"@,
    )
}

/// The failure of a link scope on an interface without an address of a
/// selected family.
pub open spec fn missing_family(name: Seq<char>, v6: bool) -> ScannerErrorView {
    scan_failure(
        ScanFailure::Context,
        "resolve discovery interface"@,
        "interface "@ + name + if v6 {
            " has no IPv6 address"@
        } else {
            " has no IPv4 address"@
        },
    )
}

/// The failure of an operation that is missing from the registry.
pub open spec fn operation_vanished() -> ScannerErrorView {
    scan_failure(ScanFailure::Internal, "run discovery"@, "operation disappeared"@)
}

/// The link queries of the operation at position `op` on an interface:
/// for each selected family, the interface must hold an address of it, and
/// where the operation has a multicast group of that family a query goes
/// to the group from that address.
pub open spec fn link_operation_products(
    op: int,
    endpoint: Option<DiscoveryEndpoint>,
    interface: NetworkInterface,
    entries: Seq<InterfaceAddressEntry>,
    ipv4: bool,
    ipv6: bool,
) -> Result<Seq<QueryProduct>, ScannerErrorView> {
    match endpoint {
        None => Err(operation_vanished()),
        Some(d) => {
            let v4 = if ipv4 {
                match first_source(entries, interface.index, false) {
                    None => Err(missing_family(interface.name@, false)),
                    Some(source) => Ok(
                        match d.ipv4_multicast {
                            Some(group) => seq![
                                QueryProduct {
                                    operation: op as usize,
                                    destination: SocketEndpoint {
                                        address: IpAddress::V4(group),
                                        port: d.destination_port,
                                        scope_id: 0,
                                    },
                                    source: SocketEndpoint { address: source, port: 0, scope_id: 0 },
                                    interface_index: Some(interface.index),
                                    expected_target: None,
                                },
                            ],
                            None => Seq::empty(),
                        },
                    ),
                }
            } else {
                Ok(Seq::empty())
            };
            let v6 = if ipv6 {
                match first_source(entries, interface.index, true) {
                    None => Err(missing_family(interface.name@, true)),
                    Some(source) => Ok(
                        match d.ipv6_multicast {
                            Some(group) => seq![
                                QueryProduct {
                                    operation: op as usize,
                                    destination: SocketEndpoint {
                                        address: IpAddress::V6(group),
                                        port: d.destination_port,
                                        scope_id: interface.index,
                                    },
                                    source: SocketEndpoint { address: source, port: 0, scope_id: 0 },
                                    interface_index: Some(interface.index),
                                    expected_target: None,
                                },
                            ],
                            None => Seq::empty(),
                        },
                    ),
                }
            } else {
                Ok(Seq::empty())
            };
            then_append(v4, v6)
        },
    }
}

/// The link queries of the first `n` operations on an interface.
pub open spec fn interface_products(
    ops: Seq<u16>,
    endpoints: Seq<DiscoveryEndpoint>,
    interface: NetworkInterface,
    entries: Seq<InterfaceAddressEntry>,
    ipv4: bool,
    ipv6: bool,
    n: int,
) -> Result<Seq<QueryProduct>, ScannerErrorView>
    decreases n,
{
    if n <= 0 {
        Ok(Seq::empty())
    } else {
        then_append(
            interface_products(ops, endpoints, interface, entries, ipv4, ipv6, n - 1),
            link_operation_products(
                n - 1,
                endpoint_entry(endpoints, ops[n - 1]),
                interface,
                entries,
                ipv4,
                ipv6,
            ),
        )
    }
}

/// The first interface with a name.
pub open spec fn named_interface(interfaces: Seq<NetworkInterface>, name: Seq<char>) -> Option<
    NetworkInterface,
>
    decreases interfaces.len(),
{
    if interfaces.len() == 0 {
        None
    } else if interfaces[0].name@ == name {
        Some(interfaces[0])
    } else {
        named_interface(interfaces.drop_first(), name)
    }
}

/// The link queries on the interface with a name.
pub open spec fn name_products(
    ops: Seq<u16>,
    endpoints: Seq<DiscoveryEndpoint>,
    interfaces: Seq<NetworkInterface>,
    entries: Seq<InterfaceAddressEntry>,
    ipv4: bool,
    ipv6: bool,
    name: Seq<char>,
) -> Result<Seq<QueryProduct>, ScannerErrorView> {
    match named_interface(interfaces, name) {
        None => Err(absent_interface(name)),
        Some(interface) => interface_products(
            ops,
            endpoints,
            interface,
            entries,
            ipv4,
            ipv6,
            ops.len() as int,
        ),
    }
}

/// The link queries on the first `n` named interfaces.
pub open spec fn link_products(
    ops: Seq<u16>,
    endpoints: Seq<DiscoveryEndpoint>,
    interfaces: Seq<NetworkInterface>,
    entries: Seq<InterfaceAddressEntry>,
    ipv4: bool,
    ipv6: bool,
    names: Seq<Seq<char>>,
    n: int,
) -> Result<Seq<QueryProduct>, ScannerErrorView>
    decreases n,
{
    if n <= 0 {
        Ok(Seq::empty())
    } else {
        then_append(
            link_products(ops, endpoints, interfaces, entries, ipv4, ipv6, names, n - 1),
            name_products(ops, endpoints, interfaces, entries, ipv4, ipv6, names[n - 1]),
        )
    }
}

proof fn lemma_interface_failure_sticks(
    ops: Seq<u16>,
    endpoints: Seq<DiscoveryEndpoint>,
    interface: NetworkInterface,
    entries: Seq<InterfaceAddressEntry>,
    ipv4: bool,
    ipv6: bool,
    k: int,
    n: int,
)
    requires
        k <= n,
        interface_products(ops, endpoints, interface, entries, ipv4, ipv6, k) is Err,
    ensures
        interface_products(ops, endpoints, interface, entries, ipv4, ipv6, n) == interface_products(
            ops,
            endpoints,
            interface,
            entries,
            ipv4,
            ipv6,
            k,
        ),
    decreases n - k,
{
    if k < n {
        lemma_interface_failure_sticks(ops, endpoints, interface, entries, ipv4, ipv6, k, n - 1);
    }
}

proof fn lemma_link_failure_sticks(
    ops: Seq<u16>,
    endpoints: Seq<DiscoveryEndpoint>,
    interfaces: Seq<NetworkInterface>,
    entries: Seq<InterfaceAddressEntry>,
    ipv4: bool,
    ipv6: bool,
    names: Seq<Seq<char>>,
    k: int,
    n: int,
)
    requires
        k <= n,
        link_products(ops, endpoints, interfaces, entries, ipv4, ipv6, names, k) is Err,
    ensures
        link_products(ops, endpoints, interfaces, entries, ipv4, ipv6, names, n) == link_products(
            ops,
            endpoints,
            interfaces,
            entries,
            ipv4,
            ipv6,
            names,
            k,
        ),
    decreases n - k,
{
    if k < n {
        lemma_link_failure_sticks(ops, endpoints, interfaces, entries, ipv4, ipv6, names, k, n - 1);
    }
}

fn interface_message(name: &String, tail: &str) -> (r: String)
    ensures
        r@ == "interface "@ + name@ + tail@,
{
    let mut message = String::from_str("interface ");
    message.append(name.as_str());
    message.append(tail);
    message
}

fn find_interface(interfaces: &Vec<NetworkInterface>, name: &String) -> (r: Option<usize>)
    ensures
        match r {
            Some(i) => i < interfaces@.len() && named_interface(interfaces@, name@) == Some(
                interfaces@[i as int],
            ),
            None => named_interface(interfaces@, name@) is None,
        },
{
    let mut i: usize = 0;
    proof {
        assert(interfaces@.skip(0) =~= interfaces@);
    }
    while i < interfaces.len()
        invariant
            i <= interfaces@.len(),
            named_interface(interfaces@, name@) == named_interface(interfaces@.skip(i as int), name@),
        decreases interfaces@.len() - i,
    {
        proof {
            assert(interfaces@.skip(i as int)[0] == interfaces@[i as int]);
            assert(interfaces@.skip(i as int).drop_first() =~= interfaces@.skip(i + 1));
        }
        if str_eq(interfaces[i].name.as_str(), name.as_str()) {
            return Some(i);
        }
        i = i + 1;
    }
    None
}

/// Appends the link queries of the operation at position `op` on an
/// interface.
fn add_link_operation(
    op: usize,
    endpoint: Option<DiscoveryEndpoint>,
    interface: &NetworkInterface,
    entries: &[InterfaceAddressEntry],
    ipv4: bool,
    ipv6: bool,
    out: &mut Vec<QueryProduct>,
) -> (r: Result<(), ScannerError>)
    ensures
        match (r, link_operation_products(op as int, endpoint, *interface, entries@, ipv4, ipv6)) {
            (Ok(_), Ok(ps)) => final(out)@ == old(out)@ + ps,
            (Err(e), Err(v)) => e@ == v,
            _ => false,
        },
{
    let ghost start = out@;
    let d = match endpoint {
        Some(d) => d,
        None => {
            return Err(ScannerError::internal("run discovery", "operation disappeared"));
        },
    };
    let ghost mut added: Seq<QueryProduct> = Seq::empty();
    if ipv4 {
        match interface_source(entries, interface.index, false) {
            None => {
                let message = interface_message(&interface.name, " has no IPv4 address");
                return Err(ScannerError::context("resolve discovery interface", message.as_str()));
            },
            Some(source) => {
                match d.ipv4_multicast {
                    Some(group) => {
                        let product = QueryProduct {
                            operation: op,
                            destination: SocketEndpoint {
                                address: IpAddress::V4(group),
                                port: d.destination_port,
                                scope_id: 0,
                            },
                            source: SocketEndpoint { address: source, port: 0, scope_id: 0 },
                            interface_index: Some(interface.index),
                            expected_target: None,
                        };
                        out.push(product);
                        proof {
                            added = seq![product];
                        }
                    },
                    None => {},
                }
            },
        }
    }
    let ghost v4_added = added;
    if ipv6 {
        match interface_source(entries, interface.index, true) {
            None => {
                let message = interface_message(&interface.name, " has no IPv6 address");
                return Err(ScannerError::context("resolve discovery interface", message.as_str()));
            },
            Some(source) => {
                match d.ipv6_multicast {
                    Some(group) => {
                        let product = QueryProduct {
                            operation: op,
                            destination: SocketEndpoint {
                                address: IpAddress::V6(group),
                                port: d.destination_port,
                                scope_id: interface.index,
                            },
                            source: SocketEndpoint { address: source, port: 0, scope_id: 0 },
                            interface_index: Some(interface.index),
                            expected_target: None,
                        };
                        out.push(product);
                        proof {
                            added = added.push(product);
                        }
                    },
                    None => {},
                }
            },
        }
    }
    proof {
        assert(out@ =~= start + added);
        assert(added =~= v4_added + (added.skip(v4_added.len() as int)));
    }
    Ok(())
}

/// The queries of a link scope: each operation on each named interface in
/// turn, stopping at the first failure.
pub fn link_queries(
    operations: &Vec<ValidatedDiscoveryOperation>,
    endpoints: &[DiscoveryEndpoint],
    interfaces: &Vec<NetworkInterface>,
    entries: &[InterfaceAddressEntry],
    ipv4: bool,
    ipv6: bool,
    names: &Vec<String>,
) -> (r: Result<Vec<QueryProduct>, ScannerError>)
    ensures
        outcome_is(
            r,
            link_products(
                operation_ids(operations@),
                endpoints@,
                interfaces@,
                entries@,
                ipv4,
                ipv6,
                name_texts(names@),
                names@.len() as int,
            ),
        ),
{
    let ghost ops = operation_ids(operations@);
    let ghost texts = name_texts(names@);
    let mut out: Vec<QueryProduct> = Vec::new();
    let mut i: usize = 0;
    while i < names.len()
        invariant
            i <= names@.len(),
            ops == operation_ids(operations@),
            texts == name_texts(names@),
            link_products(ops, endpoints@, interfaces@, entries@, ipv4, ipv6, texts, i as int) == Ok::<
                Seq<QueryProduct>,
                ScannerErrorView,
            >(out@),
        decreases names@.len() - i,
    {
        let ghost base = out@;
        let found = find_interface(interfaces, &names[i]);
        proof {
            assert(texts[i as int] == names@[i as int]@);
        }
        let index = match found {
            Some(index) => index,
            None => {
                let message = interface_message(&names[i], " is absent");
                proof {
                    lemma_link_failure_sticks(
                        ops,
                        endpoints@,
                        interfaces@,
                        entries@,
                        ipv4,
                        ipv6,
                        texts,
                        i + 1,
                        names@.len() as int,
                    );
                }
                return Err(ScannerError::context("resolve discovery interface", message.as_str()));
            },
        };
        let interface = &interfaces[index];
        let mut j: usize = 0;
        while j < operations.len()
            invariant
                j <= operations@.len(),
                i < names@.len(),
                ops == operation_ids(operations@),
                texts == name_texts(names@),
                link_products(ops, endpoints@, interfaces@, entries@, ipv4, ipv6, texts, i as int)
                    == Ok::<Seq<QueryProduct>, ScannerErrorView>(base),
                named_interface(interfaces@, texts[i as int]) == Some(*interface),
                interface_products(ops, endpoints@, *interface, entries@, ipv4, ipv6, j as int) matches Ok(
                    p,
                ) && out@ == base + p,
            decreases operations@.len() - j,
        {
            let ghost prior = out@;
            let endpoint = find_endpoint(endpoints, operations[j].id);
            proof {
                assert(ops[j as int] == operations@[j as int].id);
            }
            let added = add_link_operation(j, endpoint, interface, entries, ipv4, ipv6, &mut out);
            match added {
                Ok(_) => {
                    proof {
                        let p = interface_products(
                            ops,
                            endpoints@,
                            *interface,
                            entries@,
                            ipv4,
                            ipv6,
                            j as int,
                        )->Ok_0;
                        let q = link_operation_products(
                            j as int,
                            endpoint,
                            *interface,
                            entries@,
                            ipv4,
                            ipv6,
                        )->Ok_0;
                        assert(out@ =~= base + (p + q));
                    }
                },
                Err(e) => {
                    proof {
                        lemma_interface_failure_sticks(
                            ops,
                            endpoints@,
                            *interface,
                            entries@,
                            ipv4,
                            ipv6,
                            j + 1,
                            operations@.len() as int,
                        );
                        lemma_link_failure_sticks(
                            ops,
                            endpoints@,
                            interfaces@,
                            entries@,
                            ipv4,
                            ipv6,
                            texts,
                            i + 1,
                            names@.len() as int,
                        );
                    }
                    return Err(e);
                },
            }
            j = j + 1;
        }
        proof {
            assert(operations@.len() == ops.len());
        }
        i = i + 1;
    }
    Ok(out)
}

/// A resolved target: an address and the interface it is reached on.
pub type ResolvedTarget = (IpAddress, Option<u32>);

/// Address order: IPv4 before IPv6, then by octets.
pub open spec fn address_before(a: IpAddress, b: IpAddress) -> bool {
    match (a, b) {
        (IpAddress::V4(_), IpAddress::V6(_)) => true,
        (IpAddress::V4(x), IpAddress::V4(y)) => lex_lt(x@, y@),
        (IpAddress::V6(x), IpAddress::V6(y)) => lex_lt(x@, y@),
        _ => false,
    }
}

/// Target order: by address, then by interface (none first).
pub open spec fn target_before(a: ResolvedTarget, b: ResolvedTarget) -> bool {
    address_before(a.0, b.0) || (a.0 == b.0 && index_before(a.1, b.1))
}

proof fn lemma_target_order_transitive()
    ensures
        transitive(|a: ResolvedTarget, b: ResolvedTarget| target_before(a, b)),
{
    let before = |a: ResolvedTarget, b: ResolvedTarget| target_before(a, b);
    assert forall|a: ResolvedTarget, b: ResolvedTarget, c: ResolvedTarget| #[trigger] before(a, b)
        && #[trigger] before(b, c) implies before(a, c) by {
        match (a.0, b.0, c.0) {
            (IpAddress::V4(x), IpAddress::V4(y), IpAddress::V4(z)) => {
                lemma_lex_total(x@, y@);
                lemma_lex_total(y@, z@);
                lemma_lex_total(x@, z@);
                if lex_lt(x@, y@) && lex_lt(y@, z@) {
                    lemma_lex_trans(x@, y@, z@);
                }
            },
            (IpAddress::V6(x), IpAddress::V6(y), IpAddress::V6(z)) => {
                lemma_lex_total(x@, y@);
                lemma_lex_total(y@, z@);
                lemma_lex_total(x@, z@);
                if lex_lt(x@, y@) && lex_lt(y@, z@) {
                    lemma_lex_trans(x@, y@, z@);
                }
            },
            _ => {},
        }
    }
}

/// Compares two resolved targets.
pub fn compare_targets(a: &ResolvedTarget, b: &ResolvedTarget) -> (r: Precedence)
    ensures
        (r == Precedence::Before) == target_before(*a, *b),
        (r == Precedence::Same) == (*a == *b),
        (r == Precedence::After) == target_before(*b, *a),
{
    if same_address(&a.0, &b.0) {
        proof {
            match a.0 {
                IpAddress::V4(x) => lemma_lex_total(x@, x@),
                IpAddress::V6(x) => lemma_lex_total(x@, x@),
            }
        }
        return match (a.1, b.1) {
            (None, None) => Precedence::Same,
            (None, Some(_)) => Precedence::Before,
            (Some(_), None) => Precedence::After,
            (Some(x), Some(y)) => if x < y {
                Precedence::Before
            } else if y < x {
                Precedence::After
            } else {
                Precedence::Same
            },
        };
    }
    match (a.0, b.0) {
        (IpAddress::V4(x), IpAddress::V4(y)) => {
            proof {
                lemma_lex_total(x@, y@);
                if x@ == y@ {
                    assert(x =~= y);
                }
            }
            compare_bytes(x.as_slice(), y.as_slice())
        },
        (IpAddress::V6(x), IpAddress::V6(y)) => {
            proof {
                lemma_lex_total(x@, y@);
                if x@ == y@ {
                    assert(x =~= y);
                }
            }
            compare_bytes(x.as_slice(), y.as_slice())
        },
        (IpAddress::V4(_), IpAddress::V6(_)) => Precedence::Before,
        (IpAddress::V6(_), IpAddress::V4(_)) => Precedence::After,
    }
}

/// The failure of a kernel-gateway scope without a gateway.
pub open spec fn gateway_missing() -> ScannerErrorView {
    scan_failure(
        ScanFailure::Context,
        "resolve default IPv4 gateway"@,
        "no kernel-selected IPv4 gateway is available"@,
    )
}

/// The failure of a target scope whose exclusions removed every target.
pub open spec fn no_targets_left() -> ScannerErrorView {
    invalid_plan("resolve discovery targets"@, "discovery exclusions removed every target"@)
}

/// The targets of a target scope before ordering: the normalized targets,
/// and the kernel's default IPv4 gateway where the scope asks for it and
/// the exclusions spare it.
pub open spec fn candidate_targets(
    targets: Seq<ResolvedTarget>,
    kernel_gateway: bool,
    gateway: Option<ResolvedTarget>,
    gateway_excluded: bool,
) -> Result<Seq<ResolvedTarget>, ScannerErrorView> {
    if kernel_gateway {
        match gateway {
            None => Err(gateway_missing()),
            Some(g) => Ok(
                if gateway_excluded {
                    targets
                } else {
                    targets.push(g)
                },
            ),
        }
    } else {
        Ok(targets)
    }
}

/// Whether `resolved` holds the candidates in target order, each once.
pub open spec fn targets_resolved(resolved: Seq<ResolvedTarget>, candidates: Seq<ResolvedTarget>) -> bool {
    &&& ascending_by(resolved, |a: ResolvedTarget, b: ResolvedTarget| target_before(a, b))
    &&& forall|t: ResolvedTarget| resolved.contains(t) == candidates.contains(t)
}

fn order_targets(candidates: &Vec<ResolvedTarget>) -> (r: Vec<ResolvedTarget>)
    ensures
        targets_resolved(r@, candidates@),
{
    let ghost before = |a: ResolvedTarget, b: ResolvedTarget| target_before(a, b);
    proof {
        lemma_target_order_transitive();
    }
    let mut out: Vec<ResolvedTarget> = Vec::new();
    let mut i: usize = 0;
    while i < candidates.len()
        invariant
            i <= candidates@.len(),
            transitive(before),
            before == (|a: ResolvedTarget, b: ResolvedTarget| target_before(a, b)),
            ascending_by(out@, before),
            forall|t: ResolvedTarget| out@.contains(t) == candidates@.take(i as int).contains(t),
        decreases candidates@.len() - i,
    {
        let x = candidates[i];
        let mut p: usize = 0;
        let mut found = Precedence::After;
        while p < out.len()
            invariant
                p <= out@.len(),
                forall|k: int| 0 <= k < p ==> target_before(#[trigger] out@[k], x),
            ensures
                p <= out@.len(),
                forall|k: int| 0 <= k < p ==> target_before(#[trigger] out@[k], x),
                p < out@.len() ==> (found == Precedence::Same) == (out@[p as int] == x),
                p < out@.len() ==> (found == Precedence::After) == target_before(x, out@[p as int]),
                p < out@.len() ==> found != Precedence::Before,
            decreases out@.len() - p,
        {
            let c = compare_targets(&out[p], &x);
            if c != Precedence::Before {
                found = c;
                break;
            }
            p = p + 1;
        }
        let ghost prior = out@;
        proof {
            assert(candidates@.take(i + 1) =~= candidates@.take(i as int).push(x));
        }
        if p < out.len() && found == Precedence::Same {
            proof {
                lemma_contains_after_adding(prior, out@, candidates@.take(i as int), x);
            }
        } else {
            out.insert(p, x);
            proof {
                lemma_insert_keeps_ascending(prior, p as int, x, before);
                lemma_contains_after_adding(prior, out@, candidates@.take(i as int), x);
            }
        }
        i = i + 1;
    }
    proof {
        assert(candidates@.take(i as int) =~= candidates@);
    }
    out
}

/// Resolves the targets of a target scope: the normalized targets with the
/// kernel's default IPv4 gateway added where the scope asks for it (and
/// the exclusions spare it), in target order and each once.
pub fn resolve_targets(
    targets: &Vec<ResolvedTarget>,
    kernel_gateway: bool,
    gateway: Option<ResolvedTarget>,
    gateway_excluded: bool,
) -> (r: Result<Vec<ResolvedTarget>, ScannerError>)
    ensures
        match candidate_targets(targets@, kernel_gateway, gateway, gateway_excluded) {
            Err(v) => r matches Err(e) && e@ == v,
            Ok(c) => if c.len() == 0 {
                r matches Err(e) && e@ == no_targets_left()
            } else {
                r matches Ok(resolved) && targets_resolved(resolved@, c) && resolved@.len() > 0
            },
        },
{
    let mut candidates: Vec<ResolvedTarget> = Vec::new();
    let mut i: usize = 0;
    while i < targets.len()
        invariant
            i <= targets@.len(),
            candidates@ == targets@.take(i as int),
        decreases targets@.len() - i,
    {
        candidates.push(targets[i]);
        proof {
            assert(candidates@ =~= targets@.take(i + 1));
        }
        i = i + 1;
    }
    proof {
        assert(targets@.take(i as int) =~= targets@);
    }
    if kernel_gateway {
        match gateway {
            None => {
                return Err(
                    ScannerError::context(
                        "resolve default IPv4 gateway",
                        "no kernel-selected IPv4 gateway is available",
                    ),
                );
            },
            Some(g) => {
                if !gateway_excluded {
                    candidates.push(g);
                }
            },
        }
    }
    let resolved = order_targets(&candidates);
    if resolved.len() == 0 {
        proof {
            if candidates@.len() > 0 {
                assert(candidates@.contains(candidates@[0]));
            }
        }
        return Err(
            ScannerError::invalid(
                "resolve discovery targets",
                "discovery exclusions removed every target",
            ),
        );
    }
    proof {
        assert(resolved@.contains(resolved@[0]));
    }
    Ok(resolved)
}

/// The failure of a NAT-PMP target that is not on an attached IPv4 link.
pub open spec fn nat_pmp_off_link() -> ScannerErrorView {
    invalid_plan(
        "resolve NAT-PMP target"@,
        "explicit NAT-PMP targets must be on a directly attached IPv4 link"@,
    )
}

/// Whether an operation serves a target's family.
pub open spec fn serves(families: AddressFamilies, target: IpAddress) -> bool {
    match target {
        IpAddress::V4(_) => families == AddressFamilies::Ipv4 || families == AddressFamilies::Both,
        IpAddress::V6(_) => families == AddressFamilies::Ipv6 || families == AddressFamilies::Both,
    }
}

/// The unspecified address of a target's family.
pub open spec fn unspecified_like(target: IpAddress) -> IpAddress {
    match target {
        IpAddress::V4(_) => IpAddress::V4([0u8, 0, 0, 0]),
        IpAddress::V6(_) => IpAddress::V6([0u8, 0, 0, 0, 0, 0, 0, 0, 0, 0, 0, 0, 0, 0, 0, 0]),
    }
}

/// The query of the operation at position `op` to a target: to the
/// operation's port at the target (scoped by its interface for IPv6), from
/// the unspecified address of its family, with replies expected from it.
pub open spec fn target_product(op: int, d: DiscoveryEndpoint, target: ResolvedTarget) -> QueryProduct {
    QueryProduct {
        operation: op as usize,
        destination: SocketEndpoint {
            address: target.0,
            port: d.destination_port,
            scope_id: match target.0 {
                IpAddress::V4(_) => 0,
                IpAddress::V6(_) => match target.1 {
                    Some(index) => index,
                    None => 0,
                },
            },
        },
        source: SocketEndpoint { address: unspecified_like(target.0), port: 0, scope_id: 0 },
        interface_index: target.1,
        expected_target: Some(target.0),
    }
}

/// The query (if any) of the operation at position `op` to one target: a
/// NAT-PMP target must be on an attached IPv4 link unless it is the
/// kernel's gateway scope, and a target of a family the operation does not
/// serve gets none.
pub open spec fn single_target_products(
    op: int,
    op_id: u16,
    d: DiscoveryEndpoint,
    target: ResolvedTarget,
    entries: Seq<InterfaceAddressEntry>,
    kernel_gateway: bool,
) -> Result<Seq<QueryProduct>, ScannerErrorView> {
    if op_id == OPERATION_NAT_PMP && !on_same_link(target.0, target.1, entries) && !kernel_gateway {
        Err(nat_pmp_off_link())
    } else if serves(d.families, target.0) {
        Ok(seq![target_product(op, d, target)])
    } else {
        Ok(Seq::empty())
    }
}

/// The queries of the operation at position `op` to the first `n` targets.
pub open spec fn operation_target_products(
    op: int,
    op_id: u16,
    d: DiscoveryEndpoint,
    targets: Seq<ResolvedTarget>,
    entries: Seq<InterfaceAddressEntry>,
    kernel_gateway: bool,
    n: int,
) -> Result<Seq<QueryProduct>, ScannerErrorView>
    decreases n,
{
    if n <= 0 {
        Ok(Seq::empty())
    } else {
        then_append(
            operation_target_products(op, op_id, d, targets, entries, kernel_gateway, n - 1),
            single_target_products(op, op_id, d, targets[n - 1], entries, kernel_gateway),
        )
    }
}

/// The queries of the first `n` operations to all targets.
pub open spec fn target_products(
    ops: Seq<u16>,
    endpoints: Seq<DiscoveryEndpoint>,
    targets: Seq<ResolvedTarget>,
    entries: Seq<InterfaceAddressEntry>,
    kernel_gateway: bool,
    n: int,
) -> Result<Seq<QueryProduct>, ScannerErrorView>
    decreases n,
{
    if n <= 0 {
        Ok(Seq::empty())
    } else {
        then_append(
            target_products(ops, endpoints, targets, entries, kernel_gateway, n - 1),
            match endpoint_entry(endpoints, ops[n - 1]) {
                None => Err(operation_vanished()),
                Some(d) => operation_target_products(
                    n - 1,
                    ops[n - 1],
                    d,
                    targets,
                    entries,
                    kernel_gateway,
                    targets.len() as int,
                ),
            },
        )
    }
}

proof fn lemma_operation_failure_sticks(
    op: int,
    op_id: u16,
    d: DiscoveryEndpoint,
    targets: Seq<ResolvedTarget>,
    entries: Seq<InterfaceAddressEntry>,
    kernel_gateway: bool,
    k: int,
    n: int,
)
    requires
        k <= n,
        operation_target_products(op, op_id, d, targets, entries, kernel_gateway, k) is Err,
    ensures
        operation_target_products(op, op_id, d, targets, entries, kernel_gateway, n)
            == operation_target_products(op, op_id, d, targets, entries, kernel_gateway, k),
    decreases n - k,
{
    if k < n {
        lemma_operation_failure_sticks(op, op_id, d, targets, entries, kernel_gateway, k, n - 1);
    }
}

proof fn lemma_target_failure_sticks(
    ops: Seq<u16>,
    endpoints: Seq<DiscoveryEndpoint>,
    targets: Seq<ResolvedTarget>,
    entries: Seq<InterfaceAddressEntry>,
    kernel_gateway: bool,
    k: int,
    n: int,
)
    requires
        k <= n,
        target_products(ops, endpoints, targets, entries, kernel_gateway, k) is Err,
    ensures
        target_products(ops, endpoints, targets, entries, kernel_gateway, n) == target_products(
            ops,
            endpoints,
            targets,
            entries,
            kernel_gateway,
            k,
        ),
    decreases n - k,
{
    if k < n {
        lemma_target_failure_sticks(ops, endpoints, targets, entries, kernel_gateway, k, n - 1);
    }
}

fn unspecified_address(target: &IpAddress) -> (r: IpAddress)
    ensures
        r == unspecified_like(*target),
{
    match target {
        IpAddress::V4(_) => IpAddress::V4([0u8, 0, 0, 0]),
        IpAddress::V6(_) => IpAddress::V6([0u8, 0, 0, 0, 0, 0, 0, 0, 0, 0, 0, 0, 0, 0, 0, 0]),
    }
}

/// The queries of a target scope: each operation to each resolved target in
/// turn, stopping at the first failure.
pub fn target_queries(
    operations: &Vec<ValidatedDiscoveryOperation>,
    endpoints: &[DiscoveryEndpoint],
    targets: &Vec<ResolvedTarget>,
    entries: &[InterfaceAddressEntry],
    kernel_gateway: bool,
) -> (r: Result<Vec<QueryProduct>, ScannerError>)
    ensures
        outcome_is(
            r,
            target_products(
                operation_ids(operations@),
                endpoints@,
                targets@,
                entries@,
                kernel_gateway,
                operations@.len() as int,
            ),
        ),
{
    let ghost ops = operation_ids(operations@);
    let mut out: Vec<QueryProduct> = Vec::new();
    let mut i: usize = 0;
    while i < operations.len()
        invariant
            i <= operations@.len(),
            ops == operation_ids(operations@),
            target_products(ops, endpoints@, targets@, entries@, kernel_gateway, i as int) == Ok::<
                Seq<QueryProduct>,
                ScannerErrorView,
            >(out@),
        decreases operations@.len() - i,
    {
        let ghost base = out@;
        let id = operations[i].id;
        proof {
            assert(ops[i as int] == id);
        }
        let d = match find_endpoint(endpoints, id) {
            Some(d) => d,
            None => {
                proof {
                    lemma_target_failure_sticks(
                        ops,
                        endpoints@,
                        targets@,
                        entries@,
                        kernel_gateway,
                        i + 1,
                        operations@.len() as int,
                    );
                }
                return Err(ScannerError::internal("run discovery", "operation disappeared"));
            },
        };
        let mut j: usize = 0;
        while j < targets.len()
            invariant
                j <= targets@.len(),
                i < operations@.len(),
                ops == operation_ids(operations@),
                ops[i as int] == id,
                endpoint_entry(endpoints@, id) == Some(d),
                target_products(ops, endpoints@, targets@, entries@, kernel_gateway, i as int) == Ok::<
                    Seq<QueryProduct>,
                    ScannerErrorView,
                >(base),
                operation_target_products(
                    i as int,
                    id,
                    d,
                    targets@,
                    entries@,
                    kernel_gateway,
                    j as int,
                ) matches Ok(p) && out@ == base + p,
            decreases targets@.len() - j,
        {
            let target = targets[j];
            if id == OPERATION_NAT_PMP && !same_link_ipv4_target(target.0, target.1, entries)
                && !kernel_gateway {
                proof {
                    lemma_operation_failure_sticks(
                        i as int,
                        id,
                        d,
                        targets@,
                        entries@,
                        kernel_gateway,
                        j + 1,
                        targets@.len() as int,
                    );
                    lemma_target_failure_sticks(
                        ops,
                        endpoints@,
                        targets@,
                        entries@,
                        kernel_gateway,
                        i + 1,
                        operations@.len() as int,
                    );
                }
                return Err(
                    ScannerError::invalid(
                        "resolve NAT-PMP target",
                        "explicit NAT-PMP targets must be on a directly attached IPv4 link",
                    ),
                );
            }
            let compatible = match target.0 {
                IpAddress::V4(_) => match d.families {
                    AddressFamilies::Ipv4 | AddressFamilies::Both => true,
                    AddressFamilies::Ipv6 => false,
                },
                IpAddress::V6(_) => match d.families {
                    AddressFamilies::Ipv6 | AddressFamilies::Both => true,
                    AddressFamilies::Ipv4 => false,
                },
            };
            let ghost prior = out@;
            if compatible {
                let scope_id: u32 = match target.0 {
                    IpAddress::V4(_) => 0,
                    IpAddress::V6(_) => match target.1 {
                        Some(index) => index,
                        None => 0,
                    },
                };
                let product = QueryProduct {
                    operation: i,
                    destination: SocketEndpoint {
                        address: target.0,
                        port: d.destination_port,
                        scope_id,
                    },
                    source: SocketEndpoint {
                        address: unspecified_address(&target.0),
                        port: 0,
                        scope_id: 0,
                    },
                    interface_index: target.1,
                    expected_target: Some(target.0),
                };
                out.push(product);
                proof {
                    assert(product == target_product(i as int, d, target));
                }
            }
            proof {
                let p = operation_target_products(
                    i as int,
                    id,
                    d,
                    targets@,
                    entries@,
                    kernel_gateway,
                    j as int,
                )->Ok_0;
                let q = single_target_products(i as int, id, d, target, entries@, kernel_gateway)->Ok_0;
                assert(out@ =~= base + (p + q));
            }
            j = j + 1;
        }
        i = i + 1;
    }
    Ok(out)
}

/// The queries of a discovery plan. A link scope that names no interface
/// takes every eligible interface, sorted by name. A target scope takes the
/// normalized `targets`, with the kernel's default IPv4 `gateway` added
/// where the scope asks for it and `gateway_excluded` is false, in target
/// order and each once.
pub fn discovery_products(
    plan: &ValidatedDiscoveryPlan,
    endpoints: &[DiscoveryEndpoint],
    interfaces: &Vec<NetworkInterface>,
    entries: &[InterfaceAddressEntry],
    targets: &Vec<ResolvedTarget>,
    gateway: Option<ResolvedTarget>,
    gateway_excluded: bool,
) -> (r: Result<Vec<QueryProduct>, ScannerError>)
    ensures
        match plan.scope {
            DiscoveryScopeSelection::Links { interfaces: named, ipv4, ipv6 } => if named@.len() > 0 {
                outcome_is(
                    r,
                    link_products(
                        operation_ids(plan.operations@),
                        endpoints@,
                        interfaces@,
                        entries@,
                        ipv4,
                        ipv6,
                        name_texts(named@),
                        named@.len() as int,
                    ),
                )
            } else if !(1 <= eligible_names(interfaces@, entries@, ipv4, ipv6).len() <= 16) {
                r matches Err(e) && e@ == eligible_count_failure()
            } else {
                exists|names: Seq<String>|
                    {
                        &&& names_sorted(names)
                        &&& names.to_multiset() == eligible_names(
                            interfaces@,
                            entries@,
                            ipv4,
                            ipv6,
                        ).to_multiset()
                        &&& outcome_is(
                            r,
                            link_products(
                                operation_ids(plan.operations@),
                                endpoints@,
                                interfaces@,
                                entries@,
                                ipv4,
                                ipv6,
                                name_texts(names),
                                names.len() as int,
                            ),
                        )
                    }
            },
            DiscoveryScopeSelection::Targets { kernel_default_ipv4_gateway, .. } => match candidate_targets(
                targets@,
                kernel_default_ipv4_gateway,
                gateway,
                gateway_excluded,
            ) {
                Err(v) => r matches Err(e) && e@ == v,
                Ok(c) => if c.len() == 0 {
                    r matches Err(e) && e@ == no_targets_left()
                } else {
                    exists|resolved: Seq<ResolvedTarget>|
                        {
                            &&& targets_resolved(resolved, c)
                            &&& outcome_is(
                                r,
                                target_products(
                                    operation_ids(plan.operations@),
                                    endpoints@,
                                    resolved,
                                    entries@,
                                    kernel_default_ipv4_gateway,
                                    plan.operations@.len() as int,
                                ),
                            )
                        }
                },
            },
        },
{
    match &plan.scope {
        DiscoveryScopeSelection::Links { interfaces: named, ipv4, ipv6 } => {
            if named.len() > 0 {
                link_queries(&plan.operations, endpoints, interfaces, entries, *ipv4, *ipv6, named)
            } else {
                let names = match eligible_interfaces(interfaces, entries, *ipv4, *ipv6) {
                    Ok(names) => names,
                    Err(e) => {
                        return Err(e);
                    },
                };
                link_queries(&plan.operations, endpoints, interfaces, entries, *ipv4, *ipv6, &names)
            }
        },
        DiscoveryScopeSelection::Targets { kernel_default_ipv4_gateway, .. } => {
            let resolved = match resolve_targets(
                targets,
                *kernel_default_ipv4_gateway,
                gateway,
                gateway_excluded,
            ) {
                Ok(resolved) => resolved,
                Err(e) => {
                    return Err(e);
                },
            };
            target_queries(&plan.operations, endpoints, &resolved, entries, *kernel_default_ipv4_gateway)
        },
    }
}

/// Whether an address is multicast: 224.0.0.0/4 or ff00::/8.
pub open spec fn is_multicast(address: IpAddress) -> bool {
    match address {
        IpAddress::V4(a) => 224 <= a[0] <= 239,
        IpAddress::V6(a) => a[0] == 0xff,
    }
}

/// The per-operation state a query keeps.
#[derive(Clone, Copy, Debug, PartialEq, Eq, Structural)]
pub enum QueryContextKind {
    Mdns,
    WsDiscovery,
    /// An LLMNR query for AAAA records (type 28) over IPv6, else A (type 1).
    Llmnr { query_type: u16 },
    NatPmp,
    SqlBrowser,
    Rpcbind,
    Tftp,
    Quic,
}

/// What preparing a query decides besides its socket: the multicast hop
/// limit where it goes to a group, and the state it keeps.
#[derive(Clone, Copy, Debug, PartialEq, Eq, Structural)]
pub struct QuerySetup {
    pub multicast_hops: Option<u8>,
    pub context: QueryContextKind,
}

/// The state an operation's query keeps, if the operation can run.
pub open spec fn context_of(operation_id: u16, destination_v6: bool) -> Option<QueryContextKind> {
    if operation_id == 1 {
        Some(QueryContextKind::Mdns)
    } else if operation_id == 3 {
        Some(QueryContextKind::WsDiscovery)
    } else if operation_id == 4 {
        Some(QueryContextKind::Llmnr { query_type: if destination_v6 { 28 } else { 1 } })
    } else if operation_id == 5 {
        Some(QueryContextKind::NatPmp)
    } else if operation_id == 6 {
        Some(QueryContextKind::SqlBrowser)
    } else if operation_id == 7 {
        Some(QueryContextKind::Rpcbind)
    } else if operation_id == 8 {
        Some(QueryContextKind::Tftp)
    } else if operation_id == 9 {
        Some(QueryContextKind::Quic)
    } else {
        None
    }
}

/// Decides how a query is prepared: to a multicast group it goes with a
/// hop limit of 255 for mDNS and 1 otherwise; its state follows its
/// operation, and an operation without one cannot run.
pub fn query_setup(operation_id: u16, destination: &SocketEndpoint) -> (r: Result<QuerySetup, ScannerError>)
    ensures
        match context_of(operation_id, destination.address is V6) {
            None => r matches Err(e) && e@ == invalid_plan("start discovery"@, "operation is not executable"@),
            Some(context) => r matches Ok(setup) && setup == (QuerySetup {
                multicast_hops: if is_multicast(destination.address) {
                    Some(if operation_id == 1 { 255u8 } else { 1u8 })
                } else {
                    None
                },
                context,
            }),
        },
{
    let v6 = match destination.address {
        IpAddress::V4(_) => false,
        IpAddress::V6(_) => true,
    };
    let context = if operation_id == 1 {
        QueryContextKind::Mdns
    } else if operation_id == 3 {
        QueryContextKind::WsDiscovery
    } else if operation_id == 4 {
        QueryContextKind::Llmnr { query_type: if v6 { 28 } else { 1 } }
    } else if operation_id == 5 {
        QueryContextKind::NatPmp
    } else if operation_id == 6 {
        QueryContextKind::SqlBrowser
    } else if operation_id == 7 {
        QueryContextKind::Rpcbind
    } else if operation_id == 8 {
        QueryContextKind::Tftp
    } else if operation_id == 9 {
        QueryContextKind::Quic
    } else {
        return Err(ScannerError::invalid("start discovery", "operation is not executable"));
    };
    let multicast = match destination.address {
        IpAddress::V4(a) => 224 <= a[0] && a[0] <= 239,
        IpAddress::V6(a) => a[0] == 0xff,
    };
    let multicast_hops = if multicast {
        Some(if operation_id == 1 { 255u8 } else { 1u8 })
    } else {
        None
    };
    Ok(QuerySetup { multicast_hops, context })
}

} // verus!

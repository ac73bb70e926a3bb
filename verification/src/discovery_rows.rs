//! How a discovery session treats what it receives: which datagrams a query
//! accepts, the transfer port a TFTP exchange pins, how a repeated entity is
//! merged into the one already retained, and how a truncated entity is
//! marked.
use vstd::prelude::*;

use crate::discovery::{NativeDiscoveryMetadataField, NativeDiscoveryRow};
use crate::path::same_address;
use crate::results::IpAddress;
use crate::text::{owned, str_eq};

verus! {

broadcast use vstd::string::group_string_axioms;

/// The most addresses one retained entity lists.
pub const MAX_ROW_ADDRESSES: usize = 32;

/// Which source ports a query accepts replies from.
#[derive(Clone, Copy, Debug, PartialEq, Eq, Structural)]
pub enum ReplyPortRule {
    /// Any nonzero port (a TFTP server answers from a transfer port).
    AnyNonzero,
    /// Exactly this port.
    Exactly(u16),
}

/// Whether a reply's source port fits a query's rule.
pub open spec fn port_rule_admits(rule: ReplyPortRule, source_port: u16) -> bool {
    match rule {
        ReplyPortRule::AnyNonzero => source_port != 0,
        ReplyPortRule::Exactly(port) => source_port == port,
    }
}

/// Reports whether a reply's source port fits a query's rule.
pub fn source_port_matches(rule: ReplyPortRule, source_port: u16) -> (r: bool)
    ensures
        r == port_rule_admits(rule, source_port),
{
    match rule {
        ReplyPortRule::AnyNonzero => source_port != 0,
        ReplyPortRule::Exactly(port) => source_port == port,
    }
}

/// Whether a query considers a received datagram at all: from its expected
/// target (if it has one), on its interface (if it is bound to one), within
/// the operation's response size, and from an admitted source port.
pub open spec fn datagram_considered(
    expected_target: Option<IpAddress>,
    source: IpAddress,
    query_interface: Option<u32>,
    received_interface: Option<u32>,
    length: usize,
    maximum_response_bytes: usize,
    port_admitted: bool,
) -> bool {
    &&& !(expected_target matches Some(t) && t != source)
    &&& !(query_interface is Some && received_interface != query_interface)
    &&& length <= maximum_response_bytes
    &&& port_admitted
}

/// Decides whether a query considers a received datagram.
pub fn datagram_admitted(
    expected_target: Option<IpAddress>,
    source: IpAddress,
    query_interface: Option<u32>,
    received_interface: Option<u32>,
    length: usize,
    maximum_response_bytes: usize,
    port_admitted: bool,
) -> (r: bool)
    ensures
        r == datagram_considered(
            expected_target,
            source,
            query_interface,
            received_interface,
            length,
            maximum_response_bytes,
            port_admitted,
        ),
{
    match expected_target {
        Some(t) => {
            if !same_address(&t, &source) {
                return false;
            }
        },
        None => {},
    }
    match query_interface {
        Some(q) => match received_interface {
            Some(i) => {
                if i != q {
                    return false;
                }
            },
            None => {
                return false;
            },
        },
        None => {},
    }
    length <= maximum_response_bytes && port_admitted
}

/// Admits a TFTP reply's source port: the first reply pins its port, and
/// later replies must come from the pinned port.
pub fn pin_transfer_port(pinned: &mut Option<u16>, source_port: u16) -> (r: bool)
    ensures
        r == (*old(pinned) is None || *old(pinned) == Some(source_port)),
        *final(pinned) == if *old(pinned) is None {
            Some(source_port)
        } else {
            *old(pinned)
        },
{
    match *pinned {
        Some(port) => port == source_port,
        None => {
            *pinned = Some(source_port);
            true
        },
    }
}

/// Whether an rpcbind reply names a usable NFS endpoint: the queried
/// target itself and a nonzero port.
pub fn rpcbind_endpoint_admitted(address: IpAddress, port: u16, expected_target: Option<IpAddress>) -> (r:
    bool)
    ensures
        r == (expected_target == Some(address) && port != 0),
{
    match expected_target {
        Some(t) => same_address(&t, &address) && port != 0,
        None => false,
    }
}

/// The text of an optional string.
pub open spec fn opt_view(value: Option<String>) -> Option<Seq<char>> {
    match value {
        Some(s) => Some(s@),
        None => None,
    }
}

/// The content of a metadata field: key, bytes and text.
pub type FieldView = (Seq<char>, Seq<u8>, Option<Seq<char>>);

/// The content of a metadata field.
pub open spec fn field_view(field: NativeDiscoveryMetadataField) -> FieldView {
    (field.key@, field.value@, opt_view(field.text))
}

/// The contents of a list of fields.
pub open spec fn field_views(fields: Seq<NativeDiscoveryMetadataField>) -> Seq<FieldView> {
    fields.map_values(|f: NativeDiscoveryMetadataField| field_view(f))
}

/// The texts of a list of addresses.
pub open spec fn address_views(addresses: Seq<String>) -> Seq<Seq<char>> {
    addresses.map_values(|a: String| a@)
}

/// The addresses of an entity after a repeat reported `incoming`: each
/// address not yet listed is appended while fewer than 32 are listed.
pub open spec fn merged_addresses(existing: Seq<Seq<char>>, incoming: Seq<Seq<char>>) -> Seq<Seq<char>>
    decreases incoming.len(),
{
    if incoming.len() == 0 {
        existing
    } else {
        let next = if existing.len() < MAX_ROW_ADDRESSES && !existing.contains(incoming[0]) {
            existing.push(incoming[0])
        } else {
            existing
        };
        merged_addresses(next, incoming.drop_first())
    }
}

/// The fields of an entity after a repeat reported `incoming`: each field
/// not yet held is appended.
pub open spec fn merged_fields(existing: Seq<FieldView>, incoming: Seq<FieldView>) -> Seq<FieldView>
    decreases incoming.len(),
{
    if incoming.len() == 0 {
        existing
    } else {
        let next = if !existing.contains(incoming[0]) {
            existing.push(incoming[0])
        } else {
            existing
        };
        merged_fields(next, incoming.drop_first())
    }
}

/// The outcome and truncation of an entity after a repeat with `incoming`
/// outcome: truncation by policy sticks, and a complete report completes a
/// partial entity.
pub open spec fn merged_outcome(outcome: Seq<char>, truncated: bool, incoming: Seq<char>) -> (
    Seq<char>,
    bool,
) {
    if incoming == "truncatedByPolicy"@ {
        ("truncatedByPolicy"@, true)
    } else if incoming == "complete"@ && outcome == "partial"@ {
        ("complete"@, truncated)
    } else {
        (outcome, truncated)
    }
}

pub(crate) fn copy_option(s: &Option<String>) -> (r: Option<String>)
    ensures
        r == *s,
{
    match s {
        Some(t) => Some(t.clone()),
        None => None,
    }
}

pub(crate) fn copy_bytes(bytes: &Vec<u8>) -> (r: Vec<u8>)
    ensures
        r@ == bytes@,
{
    let mut out: Vec<u8> = Vec::new();
    let mut i: usize = 0;
    while i < bytes.len()
        invariant
            i <= bytes@.len(),
            out@ =~= bytes@.take(i as int),
        decreases bytes@.len() - i,
    {
        out.push(bytes[i]);
        i = i + 1;
    }
    assert(bytes@.take(bytes@.len() as int) =~= bytes@);
    out
}

pub(crate) fn copy_field(field: &NativeDiscoveryMetadataField) -> (r: NativeDiscoveryMetadataField)
    ensures
        field_view(r) == field_view(*field),
{
    NativeDiscoveryMetadataField {
        key: field.key.clone(),
        value: copy_bytes(&field.value),
        text: copy_option(&field.text),
    }
}

fn fields_equal(a: &NativeDiscoveryMetadataField, b: &NativeDiscoveryMetadataField) -> (r: bool)
    ensures
        r == (field_view(*a) == field_view(*b)),
{
    if !str_eq(a.key.as_str(), b.key.as_str()) || a.value.len() != b.value.len() {
        return false;
    }
    let mut i: usize = 0;
    while i < a.value.len()
        invariant
            i <= a.value@.len(),
            a.value@.len() == b.value@.len(),
            forall|k: int| 0 <= k < i ==> a.value@[k] == b.value@[k],
        decreases a.value@.len() - i,
    {
        if a.value[i] != b.value[i] {
            return false;
        }
        i = i + 1;
    }
    assert(a.value@ =~= b.value@);
    match (&a.text, &b.text) {
        (Some(x), Some(y)) => str_eq(x.as_str(), y.as_str()),
        (None, None) => true,
        _ => false,
    }
}

pub(crate) fn holds_field(fields: &Vec<NativeDiscoveryMetadataField>, field: &NativeDiscoveryMetadataField) -> (r:
    bool)
    ensures
        r == field_views(fields@).contains(field_view(*field)),
{
    let mut i: usize = 0;
    while i < fields.len()
        invariant
            i <= fields@.len(),
            forall|k: int| 0 <= k < i ==> field_view(#[trigger] fields@[k]) != field_view(*field),
        decreases fields@.len() - i,
    {
        if fields_equal(&fields[i], field) {
            assert(field_views(fields@)[i as int] == field_view(*field));
            return true;
        }
        i = i + 1;
    }
    proof {
        if field_views(fields@).contains(field_view(*field)) {
            let k = choose|k: int| 0 <= k < field_views(fields@).len() && field_views(fields@)[k] == field_view(*field);
            assert(field_view(fields@[k]) == field_view(*field));
        }
    }
    false
}

fn holds_address(addresses: &Vec<String>, address: &String) -> (r: bool)
    ensures
        r == address_views(addresses@).contains(address@),
{
    let mut i: usize = 0;
    while i < addresses.len()
        invariant
            i <= addresses@.len(),
            forall|k: int| 0 <= k < i ==> (#[trigger] addresses@[k])@ != address@,
        decreases addresses@.len() - i,
    {
        if str_eq(addresses[i].as_str(), address.as_str()) {
            assert(address_views(addresses@)[i as int] == address@);
            return true;
        }
        i = i + 1;
    }
    proof {
        if address_views(addresses@).contains(address@) {
            let k = choose|k: int| 0 <= k < address_views(addresses@).len() && address_views(addresses@)[k] == address@;
            assert(addresses@[k]@ == address@);
        }
    }
    false
}

/// Merges the addresses a repeat reported into a copy of an entity's.
fn merge_addresses(existing: &Vec<String>, incoming: Vec<String>) -> (r: Vec<String>)
    ensures
        address_views(r@) == merged_addresses(address_views(existing@), address_views(incoming@)),
{
    let mut out: Vec<String> = Vec::new();
    let mut i: usize = 0;
    while i < existing.len()
        invariant
            i <= existing@.len(),
            out@ == existing@.take(i as int),
        decreases existing@.len() - i,
    {
        out.push(existing[i].clone());
        proof {
            assert(out@ =~= existing@.take(i + 1));
        }
        i = i + 1;
    }
    proof {
        assert(existing@.take(i as int) =~= existing@);
        assert(address_views(incoming@).skip(0) =~= address_views(incoming@));
    }
    let mut rest = incoming;
    let ghost all = address_views(rest@);
    while rest.len() > 0
        invariant
            merged_addresses(address_views(existing@), all) == merged_addresses(
                address_views(out@),
                address_views(rest@),
            ),
        decreases rest@.len(),
    {
        let ghost before = rest@;
        let address = rest.remove(0);
        proof {
            assert(address_views(before)[0] == address@);
            assert(address_views(rest@) =~= address_views(before).drop_first());
        }
        if out.len() < MAX_ROW_ADDRESSES && !holds_address(&out, &address) {
            let ghost prior = out@;
            out.push(address);
            proof {
                assert(address_views(out@) =~= address_views(prior).push(address_views(before)[0]));
            }
        }
    }
    proof {
        assert(address_views(rest@) =~= Seq::<Seq<char>>::empty());
    }
    out
}

/// Merges the fields a repeat reported into a copy of an entity's.
fn merge_fields(
    existing: &Vec<NativeDiscoveryMetadataField>,
    incoming: Vec<NativeDiscoveryMetadataField>,
) -> (r: Vec<NativeDiscoveryMetadataField>)
    ensures
        field_views(r@) == merged_fields(field_views(existing@), field_views(incoming@)),
{
    let mut out: Vec<NativeDiscoveryMetadataField> = Vec::new();
    let mut i: usize = 0;
    while i < existing.len()
        invariant
            i <= existing@.len(),
            field_views(out@) == field_views(existing@.take(i as int)),
        decreases existing@.len() - i,
    {
        let ghost prior = out@;
        out.push(copy_field(&existing[i]));
        proof {
            let x = existing@[i as int];
            assert(existing@.take(i + 1) =~= existing@.take(i as int).push(x));
            assert(field_views(out@) =~= field_views(prior).push(field_view(x)));
            assert(field_views(existing@.take(i as int).push(x)) =~= field_views(
                existing@.take(i as int),
            ).push(field_view(x)));
        }
        i = i + 1;
    }
    proof {
        assert(existing@.take(i as int) =~= existing@);
    }
    let mut rest = incoming;
    let ghost all = field_views(rest@);
    while rest.len() > 0
        invariant
            merged_fields(field_views(existing@), all) == merged_fields(
                field_views(out@),
                field_views(rest@),
            ),
        decreases rest@.len(),
    {
        let ghost before = rest@;
        let field = rest.remove(0);
        proof {
            assert(field_views(before)[0] == field_view(field));
            assert(field_views(rest@) =~= field_views(before).drop_first());
        }
        if !holds_field(&out, &field) {
            let ghost prior = out@;
            out.push(field);
            proof {
                assert(field_views(out@) =~= field_views(prior).push(field_views(before)[0]));
            }
        }
    }
    proof {
        assert(field_views(rest@) =~= Seq::<FieldView>::empty());
    }
    out
}

/// The entity a repeat leaves: `existing` with the repeat's new addresses
/// and fields merged in and its outcome updated; everything else as
/// `existing` has it.
pub open spec fn merges_into(
    existing: NativeDiscoveryRow,
    incoming: NativeDiscoveryRow,
    r: NativeDiscoveryRow,
) -> bool {
    &&& r.entity_id == existing.entity_id
    &&& r.parent_entity_id == existing.parent_entity_id
    &&& r.derivation_kind == existing.derivation_kind
    &&& r.operation_id == existing.operation_id
    &&& r.protocol == existing.protocol
    &&& r.kind == existing.kind
    &&& r.evidence == existing.evidence
    &&& r.responder == existing.responder
    &&& r.responder_port == existing.responder_port
    &&& r.interface_index == existing.interface_index
    &&& r.identity@ == existing.identity@
    &&& address_views(r.addresses@) == merged_addresses(
        address_views(existing.addresses@),
        address_views(incoming.addresses@),
    )
    &&& field_views(r.metadata@) == merged_fields(
        field_views(existing.metadata@),
        field_views(incoming.metadata@),
    )
    &&& (r.outcome@, r.truncated) == merged_outcome(
        existing.outcome@,
        existing.truncated,
        incoming.outcome@,
    )
}

/// Merges a repeat of a retained entity into a copy of it.
pub fn merge_rows(existing: &NativeDiscoveryRow, incoming: NativeDiscoveryRow) -> (r:
    NativeDiscoveryRow)
    ensures
        merges_into(*existing, incoming, r),
{
    let ghost incoming_outcome = incoming.outcome@;
    let addresses = merge_addresses(&existing.addresses, incoming.addresses);
    let metadata = merge_fields(&existing.metadata, incoming.metadata);
    let (outcome, truncated) = if str_eq(incoming.outcome.as_str(), "truncatedByPolicy") {
        (owned("truncatedByPolicy"), true)
    } else if str_eq(incoming.outcome.as_str(), "complete") && str_eq(
        existing.outcome.as_str(),
        "partial",
    ) {
        (owned("complete"), existing.truncated)
    } else {
        (existing.outcome.clone(), existing.truncated)
    };
    NativeDiscoveryRow {
        entity_id: existing.entity_id.clone(),
        parent_entity_id: copy_option(&existing.parent_entity_id),
        derivation_kind: copy_option(&existing.derivation_kind),
        operation_id: existing.operation_id,
        protocol: existing.protocol.clone(),
        kind: existing.kind.clone(),
        evidence: existing.evidence.clone(),
        outcome,
        responder: existing.responder.clone(),
        responder_port: existing.responder_port,
        interface_index: existing.interface_index,
        identity: copy_bytes(&existing.identity),
        addresses,
        metadata,
        truncated,
    }
}

/// Marks a retained entity truncated by policy.
pub fn mark_truncated(row: &mut NativeDiscoveryRow)
    ensures
        final(row).truncated,
        final(row).outcome@ == "truncatedByPolicy"@,
        *final(row) == (NativeDiscoveryRow {
            truncated: true,
            outcome: final(row).outcome,
            ..*old(row)
        }),
{
    row.truncated = true;
    row.outcome = owned("truncatedByPolicy");
}

} // verus!

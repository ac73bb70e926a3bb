//! What an mDNS discovery learns from the replies it receives: the services
//! that pointer, service, text and address records describe, merged across
//! replies and kept in order of their wire names.
use vstd::prelude::*;

use crate::discovery::{field_text, NativeDiscoveryMetadataField, NativeDiscoveryRow};
use crate::discovery_replies::{identity_fits, reply_entity, reply_row, text_field, ReplyContext};
use crate::text::{decimal, decimal_string, owned};
use crate::discovery_order::{compare_bytes, compare_text, text_before, text_bytes, Precedence};
use crate::discovery_rows::{
    address_views, copy_bytes, copy_field, copy_option, field_view, field_views, holds_field,
    merged_fields, opt_view, FieldView,
};
use crate::names::{lemma_lex_total, lemma_lex_trans, lex_lt};

verus! {

broadcast use vstd::string::group_string_axioms;

/// Whether a list of numbers ascends strictly.
pub open spec fn numbers_ascending(s: Seq<u32>) -> bool {
    forall|i: int, j: int| 0 <= i < j < s.len() ==> #[trigger] s[i] < #[trigger] s[j]
}

/// Whether a list of texts ascends strictly in text order.
pub open spec fn texts_in_order(s: Seq<Seq<char>>) -> bool {
    forall|i: int, j: int| 0 <= i < j < s.len() ==> text_before(#[trigger] s[i], #[trigger] s[j])
}

/// Adds a number to a strictly ascending list, keeping it so.
pub fn add_number(list: &mut Vec<u32>, value: u32)
    requires
        numbers_ascending(old(list)@),
    ensures
        numbers_ascending(final(list)@),
        final(list)@.to_set() == old(list)@.to_set().insert(value),
{
    let ghost before = list@;
    let mut p: usize = 0;
    while p < list.len() && list[p] < value
        invariant
            p <= list@.len(),
            list@ == before,
            forall|k: int| 0 <= k < p ==> list@[k] < value,
        decreases list@.len() - p,
    {
        p = p + 1;
    }
    if p < list.len() && list[p] == value {
        proof {
            assert(before.to_set().insert(value) =~= before.to_set());
        }
        return;
    }
    list.insert(p, value);
    proof {
        assert forall|i: int, j: int| 0 <= i < j < list@.len() implies #[trigger] list@[i] < #[trigger] list@[j] by {
            if j < p {
            } else if j == p {
            } else if i < p {
                assert(list@[j] == before[j - 1]);
                if j - 1 > p {
                    assert(before[p as int] < before[j - 1]);
                }
            } else if i == p {
                assert(list@[j] == before[j - 1]);
                if j - 1 > p {
                    assert(before[p as int] < before[j - 1]);
                }
            } else {
                assert(list@[i] == before[i - 1] && list@[j] == before[j - 1]);
            }
        }
        assert(list@.to_set() =~= before.to_set().insert(value)) by {
            assert forall|x: u32| list@.to_set().contains(x) == before.to_set().insert(value).contains(x) by {
                if list@.contains(x) {
                    let k = choose|k: int| 0 <= k < list@.len() && list@[k] == x;
                    if k < p {
                        assert(before[k] == x);
                    } else if k > p {
                        assert(before[k - 1] == x);
                    }
                }
                if before.contains(x) {
                    let k = choose|k: int| 0 <= k < before.len() && before[k] == x;
                    if k < p {
                        assert(list@[k] == x);
                    } else {
                        assert(list@[k + 1] == x);
                    }
                }
                if x == value {
                    assert(list@[p as int] == x);
                }
            }
        }
    }
}

/// Adds a text to a strictly ascending list of texts, keeping it so.
pub fn add_text(list: &mut Vec<String>, value: String)
    requires
        texts_in_order(address_views(old(list)@)),
    ensures
        texts_in_order(address_views(final(list)@)),
        address_views(final(list)@).to_set() == address_views(old(list)@).to_set().insert(value@),
{
    let ghost before = address_views(list@);
    let ghost given = value@;
    proof {
        lemma_text_order();
    }
    let mut p: usize = 0;
    let mut found = Precedence::After;
    while p < list.len()
        invariant
            p <= list@.len(),
            given == value@,
            address_views(list@) == before,
            forall|k: int| 0 <= k < p ==> text_before(#[trigger] before[k], given),
        ensures
            p <= list@.len(),
            address_views(list@) == before,
            forall|k: int| 0 <= k < p ==> text_before(#[trigger] before[k], given),
            p < list@.len() ==> (found == Precedence::Same) == (before[p as int] == given),
            p < list@.len() ==> (found == Precedence::After) == text_before(given, before[p as int]),
            p < list@.len() ==> found != Precedence::Before,
        decreases list@.len() - p,
    {
        let c = compare_text(&list[p], &value);
        proof {
            assert(before[p as int] == list@[p as int]@);
        }
        if c != Precedence::Before {
            found = c;
            break;
        }
        p = p + 1;
    }
    if p < list.len() && found == Precedence::Same {
        proof {
            assert(before.to_set().insert(given) =~= before.to_set());
        }
        return;
    }
    list.insert(p, value);
    proof {
        let after = address_views(list@);
        assert(after =~= before.insert(p as int, given));
        assert forall|i: int, j: int| 0 <= i < j < after.len() implies text_before(
            #[trigger] after[i],
            #[trigger] after[j],
        ) by {
            if j < p {
            } else if j == p {
            } else if i < p {
                assert(after[j] == before[j - 1]);
                if j - 1 > p {
                    assert(text_before(before[p as int], before[j - 1]));
                    lemma_text_transitive(after[i], given, before[p as int]);
                    lemma_text_transitive(after[i], before[p as int], before[j - 1]);
                } else {
                    lemma_text_transitive(after[i], given, before[p as int]);
                }
            } else if i == p {
                assert(after[j] == before[j - 1]);
                if j - 1 > p {
                    assert(text_before(before[p as int], before[j - 1]));
                    lemma_text_transitive(given, before[p as int], before[j - 1]);
                }
            } else {
                assert(after[i] == before[i - 1] && after[j] == before[j - 1]);
            }
        }
        assert(after.to_set() =~= before.to_set().insert(given)) by {
            assert forall|x: Seq<char>| after.to_set().contains(x) == before.to_set().insert(given).contains(x) by {
                if after.contains(x) {
                    let k = choose|k: int| 0 <= k < after.len() && after[k] == x;
                    if k < p {
                        assert(before[k] == x);
                    } else if k > p {
                        assert(before[k - 1] == x);
                    }
                }
                if before.contains(x) {
                    let k = choose|k: int| 0 <= k < before.len() && before[k] == x;
                    if k < p {
                        assert(after[k] == x);
                    } else {
                        assert(after[k + 1] == x);
                    }
                }
                if x == given {
                    assert(after[p as int] == x);
                }
            }
        }
    }
}

proof fn lemma_text_order()
    ensures
        forall|a: Seq<char>| !text_before(a, a),
{
    assert forall|a: Seq<char>| !text_before(a, a) by {
        lemma_lex_total(text_bytes(a), text_bytes(a));
    }
}

proof fn lemma_text_transitive(a: Seq<char>, b: Seq<char>, c: Seq<char>)
    requires
        text_before(a, b),
        text_before(b, c),
    ensures
        text_before(a, c),
{
    lemma_lex_trans(
        text_bytes(a),
        text_bytes(b),
        text_bytes(c),
    );
}

/// A DNS name: its canonical wire form and, where it decodes, its text.
pub struct DnsName {
    pub wire: Vec<u8>,
    pub text: Option<String>,
}

/// One key and value of a TXT record.
pub struct TxtEntry {
    pub key: String,
    pub value: Vec<u8>,
    pub text_value: Option<String>,
}

/// What a record of an mDNS reply holds; addresses come as text.
pub enum MdnsRecordData {
    Ptr(DnsName),
    Srv { port: u16, target: DnsName },
    Txt(Vec<TxtEntry>),
    A(String),
    Aaaa(String),
    Unknown,
}

/// One record of an mDNS reply.
pub struct MdnsRecord {
    pub name: DnsName,
    pub ttl: u32,
    pub data: MdnsRecordData,
}

/// What the replies so far say of one service.
pub struct MdnsService {
    pub service_type: Option<String>,
    pub instance: Option<String>,
    pub target_wire: Option<Vec<u8>>,
    pub target: Option<String>,
    pub port: Option<u16>,
    /// The target's addresses, in text order.
    pub addresses: Vec<String>,
    /// The TXT fields, in the order first seen.
    pub txt: Vec<NativeDiscoveryMetadataField>,
    /// The record TTLs seen, ascending.
    pub ttls: Vec<u32>,
    /// Whether a reply describing it was truncated on the wire.
    pub partial: bool,
}

/// One service, by the wire name it is known under.
pub struct MdnsEntry {
    pub wire: Vec<u8>,
    pub service: MdnsService,
}

/// The content of a service.
pub struct ServiceView {
    pub service_type: Option<Seq<char>>,
    pub instance: Option<Seq<char>>,
    pub target_wire: Option<Seq<u8>>,
    pub target: Option<Seq<char>>,
    pub port: Option<u16>,
    pub addresses: Set<Seq<char>>,
    pub txt: Seq<FieldView>,
    pub ttls: Set<u32>,
    pub partial: bool,
}

/// The content of a service.
pub open spec fn service_view(s: MdnsService) -> ServiceView {
    ServiceView {
        service_type: opt_view(s.service_type),
        instance: opt_view(s.instance),
        target_wire: match s.target_wire {
            Some(w) => Some(w@),
            None => None,
        },
        target: opt_view(s.target),
        port: s.port,
        addresses: address_views(s.addresses@).to_set(),
        txt: field_views(s.txt@),
        ttls: s.ttls@.to_set(),
        partial: s.partial,
    }
}

/// Whether a service keeps its addresses and TTLs in order.
pub open spec fn service_wf(s: MdnsService) -> bool {
    &&& numbers_ascending(s.ttls@)
    &&& texts_in_order(address_views(s.addresses@))
}

/// A service nothing has been learnt of yet.
pub open spec fn blank_view() -> ServiceView {
    ServiceView {
        service_type: None,
        instance: None,
        target_wire: None,
        target: None,
        port: None,
        addresses: Set::empty(),
        txt: Seq::empty(),
        ttls: Set::empty(),
        partial: false,
    }
}

/// The services learnt so far, by wire name.
pub type ServicesView = Seq<(Seq<u8>, ServiceView)>;

/// The content of a list of services.
pub open spec fn entries_view(entries: Seq<MdnsEntry>) -> ServicesView {
    entries.map_values(|e: MdnsEntry| (e.wire@, service_view(e.service)))
}

/// Whether services are kept in ascending order of wire name, each name
/// once, and each service in order.
pub open spec fn entries_wf(entries: Seq<MdnsEntry>) -> bool {
    &&& forall|i: int, j: int| 0 <= i < j < entries.len() ==> lex_lt(#[trigger] entries[i].wire@, #[trigger] entries[j].wire@)
    &&& forall|i: int| 0 <= i < entries.len() ==> service_wf(#[trigger] entries[i].service)
}

/// Where a wire name stands among services in order: after every name
/// before it.
pub open spec fn is_slot(s: ServicesView, key: Seq<u8>, p: int) -> bool {
    &&& 0 <= p <= s.len()
    &&& forall|k: int| 0 <= k < p ==> lex_lt(#[trigger] s[k].0, key)
    &&& p < s.len() ==> !lex_lt(s[p].0, key)
}

/// The place of a wire name among services in order.
pub open spec fn slot(s: ServicesView, key: Seq<u8>) -> int {
    choose|p: int| is_slot(s, key, p)
}

/// The services after one of them (a blank one where the name is new) is
/// updated by `f`.
pub open spec fn upsert(s: ServicesView, key: Seq<u8>, f: spec_fn(ServiceView) -> ServiceView) -> ServicesView {
    let p = slot(s, key);
    if p < s.len() && s[p].0 == key {
        s.update(p, (key, f(s[p].1)))
    } else {
        s.insert(p, (key, f(blank_view())))
    }
}

/// The wire name of the DNS-SD service enumeration,
/// `_services._dns-sd._udp.local`.
pub open spec fn enumeration_wire() -> Seq<u8> {
    seq![
        9u8, 95, 115, 101, 114, 118, 105, 99, 101, 115, 7, 95, 100, 110, 115, 45, 115, 100, 4, 95,
        117, 100, 112, 5, 108, 111, 99, 97, 108, 0,
    ]
}

/// The TXT fields a TXT record carries.
pub open spec fn txt_views(entries: Seq<TxtEntry>) -> Seq<FieldView> {
    entries.map_values(|e: TxtEntry| (e.key@, e.value@, opt_view(e.text_value)))
}

/// What a service pointer says of the service it names.
pub open spec fn pointed(v: ServiceView, service_type: Option<Seq<char>>, instance: Option<Seq<char>>, ttl: u32, partial: bool) -> ServiceView {
    ServiceView { service_type, instance, ttls: v.ttls.insert(ttl), partial: v.partial || partial, ..v }
}

/// What a service record says of its service.
pub open spec fn located(
    v: ServiceView,
    instance: Option<Seq<char>>,
    target_wire: Seq<u8>,
    target: Option<Seq<char>>,
    port: u16,
    ttl: u32,
    partial: bool,
) -> ServiceView {
    ServiceView {
        instance,
        target_wire: Some(target_wire),
        target,
        port: Some(port),
        ttls: v.ttls.insert(ttl),
        partial: v.partial || partial,
        ..v
    }
}

/// What a TXT record says of its service: its new fields join the old.
pub open spec fn described(v: ServiceView, instance: Option<Seq<char>>, entries: Seq<FieldView>, ttl: u32, partial: bool) -> ServiceView {
    ServiceView {
        instance,
        txt: merged_fields(v.txt, entries),
        ttls: v.ttls.insert(ttl),
        partial: v.partial || partial,
        ..v
    }
}

/// What an address record of a target says of a service on it.
pub open spec fn addressed(v: ServiceView, address: Seq<char>, ttl: u32, partial: bool) -> ServiceView {
    ServiceView {
        addresses: v.addresses.insert(address),
        ttls: v.ttls.insert(ttl),
        partial: v.partial || partial,
        ..v
    }
}

/// The services after one record of a reply (truncated on the wire where
/// `partial`).
pub open spec fn apply_record(s: ServicesView, r: MdnsRecord, partial: bool) -> ServicesView {
    match r.data {
        MdnsRecordData::Ptr(name) => if r.name.wire@ == enumeration_wire() {
            s
        } else {
            upsert(
                s,
                name.wire@,
                |v: ServiceView| pointed(v, opt_view(r.name.text), opt_view(name.text), r.ttl, partial),
            )
        },
        MdnsRecordData::Srv { port, target } => upsert(
            s,
            r.name.wire@,
            |v: ServiceView|
                located(
                    v,
                    opt_view(r.name.text),
                    target.wire@,
                    opt_view(target.text),
                    port,
                    r.ttl,
                    partial,
                ),
        ),
        MdnsRecordData::Txt(entries) => upsert(
            s,
            r.name.wire@,
            |v: ServiceView| described(v, opt_view(r.name.text), txt_views(entries@), r.ttl, partial),
        ),
        MdnsRecordData::A(address) => s.map_values(
            |e: (Seq<u8>, ServiceView)|
                if e.1.target_wire == Some(r.name.wire@) {
                    (e.0, addressed(e.1, address@, r.ttl, partial))
                } else {
                    e
                },
        ),
        MdnsRecordData::Aaaa(address) => s.map_values(
            |e: (Seq<u8>, ServiceView)|
                if e.1.target_wire == Some(r.name.wire@) {
                    (e.0, addressed(e.1, address@, r.ttl, partial))
                } else {
                    e
                },
        ),
        MdnsRecordData::Unknown => s,
    }
}

/// The services after the records of a reply, in order.
pub open spec fn apply_records(s: ServicesView, records: Seq<MdnsRecord>, partial: bool) -> ServicesView
    decreases records.len(),
{
    if records.len() == 0 {
        s
    } else {
        apply_record(apply_records(s, records.drop_last(), partial), records.last(), partial)
    }
}

/// A follow-up query: the wire name, its text, and the record type.
pub type FollowUp = (Seq<u8>, Option<Seq<char>>, u16);

/// The follow-up queries one record asks for: the services an enumeration
/// names (PTR), the service and TXT records of a named service, and the
/// addresses (A and AAAA) of a service's target.
pub open spec fn record_follow_ups(r: MdnsRecord) -> Seq<FollowUp> {
    match r.data {
        MdnsRecordData::Ptr(name) => if r.name.wire@ == enumeration_wire() {
            seq![(name.wire@, opt_view(name.text), 12u16)]
        } else {
            seq![(name.wire@, opt_view(name.text), 33u16), (name.wire@, opt_view(name.text), 16u16)]
        },
        MdnsRecordData::Srv { port, target } => seq![
            (target.wire@, opt_view(target.text), 1u16),
            (target.wire@, opt_view(target.text), 28u16),
        ],
        _ => Seq::empty(),
    }
}

/// The follow-up queries of a reply's records, in order.
pub open spec fn follow_ups(records: Seq<MdnsRecord>) -> Seq<FollowUp>
    decreases records.len(),
{
    if records.len() == 0 {
        Seq::empty()
    } else {
        follow_ups(records.drop_last()) + record_follow_ups(records.last())
    }
}

proof fn lemma_slot_unique(s: ServicesView, key: Seq<u8>, p: int, q: int)
    requires
        is_slot(s, key, p),
        is_slot(s, key, q),
    ensures
        p == q,
{
    if p < q {
        assert(lex_lt(s[p].0, key));
    } else if q < p {
        assert(lex_lt(s[q].0, key));
    }
}

/// Finds where a wire name stands among services in order, and whether a
/// service has that name.
fn find_slot(entries: &Vec<MdnsEntry>, key: &[u8]) -> (r: (usize, bool))
    ensures
        r.0 as int == slot(entries_view(entries@), key@),
        is_slot(entries_view(entries@), key@, r.0 as int),
        r.1 == (r.0 < entries@.len() && entries_view(entries@)[r.0 as int].0 == key@),
{
    let ghost s = entries_view(entries@);
    let mut p: usize = 0;
    while p < entries.len()
        invariant
            p <= entries@.len(),
            s == entries_view(entries@),
            forall|k: int| 0 <= k < p ==> lex_lt(#[trigger] s[k].0, key@),
        ensures
            p <= entries@.len(),
            forall|k: int| 0 <= k < p ==> lex_lt(#[trigger] s[k].0, key@),
            p < entries@.len() ==> !lex_lt(s[p as int].0, key@),
        decreases entries@.len() - p,
    {
        let c = compare_bytes(entries[p].wire.as_slice(), key);
        proof {
            assert(s[p as int].0 == entries@[p as int].wire@);
        }
        if c != Precedence::Before {
            break;
        }
        p = p + 1;
    }
    let found = if p < entries.len() {
        proof {
            assert(s[p as int].0 == entries@[p as int].wire@);
        }
        compare_bytes(entries[p].wire.as_slice(), key) == Precedence::Same
    } else {
        false
    };
    proof {
        assert(is_slot(s, key@, p as int));
        lemma_slot_unique(s, key@, p as int, slot(s, key@));
    }
    (p, found)
}

proof fn lemma_upsert(
    old_entries: Seq<MdnsEntry>,
    key: Seq<u8>,
    p: int,
    found: bool,
    entry: MdnsEntry,
)
    requires
        entries_wf(old_entries),
        is_slot(entries_view(old_entries), key, p),
        found == (p < old_entries.len() && entries_view(old_entries)[p].0 == key),
        entry.wire@ == key,
        service_wf(entry.service),
    ensures
        ({
            let updated = if found {
                old_entries.update(p, entry)
            } else {
                old_entries.insert(p, entry)
            };
            let s = entries_view(old_entries);
            &&& entries_wf(updated)
            &&& entries_view(updated) == if found {
                s.update(p, (key, service_view(entry.service)))
            } else {
                s.insert(p, (key, service_view(entry.service)))
            }
        }),
{
    let s = entries_view(old_entries);
    if found {
        let updated = old_entries.update(p, entry);
        assert(entries_view(updated) =~= s.update(p, (key, service_view(entry.service))));
        assert forall|i: int, j: int| 0 <= i < j < updated.len() implies lex_lt(
            #[trigger] updated[i].wire@,
            #[trigger] updated[j].wire@,
        ) by {
            assert(old_entries[p].wire@ == key);
            assert(lex_lt(old_entries[i].wire@, old_entries[j].wire@));
        }
    } else {
        let updated = old_entries.insert(p, entry);
        assert(entries_view(updated) =~= s.insert(p, (key, service_view(entry.service))));
        if p < old_entries.len() {
            lemma_lex_total(old_entries[p].wire@, key);
            assert(s[p].0 == old_entries[p].wire@);
        }
        assert forall|i: int, j: int| 0 <= i < j < updated.len() implies lex_lt(
            #[trigger] updated[i].wire@,
            #[trigger] updated[j].wire@,
        ) by {
            if j < p {
                assert(updated[i] == old_entries[i] && updated[j] == old_entries[j]);
            } else if j == p {
                assert(updated[i] == old_entries[i]);
                assert(s[i].0 == old_entries[i].wire@);
            } else if i < p {
                assert(updated[i] == old_entries[i] && updated[j] == old_entries[j - 1]);
                assert(s[i].0 == old_entries[i].wire@);
                assert(lex_lt(key, old_entries[p].wire@));
                if j - 1 > p {
                    assert(lex_lt(old_entries[p].wire@, old_entries[j - 1].wire@));
                    lemma_lex_trans(key, old_entries[p].wire@, old_entries[j - 1].wire@);
                }
                lemma_lex_trans(old_entries[i].wire@, key, old_entries[j - 1].wire@);
            } else if i == p {
                assert(updated[i] == entry && updated[j] == old_entries[j - 1]);
                if j - 1 > p {
                    assert(lex_lt(old_entries[p].wire@, old_entries[j - 1].wire@));
                    lemma_lex_trans(key, old_entries[p].wire@, old_entries[j - 1].wire@);
                }
            } else {
                assert(updated[i] == old_entries[i - 1] && updated[j] == old_entries[j - 1]);
            }
        }
    }
}

fn blank_service() -> (r: MdnsService)
    ensures
        service_view(r) == blank_view(),
        service_wf(r),
{
    let r = MdnsService {
        service_type: None,
        instance: None,
        target_wire: None,
        target: None,
        port: None,
        addresses: Vec::new(),
        txt: Vec::new(),
        ttls: Vec::new(),
        partial: false,
    };
    proof {
        assert(address_views(r.addresses@).to_set() =~= Set::<Seq<char>>::empty());
        assert(field_views(r.txt@) =~= Seq::<FieldView>::empty());
        assert(r.ttls@.to_set() =~= Set::<u32>::empty());
    }
    r
}

fn point(
    service: &mut MdnsService,
    service_type: &Option<String>,
    instance: &Option<String>,
    ttl: u32,
    partial: bool,
)
    requires
        service_wf(*old(service)),
    ensures
        service_wf(*final(service)),
        service_view(*final(service)) == pointed(
            service_view(*old(service)),
            opt_view(*service_type),
            opt_view(*instance),
            ttl,
            partial,
        ),
{
    service.service_type = copy_option(service_type);
    service.instance = copy_option(instance);
    add_number(&mut service.ttls, ttl);
    service.partial = service.partial || partial;
}

fn locate(
    service: &mut MdnsService,
    instance: &Option<String>,
    target: &DnsName,
    port: u16,
    ttl: u32,
    partial: bool,
)
    requires
        service_wf(*old(service)),
    ensures
        service_wf(*final(service)),
        service_view(*final(service)) == located(
            service_view(*old(service)),
            opt_view(*instance),
            target.wire@,
            opt_view(target.text),
            port,
            ttl,
            partial,
        ),
{
    service.instance = copy_option(instance);
    service.target_wire = Some(copy_bytes(&target.wire));
    service.target = copy_option(&target.text);
    service.port = Some(port);
    add_number(&mut service.ttls, ttl);
    service.partial = service.partial || partial;
}

fn describe(
    service: &mut MdnsService,
    instance: &Option<String>,
    entries: &Vec<TxtEntry>,
    ttl: u32,
    partial: bool,
)
    requires
        service_wf(*old(service)),
    ensures
        service_wf(*final(service)),
        service_view(*final(service)) == described(
            service_view(*old(service)),
            opt_view(*instance),
            txt_views(entries@),
            ttl,
            partial,
        ),
{
    let ghost start = field_views(service.txt@);
    let ghost all = txt_views(entries@);
    let ghost orig = *service;
    let mut i: usize = 0;
    proof {
        assert(all.skip(0) =~= all);
    }
    while i < entries.len()
        invariant
            i <= entries@.len(),
            all == txt_views(entries@),
            service_wf(orig),
            *service == (MdnsService { txt: service.txt, ..orig }),
            merged_fields(start, all) == merged_fields(field_views(service.txt@), all.skip(i as int)),
        decreases entries@.len() - i,
    {
        let entry = &entries[i];
        let field = NativeDiscoveryMetadataField {
            key: entry.key.clone(),
            value: copy_bytes(&entry.value),
            text: copy_option(&entry.text_value),
        };
        proof {
            assert(all.skip(i as int)[0] == field_view(field));
            assert(all.skip(i as int).drop_first() =~= all.skip(i + 1));
        }
        if !holds_field(&service.txt, &field) {
            let ghost prior = service.txt@;
            service.txt.push(field);
            proof {
                assert(field_views(service.txt@) =~= field_views(prior).push(field_view(field)));
            }
        }
        i = i + 1;
    }
    proof {
        assert(all.skip(i as int) =~= Seq::<FieldView>::empty());
    }
    service.instance = copy_option(instance);
    add_number(&mut service.ttls, ttl);
    service.partial = service.partial || partial;
}

fn address(service: &mut MdnsService, text: &String, ttl: u32, partial: bool)
    requires
        service_wf(*old(service)),
    ensures
        service_wf(*final(service)),
        service_view(*final(service)) == addressed(service_view(*old(service)), text@, ttl, partial),
{
    add_text(&mut service.addresses, text.clone());
    add_number(&mut service.ttls, ttl);
    service.partial = service.partial || partial;
}

fn same_wire(a: &Option<Vec<u8>>, b: &Vec<u8>) -> (r: bool)
    ensures
        r == (match a {
            Some(w) => Some(w@),
            None => None,
        } == Some(b@)),
{
    match a {
        Some(w) => compare_bytes(w.as_slice(), b.as_slice()) == Precedence::Same,
        None => false,
    }
}

/// Applies an address record to every service on the record's target.
fn address_targets(entries: &mut Vec<MdnsEntry>, record_wire: &Vec<u8>, text: &String, ttl: u32, partial: bool)
    requires
        entries_wf(old(entries)@),
    ensures
        entries_wf(final(entries)@),
        entries_view(final(entries)@) == entries_view(old(entries)@).map_values(
            |e: (Seq<u8>, ServiceView)|
                if e.1.target_wire == Some(record_wire@) {
                    (e.0, addressed(e.1, text@, ttl, partial))
                } else {
                    e
                },
        ),
{
    let ghost before = entries@;
    let ghost update = |e: (Seq<u8>, ServiceView)|
        if e.1.target_wire == Some(record_wire@) {
            (e.0, addressed(e.1, text@, ttl, partial))
        } else {
            e
        };
    let total = entries.len();
    let mut rest: Vec<MdnsEntry> = Vec::new();
    std::mem::swap(&mut rest, entries);
    let mut n: usize = 0;
    proof {
        assert(before.skip(0) =~= before);
    }
    while rest.len() > 0
        invariant
            n <= before.len(),
            before.len() == total,
            rest@ == before.skip(n as int),
            entries@.len() == n,
            entries_wf(before),
            update == (|e: (Seq<u8>, ServiceView)|
                if e.1.target_wire == Some(record_wire@) {
                    (e.0, addressed(e.1, text@, ttl, partial))
                } else {
                    e
                }),
            forall|k: int| 0 <= k < n ==> (#[trigger] entries@[k]).wire@ == before[k].wire@,
            forall|k: int| 0 <= k < n ==> service_wf(#[trigger] entries@[k].service),
            entries_view(entries@) == entries_view(before.take(n as int)).map_values(update),
        decreases rest@.len(),
    {
        let mut entry = rest.remove(0);
        proof {
            assert(entry == before[n as int]);
            assert(rest@ =~= before.skip(n + 1));
        }
        let ghost prior = entries@;
        let ghost view_before = (entry.wire@, service_view(entry.service));
        if same_wire(&entry.service.target_wire, record_wire) {
            address(&mut entry.service, text, ttl, partial);
        }
        entries.push(entry);
        proof {
            assert(before.take(n + 1) =~= before.take(n as int).push(before[n as int]));
            assert(entries_view(before.take(n + 1)).map_values(update) =~= entries_view(
                before.take(n as int),
            ).map_values(update).push(update(view_before)));
            assert(entries_view(entries@) =~= entries_view(prior).push((entry.wire@, service_view(entry.service))));
        }
        n = n + 1;
    }
    proof {
        assert(before.take(n as int) =~= before);
        assert(forall|i: int, j: int| 0 <= i < j < entries@.len() ==> lex_lt(#[trigger] entries@[i].wire@, #[trigger] entries@[j].wire@) ==
            lex_lt(before[i].wire@, before[j].wire@));
    }
}

/// A follow-up query a reply asks for.
pub struct FollowUpQuery {
    pub wire: Vec<u8>,
    pub text: Option<String>,
    pub query_type: u16,
}

/// The content of a follow-up query.
pub open spec fn follow_up_view(q: FollowUpQuery) -> FollowUp {
    (q.wire@, opt_view(q.text), q.query_type)
}

/// Takes out the service with a wire name (a blank one where there is
/// none), and where it stands.
fn take_slot(services: &mut Vec<MdnsEntry>, key: &Vec<u8>) -> (r: (usize, bool, MdnsEntry))
    requires
        entries_wf(old(services)@),
    ensures
        is_slot(entries_view(old(services)@), key@, r.0 as int),
        r.0 as int == slot(entries_view(old(services)@), key@),
        r.1 == (r.0 < old(services)@.len() && entries_view(old(services)@)[r.0 as int].0 == key@),
        r.2.wire@ == key@,
        service_wf(r.2.service),
        r.1 ==> final(services)@ == old(services)@.remove(r.0 as int) && r.2 == old(services)@[r.0 as int],
        !r.1 ==> final(services)@ == old(services)@ && service_view(r.2.service) == blank_view(),
{
    let (p, found) = find_slot(services, key.as_slice());
    if found {
        let entry = services.remove(p);
        proof {
            assert(entries_view(old(services)@)[p as int].0 == old(services)@[p as int].wire@);
        }
        (p, true, entry)
    } else {
        (p, false, MdnsEntry { wire: copy_bytes(key), service: blank_service() })
    }
}

proof fn lemma_put_back(before: Seq<MdnsEntry>, p: int, entry: MdnsEntry)
    requires
        0 <= p < before.len(),
    ensures
        before.remove(p).insert(p, entry) == before.update(p, entry),
{
    assert(before.remove(p).insert(p, entry) =~= before.update(p, entry));
}

fn push_query(queries: &mut Vec<FollowUpQuery>, name: &DnsName, query_type: u16)
    ensures
        final(queries)@.map_values(|q: FollowUpQuery| follow_up_view(q)) == old(queries)@.map_values(
            |q: FollowUpQuery| follow_up_view(q),
        ).push((name.wire@, opt_view(name.text), query_type)),
{
    let ghost before = queries@;
    let query = FollowUpQuery { wire: copy_bytes(&name.wire), text: copy_option(&name.text), query_type };
    queries.push(query);
    proof {
        assert(queries@.map_values(|q: FollowUpQuery| follow_up_view(q)) =~= before.map_values(
            |q: FollowUpQuery| follow_up_view(q),
        ).push(follow_up_view(query)));
    }
}

/// Merges the records of one reply (truncated on the wire where `partial`)
/// into the services, and lists the follow-up queries they ask for.
pub fn absorb_records(services: &mut Vec<MdnsEntry>, records: &Vec<MdnsRecord>, partial: bool) -> (r: Vec<
    FollowUpQuery,
>)
    requires
        entries_wf(old(services)@),
    ensures
        entries_wf(final(services)@),
        entries_view(final(services)@) == apply_records(entries_view(old(services)@), records@, partial),
        r@.map_values(|q: FollowUpQuery| follow_up_view(q)) == follow_ups(records@),
{
    let ghost start = entries_view(services@);
    let enumeration: [u8; 30] = [
        9u8, 95, 115, 101, 114, 118, 105, 99, 101, 115, 7, 95, 100, 110, 115, 45, 115, 100, 4, 95,
        117, 100, 112, 5, 108, 111, 99, 97, 108, 0,
    ];
    proof {
        assert(enumeration@ =~= enumeration_wire());
    }
    let mut queries: Vec<FollowUpQuery> = Vec::new();
    let mut i: usize = 0;
    proof {
        assert(records@.take(0) =~= Seq::<MdnsRecord>::empty());
        assert(queries@.map_values(|q: FollowUpQuery| follow_up_view(q)) =~= Seq::<FollowUp>::empty());
    }
    while i < records.len()
        invariant
            i <= records@.len(),
            enumeration@ == enumeration_wire(),
            entries_wf(services@),
            entries_view(services@) == apply_records(start, records@.take(i as int), partial),
            queries@.map_values(|q: FollowUpQuery| follow_up_view(q)) == follow_ups(records@.take(i as int)),
        decreases records@.len() - i,
    {
        let record = &records[i];
        let ghost before = services@;
        let ghost s = entries_view(services@);
        let ghost asked = queries@.map_values(|q: FollowUpQuery| follow_up_view(q));
        proof {
            assert(records@.take(i + 1).drop_last() =~= records@.take(i as int));
            assert(records@.take(i + 1).last() == *record);
        }
        match &record.data {
            MdnsRecordData::Ptr(name) => {
                if compare_bytes(record.name.wire.as_slice(), enumeration.as_slice()) == Precedence::Same {
                    push_query(&mut queries, name, 12);
                    proof {
                        assert(apply_record(s, *record, partial) == s);
                    }
                } else {
                    let (p, found, mut entry) = take_slot(services, &name.wire);
                    let ghost prior = service_view(entry.service);
                    point(&mut entry.service, &record.name.text, &name.text, record.ttl, partial);
                    proof {
                        lemma_upsert(before, name.wire@, p as int, found, entry);
                        if found {
                            lemma_put_back(before, p as int, entry);
                            assert(prior == s[p as int].1);
                        }
                    }
                    services.insert(p, entry);
                    push_query(&mut queries, name, 33);
                    push_query(&mut queries, name, 16);
                }
            },
            MdnsRecordData::Srv { port, target } => {
                let (p, found, mut entry) = take_slot(services, &record.name.wire);
                let ghost prior = service_view(entry.service);
                locate(&mut entry.service, &record.name.text, target, *port, record.ttl, partial);
                proof {
                    lemma_upsert(before, record.name.wire@, p as int, found, entry);
                    if found {
                        lemma_put_back(before, p as int, entry);
                        assert(prior == s[p as int].1);
                    }
                }
                services.insert(p, entry);
                push_query(&mut queries, target, 1);
                push_query(&mut queries, target, 28);
            },
            MdnsRecordData::Txt(entries) => {
                let (p, found, mut entry) = take_slot(services, &record.name.wire);
                let ghost prior = service_view(entry.service);
                describe(&mut entry.service, &record.name.text, entries, record.ttl, partial);
                proof {
                    lemma_upsert(before, record.name.wire@, p as int, found, entry);
                    if found {
                        lemma_put_back(before, p as int, entry);
                        assert(prior == s[p as int].1);
                    }
                }
                services.insert(p, entry);
                proof {
                    assert(record_follow_ups(*record) =~= Seq::<FollowUp>::empty());
                    assert(asked + Seq::<FollowUp>::empty() =~= asked);
                }
            },
            MdnsRecordData::A(text) => {
                address_targets(services, &record.name.wire, text, record.ttl, partial);
                proof {
                    assert(asked + Seq::<FollowUp>::empty() =~= asked);
                }
            },
            MdnsRecordData::Aaaa(text) => {
                address_targets(services, &record.name.wire, text, record.ttl, partial);
                proof {
                    assert(asked + Seq::<FollowUp>::empty() =~= asked);
                }
            },
            MdnsRecordData::Unknown => {
                proof {
                    assert(asked + Seq::<FollowUp>::empty() =~= asked);
                }
            },
        }
        proof {
            assert(queries@.map_values(|q: FollowUpQuery| follow_up_view(q)) =~= asked + record_follow_ups(*record));
        }
        i = i + 1;
    }
    proof {
        assert(records@.take(i as int) =~= records@);
    }
    queries
}

/// The field with a key and an optional text, if the text is there.
pub open spec fn optional_field(key: Seq<char>, value: Option<Seq<char>>) -> Seq<FieldView> {
    match value {
        Some(text) => seq![text_field(key, text)],
        None => Seq::empty(),
    }
}

/// The metadata of a service entity, with its TTLs listed as `ttls`: its
/// instance, type, target and port where known, each TTL, then its TXT
/// fields.
pub open spec fn service_fields(v: ServiceView, ttls: Seq<u32>) -> Seq<FieldView> {
    optional_field("instance"@, v.instance) + optional_field("serviceType"@, v.service_type)
        + optional_field("target"@, v.target) + optional_field(
        "port"@,
        match v.port {
            Some(port) => Some(decimal(port as nat)),
            None => None,
        },
    ) + ttls.map_values(|t: u32| text_field("ttl"@, decimal(t as nat))) + v.txt
}

/// Whether what is known of a service is incomplete: no port, target or
/// address yet, or a reply about it was truncated.
pub open spec fn service_incomplete(v: ServiceView) -> bool {
    v.port is None || v.target is None || v.addresses == Set::<Seq<char>>::empty() || v.partial
}

/// Whether `row` is the entity of the service known under wire name `key`:
/// the bounded service entity by that identity with its metadata (TTLs
/// ascending), listing the service's addresses in text order, and partial
/// where what is known is incomplete.
pub open spec fn service_entity(ctx: ReplyContext, key: Seq<u8>, v: ServiceView, row: NativeDiscoveryRow) -> bool {
    exists|bounded: NativeDiscoveryRow, ttls: Seq<u32>|
        {
            &&& numbers_ascending(ttls)
            &&& ttls.to_set() == v.ttls
            &&& reply_entity(ctx, key, "service"@, service_fields(v, ttls), Ok(bounded))
            &&& row == (NativeDiscoveryRow { addresses: row.addresses, outcome: row.outcome, ..bounded })
            &&& texts_in_order(address_views(row.addresses@))
            &&& address_views(row.addresses@).to_set() == v.addresses
            &&& service_incomplete(v) ==> row.outcome@ == "partial"@
            &&& !service_incomplete(v) ==> row.outcome == bounded.outcome
        }
}

fn push_optional(metadata: &mut Vec<NativeDiscoveryMetadataField>, key: &str, value: &Option<String>)
    ensures
        field_views(final(metadata)@) == field_views(old(metadata)@) + optional_field(key@, opt_view(*value)),
{
    let ghost before = metadata@;
    match value {
        Some(text) => {
            let field = field_text(key, text.as_str());
            metadata.push(field);
            proof {
                assert(field_views(metadata@) =~= field_views(before) + optional_field(key@, opt_view(*value)));
            }
        },
        None => {
            proof {
                assert(field_views(metadata@) =~= field_views(before) + optional_field(key@, opt_view(*value)));
            }
        },
    }
}

fn copy_texts(texts: &Vec<String>) -> (r: Vec<String>)
    ensures
        address_views(r@) == address_views(texts@),
{
    let mut out: Vec<String> = Vec::new();
    let mut i: usize = 0;
    while i < texts.len()
        invariant
            i <= texts@.len(),
            address_views(out@) == address_views(texts@.take(i as int)),
        decreases texts@.len() - i,
    {
        let ghost prior = out@;
        out.push(texts[i].clone());
        proof {
            assert(texts@.take(i + 1) =~= texts@.take(i as int).push(texts@[i as int]));
            assert(address_views(out@) =~= address_views(prior).push(texts@[i as int]@));
            assert(address_views(out@) =~= address_views(texts@.take(i + 1)));
        }
        i = i + 1;
    }
    proof {
        assert(texts@.take(i as int) =~= texts@);
    }
    out
}

/// The entity of one service.
fn service_row(ctx: &ReplyContext, entry: &MdnsEntry) -> (r: Result<NativeDiscoveryRow, ()>)
    requires
        service_wf(entry.service),
    ensures
        match r {
            Ok(row) => service_entity(*ctx, entry.wire@, service_view(entry.service), row),
            Err(_) => !identity_fits(entry.wire@),
        },
{
    let service = &entry.service;
    let ghost v = service_view(*service);
    let mut metadata: Vec<NativeDiscoveryMetadataField> = Vec::new();
    proof {
        assert(field_views(metadata@) =~= Seq::<FieldView>::empty());
    }
    push_optional(&mut metadata, "instance", &service.instance);
    push_optional(&mut metadata, "serviceType", &service.service_type);
    push_optional(&mut metadata, "target", &service.target);
    let port_text = match service.port {
        Some(port) => Some(decimal_string(port as u64)),
        None => None,
    };
    push_optional(&mut metadata, "port", &port_text);
    let ghost head = field_views(metadata@);
    let mut i: usize = 0;
    while i < service.ttls.len()
        invariant
            i <= service.ttls@.len(),
            field_views(metadata@) == head + service.ttls@.take(i as int).map_values(
                |t: u32| text_field("ttl"@, decimal(t as nat)),
            ),
        decreases service.ttls@.len() - i,
    {
        let ghost prior = metadata@;
        let digits = decimal_string(service.ttls[i] as u64);
        let field = field_text("ttl", digits.as_str());
        metadata.push(field);
        proof {
            assert(service.ttls@.take(i + 1).map_values(|t: u32| text_field("ttl"@, decimal(t as nat)))
                =~= service.ttls@.take(i as int).map_values(
                |t: u32| text_field("ttl"@, decimal(t as nat)),
            ).push(field_view(field)));
            assert(field_views(metadata@) =~= field_views(prior).push(field_view(field)));
        }
        i = i + 1;
    }
    proof {
        assert(service.ttls@.take(i as int) =~= service.ttls@);
    }
    let ghost with_ttls = field_views(metadata@);
    let mut j: usize = 0;
    while j < service.txt.len()
        invariant
            j <= service.txt@.len(),
            field_views(metadata@) == with_ttls + field_views(service.txt@.take(j as int)),
        decreases service.txt@.len() - j,
    {
        let ghost prior = metadata@;
        let field = copy_field(&service.txt[j]);
        metadata.push(field);
        proof {
            assert(field_views(service.txt@.take(j + 1)) =~= field_views(service.txt@.take(j as int)).push(
                field_view(field),
            ));
            assert(field_views(metadata@) =~= field_views(prior).push(field_view(field)));
        }
        j = j + 1;
    }
    proof {
        assert(service.txt@.take(j as int) =~= service.txt@);
        assert(field_views(metadata@) =~= service_fields(v, service.ttls@));
    }
    let built = reply_row(ctx, copy_bytes(&entry.wire), "service", metadata);
    let ghost outcome = built;
    match built {
        Ok(mut row) => {
            let ghost bounded = row;
            row.addresses = copy_texts(&service.addresses);
            let incomplete = service.port.is_none() || service.target.is_none()
                || service.addresses.len() == 0 || service.partial;
            proof {
                if service.addresses@.len() > 0 {
                    assert(address_views(service.addresses@).contains(address_views(service.addresses@)[0]));
                    assert(v.addresses.contains(address_views(service.addresses@)[0]));
                } else {
                    assert(address_views(service.addresses@).to_set() =~= Set::<Seq<char>>::empty());
                }
                assert(incomplete == service_incomplete(v));
            }
            if incomplete {
                row.outcome = owned("partial");
            }
            proof {
                assert(row == (NativeDiscoveryRow { addresses: row.addresses, outcome: row.outcome, ..bounded }));
                assert(reply_entity(*ctx, entry.wire@, "service"@, service_fields(v, service.ttls@), Ok(bounded)));
                assert(service_entity(*ctx, entry.wire@, v, row));
            }
            Ok(row)
        },
        Err(_) => {
            proof {
                assert(outcome is Err);
            }
            Err(())
        },
    }
}

/// The entities of the services learnt so far, in order of wire name; the
/// reply is refused where a service's wire name breaks an entity's bounds.
pub fn service_rows(ctx: &ReplyContext, services: &Vec<MdnsEntry>) -> (r: Result<Vec<NativeDiscoveryRow>, ()>)
    requires
        entries_wf(services@),
    ensures
        match r {
            Ok(rows) => {
                &&& rows@.len() == services@.len()
                &&& forall|i: int|
                    0 <= i < rows@.len() ==> service_entity(
                        *ctx,
                        entries_view(services@)[i].0,
                        entries_view(services@)[i].1,
                        #[trigger] rows@[i],
                    )
            },
            Err(_) => exists|i: int| 0 <= i < services@.len() && !identity_fits(#[trigger] entries_view(services@)[i].0),
        },
{
    let mut rows: Vec<NativeDiscoveryRow> = Vec::new();
    let mut i: usize = 0;
    while i < services.len()
        invariant
            i <= services@.len(),
            entries_wf(services@),
            rows@.len() == i,
            forall|k: int|
                0 <= k < i ==> service_entity(
                    *ctx,
                    entries_view(services@)[k].0,
                    entries_view(services@)[k].1,
                    #[trigger] rows@[k],
                ),
        decreases services@.len() - i,
    {
        proof {
            assert(entries_view(services@)[i as int] == (services@[i as int].wire@, service_view(services@[i as int].service)));
        }
        match service_row(ctx, &services[i]) {
            Ok(row) => {
                rows.push(row);
            },
            Err(_) => {
                proof {
                    assert(!identity_fits(entries_view(services@)[i as int].0));
                }
                return Err(());
            },
        }
        i = i + 1;
    }
    Ok(rows)
}

/// The most follow-up queries one mDNS scope member may schedule.
pub const MAX_MDNS_QUERIES: usize = 256;

/// The queries of one mDNS scope member: the next transaction identifier to
/// try, the queries sent and awaiting replies (by transaction identifier),
/// and every query scheduled so far.
pub struct MdnsQueries {
    pub next_transaction_id: u16,
    pub outstanding: Vec<(u16, Vec<u8>, u16)>,
    pub scheduled: Vec<(Vec<u8>, u16)>,
}

/// The transaction identifiers awaiting replies.
pub open spec fn outstanding_ids(q: MdnsQueries) -> Seq<u16> {
    q.outstanding@.map_values(|e: (u16, Vec<u8>, u16)| e.0)
}

/// The queries scheduled so far, by wire name and record type.
pub open spec fn scheduled_view(q: MdnsQueries) -> Seq<(Seq<u8>, u16)> {
    q.scheduled@.map_values(|e: (Vec<u8>, u16)| (e.0@, e.1))
}

/// Whether a query list keeps within its bounds: at most 256 scheduled
/// queries, and no more awaiting replies than scheduled.
pub open spec fn queries_wf(q: MdnsQueries) -> bool {
    &&& q.scheduled@.len() <= MAX_MDNS_QUERIES
    &&& q.outstanding@.len() <= q.scheduled@.len()
}

/// The candidate transaction identifier `k` steps after `start`, wrapping.
pub open spec fn candidate(start: u16, k: int) -> u16 {
    ((start as int + k) % 65536) as u16
}

/// Whether a transaction identifier is free: nonzero and not awaiting a
/// reply.
pub open spec fn id_free(ids: Seq<u16>, id: u16) -> bool {
    id != 0 && !ids.contains(id)
}

/// Whether `id` is the first free transaction identifier from `start` on,
/// wrapping.
pub open spec fn first_free(ids: Seq<u16>, start: u16, id: u16) -> bool {
    exists|k: int|
        0 <= k < 65536 && id == candidate(start, k) && id_free(ids, id) && forall|j: int|
            0 <= j < k ==> !id_free(ids, #[trigger] candidate(start, j))
}

/// The identifier after one, wrapping, and never zero.
pub open spec fn following_id(id: u16) -> u16 {
    if id == 65535 {
        1
    } else {
        (id + 1) as u16
    }
}

/// The query list of a member whose enumeration query went out under
/// `transaction_id`.
pub fn new_queries(transaction_id: u16) -> (r: MdnsQueries)
    ensures
        queries_wf(r),
        r.next_transaction_id == following_id(transaction_id),
        outstanding_ids(r) == seq![transaction_id],
        scheduled_view(r) == seq![(enumeration_wire(), 12u16)],
{
    let enumeration: Vec<u8> = vec![
        9u8, 95, 115, 101, 114, 118, 105, 99, 101, 115, 7, 95, 100, 110, 115, 45, 115, 100, 4, 95,
        117, 100, 112, 5, 108, 111, 99, 97, 108, 0,
    ];
    proof {
        assert(enumeration@ =~= enumeration_wire());
    }
    let mut outstanding: Vec<(u16, Vec<u8>, u16)> = Vec::new();
    outstanding.push((transaction_id, copy_bytes(&enumeration), 12));
    let mut scheduled: Vec<(Vec<u8>, u16)> = Vec::new();
    scheduled.push((enumeration, 12));
    let next = if transaction_id == 65535 {
        1
    } else {
        transaction_id + 1
    };
    let r = MdnsQueries { next_transaction_id: next, outstanding, scheduled };
    proof {
        assert(outstanding_ids(r) =~= seq![transaction_id]);
        assert(scheduled_view(r) =~= seq![(enumeration_wire(), 12u16)]);
    }
    r
}

/// Fewer identifiers awaiting replies than there are nonzero identifiers
/// leave a free one within one full turn from any start.
proof fn lemma_free_id_exists(ids: Seq<u16>, start: u16)
    requires
        ids.len() < 65535,
    ensures
        exists|k: int| 0 <= k < 65536 && id_free(ids, #[trigger] candidate(start, k)),
{
    if forall|k: int| 0 <= k < 65536 ==> !id_free(ids, #[trigger] candidate(start, k)) {
        let values = ids.map_values(|x: u16| x as int);
        let range = vstd::set_lib::set_int_range(1, 65536);
        assert forall|v: int| range.contains(v) implies values.to_set().contains(v) by {
            let k = if v >= start as int {
                v - start as int
            } else {
                v + 65536 - start as int
            };
            assert(candidate(start, k) == v as u16);
            assert(!id_free(ids, candidate(start, k)));
            let m = choose|m: int| 0 <= m < ids.len() && ids[m] == v as u16;
            assert(values[m] == v);
        }
        vstd::set_lib::lemma_int_range(1, 65536);
        values.lemma_cardinality_of_set();
        vstd::set_lib::lemma_len_subset(range, values.to_set());
    }
}

fn holds_id(outstanding: &Vec<(u16, Vec<u8>, u16)>, id: u16) -> (r: bool)
    ensures
        r == outstanding@.map_values(|e: (u16, Vec<u8>, u16)| e.0).contains(id),
{
    let ghost ids = outstanding@.map_values(|e: (u16, Vec<u8>, u16)| e.0);
    let mut i: usize = 0;
    while i < outstanding.len()
        invariant
            i <= outstanding@.len(),
            ids == outstanding@.map_values(|e: (u16, Vec<u8>, u16)| e.0),
            forall|k: int| 0 <= k < i ==> #[trigger] ids[k] != id,
        decreases outstanding@.len() - i,
    {
        if outstanding[i].0 == id {
            proof {
                assert(ids[i as int] == id);
            }
            return true;
        }
        i = i + 1;
    }
    false
}

fn holds_key(scheduled: &Vec<(Vec<u8>, u16)>, wire: &Vec<u8>, query_type: u16) -> (r: bool)
    ensures
        r == scheduled@.map_values(|e: (Vec<u8>, u16)| (e.0@, e.1)).contains((wire@, query_type)),
{
    let ghost keys = scheduled@.map_values(|e: (Vec<u8>, u16)| (e.0@, e.1));
    let mut i: usize = 0;
    while i < scheduled.len()
        invariant
            i <= scheduled@.len(),
            keys == scheduled@.map_values(|e: (Vec<u8>, u16)| (e.0@, e.1)),
            forall|k: int| 0 <= k < i ==> #[trigger] keys[k] != (wire@, query_type),
        decreases scheduled@.len() - i,
    {
        if scheduled[i].1 == query_type && compare_bytes(scheduled[i].0.as_slice(), wire.as_slice())
            == Precedence::Same {
            proof {
                assert(keys[i as int] == (wire@, query_type));
            }
            return true;
        }
        i = i + 1;
    }
    false
}

impl MdnsQueries {
    /// Reserves a follow-up query for a name (with its text, else none
    /// goes out) and a record type: refused once 256 are scheduled or where
    /// the same query already was; else scheduled, under the first free
    /// transaction identifier from the next one on.
    pub fn reserve(&mut self, wire: &Vec<u8>, has_text: bool, query_type: u16) -> (r: Option<u16>)
        requires
            queries_wf(*old(self)),
        ensures
            queries_wf(*final(self)),
            final(self).outstanding == old(self).outstanding,
            match r {
                None => {
                    &&& !has_text || scheduled_view(*old(self)).contains((wire@, query_type))
                        || old(self).scheduled@.len() >= MAX_MDNS_QUERIES
                    &&& *final(self) == *old(self)
                },
                Some(id) => {
                    &&& has_text
                    &&& !scheduled_view(*old(self)).contains((wire@, query_type))
                    &&& old(self).scheduled@.len() < MAX_MDNS_QUERIES
                    &&& scheduled_view(*final(self)) == scheduled_view(*old(self)).push((wire@, query_type))
                    &&& first_free(outstanding_ids(*old(self)), old(self).next_transaction_id, id)
                    &&& final(self).next_transaction_id == following_id(id)
                },
            },
    {
        if !has_text || self.scheduled.len() >= MAX_MDNS_QUERIES || holds_key(
            &self.scheduled,
            wire,
            query_type,
        ) {
            return None;
        }
        let ghost ids = outstanding_ids(*self);
        let ghost start = self.next_transaction_id;
        let ghost before = scheduled_view(*self);
        proof {
            lemma_free_id_exists(ids, start);
        }
        let ghost bound = choose|k: int| 0 <= k < 65536 && id_free(ids, #[trigger] candidate(start, k));
        let mut id = self.next_transaction_id;
        let mut steps: u32 = 0;
        while id == 0 || holds_id(&self.outstanding, id)
            invariant
                steps <= bound < 65536,
                0 <= bound,
                id_free(ids, candidate(start, bound)),
                ids == self.outstanding@.map_values(|e: (u16, Vec<u8>, u16)| e.0),
                id == candidate(start, steps as int),
                forall|j: int| 0 <= j < steps ==> !id_free(ids, #[trigger] candidate(start, j)),
            decreases bound - steps,
        {
            proof {
                if steps as int == bound {
                    assert(id_free(ids, id));
                }
            }
            id = if id == 65535 {
                0
            } else {
                id + 1
            };
            steps = steps + 1;
        }
        proof {
            assert(first_free(ids, start, id));
        }
        self.scheduled.push((copy_bytes(wire), query_type));
        proof {
            assert(scheduled_view(*self) =~= before.push((wire@, query_type)));
        }
        self.next_transaction_id = if id == 65535 {
            1
        } else {
            id + 1
        };
        Some(id)
    }

    /// Records a reserved query as sent under its transaction identifier.
    pub fn commit(&mut self, id: u16, wire: &Vec<u8>, query_type: u16)
        requires
            queries_wf(*old(self)),
            old(self).outstanding@.len() < old(self).scheduled@.len(),
        ensures
            queries_wf(*final(self)),
            outstanding_ids(*final(self)) == outstanding_ids(*old(self)).push(id),
            final(self).scheduled == old(self).scheduled,
            final(self).next_transaction_id == old(self).next_transaction_id,
    {
        let ghost before = outstanding_ids(*self);
        self.outstanding.push((id, copy_bytes(wire), query_type));
        proof {
            assert(outstanding_ids(*self) =~= before.push(id));
        }
    }

    /// Whether a reply's transaction identifier answers a query awaiting
    /// one.
    pub fn answers(&self, id: u16) -> (r: bool)
        ensures
            r == outstanding_ids(*self).contains(id),
    {
        holds_id(&self.outstanding, id)
    }
}

} // verus!

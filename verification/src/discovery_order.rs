//! The order in which a discovery session reports what it found: entities
//! by operation, interface, responder, port and identity; and within each
//! entity, its addresses and metadata fields in order with repeats removed.
use vstd::prelude::*;
use vstd::utf8::{encode_utf8, encode_utf8_decode_utf8};

use crate::discovery::{DiscoveryCounters, NativeDiscoveryMetadataField, NativeDiscoveryRow};
use crate::discovery_plan::OPERATION_RPCBIND;
use crate::names::{bytes_less, lemma_lex_total, lemma_lex_trans, lex_lt};
use crate::discovery_rows::{address_views, copy_field, field_view, field_views, FieldView};
use crate::harvest::same_entity;
use crate::text::{decimal, decimal_string, str_eq};

verus! {

/// The UTF-8 bytes of a text, by which texts are ordered.
pub open spec fn text_bytes(s: Seq<char>) -> Seq<u8> {
    encode_utf8(s)
}

/// The facts of byte order the proofs below rely on: it is a strict total
/// order.
proof fn lemma_bytes_order(a: Seq<u8>, b: Seq<u8>, c: Seq<u8>)
    ensures
        !(lex_lt(a, b) && lex_lt(b, a)),
        lex_lt(a, b) && lex_lt(b, c) ==> lex_lt(a, c),
        lex_lt(a, b) || lex_lt(b, a) || a == b,
{
    lemma_lex_total(a, b);
    if lex_lt(a, b) && lex_lt(b, c) {
        lemma_lex_trans(a, b, c);
    }
}

/// Distinct texts have distinct bytes.
proof fn lemma_text_bytes_injective(s: Seq<char>, t: Seq<char>)
    ensures
        text_bytes(s) == text_bytes(t) ==> s == t,
{
    encode_utf8_decode_utf8(s);
    encode_utf8_decode_utf8(t);
}

/// Where one value stands relative to another.
#[derive(Clone, Copy, Debug, PartialEq, Eq, Structural)]
pub enum Precedence {
    Before,
    Same,
    After,
}

/// Compares two byte strings lexicographically (a proper prefix first).
pub fn compare_bytes(a: &[u8], b: &[u8]) -> (r: Precedence)
    ensures
        (r == Precedence::Before) == lex_lt(a@, b@),
        (r == Precedence::Same) == (a@ == b@),
        (r == Precedence::After) == lex_lt(b@, a@),
{
    proof {
        lemma_lex_total(a@, b@);
    }
    if bytes_less(a, b) {
        Precedence::Before
    } else if bytes_less(b, a) {
        Precedence::After
    } else {
        Precedence::Same
    }
}

/// Compares two texts by their UTF-8 bytes.
pub fn compare_text(a: &String, b: &String) -> (r: Precedence)
    ensures
        (r == Precedence::Before) == lex_lt(text_bytes(a@), text_bytes(b@)),
        (r == Precedence::Same) == (a@ == b@),
        (r == Precedence::After) == lex_lt(text_bytes(b@), text_bytes(a@)),
{
    proof {
        lemma_text_bytes_injective(a@, b@);
    }
    compare_bytes(a.as_str().as_bytes(), b.as_str().as_bytes())
}

/// Whether one optional interface index comes before another (no index
/// comes first).
pub open spec fn index_before(a: Option<u32>, b: Option<u32>) -> bool {
    match (a, b) {
        (None, Some(_)) => true,
        (Some(x), Some(y)) => x < y,
        _ => false,
    }
}

/// Whether entity `x` is reported before entity `y`: by operation, then
/// interface, responder, responder port and identity.
pub open spec fn row_before(x: NativeDiscoveryRow, y: NativeDiscoveryRow) -> bool {
    if x.operation_id != y.operation_id {
        x.operation_id < y.operation_id
    } else if x.interface_index != y.interface_index {
        index_before(x.interface_index, y.interface_index)
    } else if x.responder@ != y.responder@ {
        lex_lt(text_bytes(x.responder@), text_bytes(y.responder@))
    } else if x.responder_port != y.responder_port {
        x.responder_port < y.responder_port
    } else {
        lex_lt(x.identity@, y.identity@)
    }
}

proof fn lemma_row_order(x: NativeDiscoveryRow, y: NativeDiscoveryRow, z: NativeDiscoveryRow)
    ensures
        !(row_before(x, y) && row_before(y, x)),
        row_before(x, y) && row_before(y, z) ==> row_before(x, z),
{
    lemma_bytes_order(text_bytes(x.responder@), text_bytes(y.responder@), text_bytes(z.responder@));
    lemma_bytes_order(text_bytes(x.responder@), text_bytes(z.responder@), text_bytes(y.responder@));
    lemma_bytes_order(x.identity@, y.identity@, z.identity@);
    lemma_bytes_order(x.identity@, z.identity@, y.identity@);
}

/// Whether entities are in report order.
pub open spec fn rows_sorted(s: Seq<NativeDiscoveryRow>) -> bool {
    forall|i: int, j: int| 0 <= i < j < s.len() ==> !row_before(#[trigger] s[j], #[trigger] s[i])
}

/// Whether entities are in strictly ascending report order: each comes
/// before every later one, so no entity is reported twice.
pub open spec fn rows_ascending(s: Seq<NativeDiscoveryRow>) -> bool {
    forall|i: int, j: int| 0 <= i < j < s.len() ==> row_before(#[trigger] s[i], #[trigger] s[j])
}

/// Whether no two entities of a list are the same entity.
pub open spec fn rows_distinct(s: Seq<NativeDiscoveryRow>) -> bool {
    forall|i: int, j: int| 0 <= i < j < s.len() ==> !same_entity(#[trigger] s[i], #[trigger] s[j])
}

/// Report order is total over distinct entities.
proof fn lemma_row_order_total(x: NativeDiscoveryRow, y: NativeDiscoveryRow)
    ensures
        !same_entity(x, y) ==> row_before(x, y) || row_before(y, x),
{
    lemma_text_bytes_injective(x.responder@, y.responder@);
    lemma_bytes_order(text_bytes(x.responder@), text_bytes(y.responder@), text_bytes(y.responder@));
    lemma_bytes_order(x.identity@, y.identity@, y.identity@);
}

/// A reordering of distinct entities holds distinct entities.
proof fn lemma_distinct_reordered(s: Seq<NativeDiscoveryRow>, t: Seq<NativeDiscoveryRow>)
    requires
        s.to_multiset() == t.to_multiset(),
        rows_distinct(t),
    ensures
        rows_distinct(s),
    decreases s.len(),
{
    broadcast use vstd::multiset::group_multiset_axioms;

    if s.len() > 0 {
        let x = s.last();
        let s1 = s.drop_last();
        assert(s1.push(x) =~= s);
        vstd::seq_lib::to_multiset_build(s1, x);
        vstd::seq_lib::to_multiset_contains(s, x);
        vstd::seq_lib::to_multiset_contains(t, x);
        assert(s.contains(x)) by {
            assert(s[s.len() - 1] == x);
        }
        let k = choose|k: int| 0 <= k < t.len() && t[k] == x;
        let t1 = t.remove(k);
        vstd::seq_lib::to_multiset_remove(t, k);
        assert(s1.to_multiset() =~= t1.to_multiset());
        assert forall|a: int, b: int| 0 <= a < b < t1.len() implies !same_entity(
            #[trigger] t1[a],
            #[trigger] t1[b],
        ) by {
            let a2 = if a < k {
                a
            } else {
                a + 1
            };
            let b2 = if b < k {
                b
            } else {
                b + 1
            };
            assert(t1[a] == t[a2] && t1[b] == t[b2]);
        }
        lemma_distinct_reordered(s1, t1);
        assert forall|i: int, j: int| 0 <= i < j < s.len() implies !same_entity(
            #[trigger] s[i],
            #[trigger] s[j],
        ) by {
            if j == s.len() - 1 {
                let y = s[i];
                assert(s1[i] == y);
                assert(s1.contains(y));
                vstd::seq_lib::to_multiset_contains(s1, y);
                vstd::seq_lib::to_multiset_contains(t1, y);
                let m = choose|m: int| 0 <= m < t1.len() && t1[m] == y;
                let m2 = if m < k {
                    m
                } else {
                    m + 1
                };
                assert(t[m2] == y);
                if m2 < k {
                    assert(!same_entity(t[m2], t[k]));
                } else {
                    assert(!same_entity(t[k], t[m2]));
                }
            } else {
                assert(s[i] == s1[i] && s[j] == s1[j]);
            }
        }
    }
}

/// Sorted distinct entities are strictly ascending.
proof fn lemma_sorted_distinct_ascending(s: Seq<NativeDiscoveryRow>)
    requires
        rows_sorted(s),
        rows_distinct(s),
    ensures
        rows_ascending(s),
{
    assert forall|i: int, j: int| 0 <= i < j < s.len() implies row_before(#[trigger] s[i], #[trigger] s[j]) by {
        lemma_row_order_total(s[i], s[j]);
    }
}

/// Decides whether entity `x` is reported before entity `y`.
pub fn row_precedes(x: &NativeDiscoveryRow, y: &NativeDiscoveryRow) -> (r: bool)
    ensures
        r == row_before(*x, *y),
{
    if x.operation_id != y.operation_id {
        return x.operation_id < y.operation_id;
    }
    match (x.interface_index, y.interface_index) {
        (None, Some(_)) => {
            return true;
        },
        (Some(_), None) => {
            return false;
        },
        (Some(a), Some(b)) => {
            if a != b {
                return a < b;
            }
        },
        (None, None) => {},
    }
    let responder = compare_text(&x.responder, &y.responder);
    if responder != Precedence::Same {
        return responder == Precedence::Before;
    }
    if x.responder_port != y.responder_port {
        return x.responder_port < y.responder_port;
    }
    compare_bytes(x.identity.as_slice(), y.identity.as_slice()) == Precedence::Before
}

proof fn lemma_insert_keeps_rows_sorted(s: Seq<NativeDiscoveryRow>, p: int, x: NativeDiscoveryRow)
    requires
        rows_sorted(s),
        0 <= p <= s.len(),
        forall|k: int| 0 <= k < p ==> !row_before(x, #[trigger] s[k]),
        p < s.len() ==> row_before(x, s[p]),
    ensures
        rows_sorted(s.insert(p, x)),
{
    let t = s.insert(p, x);
    assert forall|i: int, j: int| 0 <= i < j < t.len() implies !row_before(#[trigger] t[j], #[trigger] t[i]) by {
        if j < p {
            assert(t[i] == s[i] && t[j] == s[j]);
        } else if j == p {
            assert(t[i] == s[i] && t[j] == x);
        } else if i < p {
            assert(t[i] == s[i] && t[j] == s[j - 1]);
        } else if i == p {
            assert(t[i] == x && t[j] == s[j - 1]);
            lemma_row_order(s[j - 1], x, s[p]);
            lemma_row_order(x, s[p], s[j - 1]);
            if j - 1 > p {
                assert(!row_before(s[j - 1], s[p]));
            }
        } else {
            assert(t[i] == s[i - 1] && t[j] == s[j - 1]);
        }
    }
}

/// Puts entities in report order.
pub fn sort_rows(rows: Vec<NativeDiscoveryRow>) -> (r: Vec<NativeDiscoveryRow>)
    ensures
        rows_sorted(r@),
        r@.to_multiset() == rows@.to_multiset(),
{
    let ghost all = rows@;
    let ghost mut taken: int = 0;
    let mut rest = rows;
    let mut out: Vec<NativeDiscoveryRow> = Vec::new();
    proof {
        assert(all.take(0) =~= Seq::<NativeDiscoveryRow>::empty());
        assert(all.skip(0) =~= all);
    }
    while rest.len() > 0
        invariant
            0 <= taken <= all.len(),
            rest@ == all.skip(taken),
            rows_sorted(out@),
            out@.to_multiset() == all.take(taken).to_multiset(),
        decreases rest@.len(),
    {
        let x = rest.remove(0);
        let mut p: usize = 0;
        while p < out.len()
            invariant
                p <= out@.len(),
                forall|k: int| 0 <= k < p ==> !row_before(x, #[trigger] out@[k]),
            ensures
                p <= out@.len(),
                forall|k: int| 0 <= k < p ==> !row_before(x, #[trigger] out@[k]),
                p < out@.len() ==> row_before(x, out@[p as int]),
            decreases out@.len() - p,
        {
            if row_precedes(&x, &out[p]) {
                break;
            }
            p = p + 1;
        }
        proof {
            lemma_insert_keeps_rows_sorted(out@, p as int, x);
            vstd::seq_lib::to_multiset_insert(out@, p as int, x);
            assert(x == all[taken]);
            assert(all.take(taken + 1) =~= all.take(taken).push(x));
            vstd::seq_lib::to_multiset_build(all.take(taken), x);
            assert(rest@ =~= all.skip(taken + 1));
        }
        out.insert(p, x);
        proof {
            taken = taken + 1;
        }
    }
    proof {
        assert(all.take(taken) =~= all);
    }
    out
}

/// Whether a sequence ascends strictly under an order.
pub open spec fn ascending_by<A>(s: Seq<A>, before: spec_fn(A, A) -> bool) -> bool {
    forall|i: int, j: int| 0 <= i < j < s.len() ==> before(#[trigger] s[i], #[trigger] s[j])
}

/// Whether an order is transitive.
pub open spec fn transitive<A>(before: spec_fn(A, A) -> bool) -> bool {
    forall|a: A, b: A, c: A| #[trigger] before(a, b) && #[trigger] before(b, c) ==> before(a, c)
}

pub(crate) proof fn lemma_insert_keeps_ascending<A>(s: Seq<A>, p: int, x: A, before: spec_fn(A, A) -> bool)
    requires
        transitive(before),
        ascending_by(s, before),
        0 <= p <= s.len(),
        forall|k: int| 0 <= k < p ==> before(#[trigger] s[k], x),
        p < s.len() ==> before(x, s[p]),
    ensures
        ascending_by(s.insert(p, x), before),
{
    let t = s.insert(p, x);
    assert forall|i: int, j: int| 0 <= i < j < t.len() implies before(#[trigger] t[i], #[trigger] t[j]) by {
        if j < p {
            assert(t[i] == s[i] && t[j] == s[j]);
        } else if j == p {
            assert(t[i] == s[i] && t[j] == x);
        } else if i < p {
            assert(t[i] == s[i] && t[j] == s[j - 1]);
            assert(before(s[i], x));
            if j - 1 > p {
                assert(before(s[p], s[j - 1]));
                assert(before(x, s[p]));
                assert(before(x, s[j - 1]));
            }
        } else if i == p {
            assert(t[i] == x && t[j] == s[j - 1]);
            if j - 1 > p {
                assert(before(s[p], s[j - 1]));
            }
        } else {
            assert(t[i] == s[i - 1] && t[j] == s[j - 1]);
        }
    }
}

/// Adding one item to two lists that hold the same items keeps them
/// holding the same items, whether the item is inserted anywhere or was
/// held already.
pub(crate) proof fn lemma_contains_after_adding<A>(before: Seq<A>, after: Seq<A>, others: Seq<A>, x: A)
    requires
        forall|t: A| before.contains(t) == others.contains(t),
        after == before || exists|p: int| 0 <= p <= before.len() && after == before.insert(p, x),
        after == before ==> before.contains(x),
    ensures
        forall|t: A| after.contains(t) == others.push(x).contains(t),
{
    assert forall|t: A| after.contains(t) == others.push(x).contains(t) by {
        if others.push(x).contains(t) {
            let k = choose|k: int| 0 <= k < others.push(x).len() && others.push(x)[k] == t;
            if k < others.len() {
                assert(others.contains(t));
                assert(before.contains(t));
                let m = choose|m: int| 0 <= m < before.len() && before[m] == t;
                if after != before {
                    let p = choose|p: int| 0 <= p <= before.len() && after == before.insert(p, x);
                    if m < p {
                        assert(after[m] == t);
                    } else {
                        assert(after[m + 1] == t);
                    }
                }
            } else {
                assert(t == x);
                if after != before {
                    let p = choose|p: int| 0 <= p <= before.len() && after == before.insert(p, x);
                    assert(after[p] == t);
                }
            }
        }
        if after.contains(t) {
            let k = choose|k: int| 0 <= k < after.len() && after[k] == t;
            if after == before {
                assert(others.contains(t));
                let m = choose|m: int| 0 <= m < others.len() && others[m] == t;
                assert(others.push(x)[m] == t);
            } else {
                let p = choose|p: int| 0 <= p <= before.len() && after == before.insert(p, x);
                if k == p {
                    assert(others.push(x)[others.len() as int] == t);
                } else {
                    if k < p {
                        assert(before[k] == t);
                    } else {
                        assert(before[k - 1] == t);
                    }
                    assert(others.contains(t));
                    let m = choose|m: int| 0 <= m < others.len() && others[m] == t;
                    assert(others.push(x)[m] == t);
                }
            }
        }
    }
}

/// Text order: by UTF-8 bytes.
pub open spec fn text_before(a: Seq<char>, b: Seq<char>) -> bool {
    lex_lt(text_bytes(a), text_bytes(b))
}

proof fn lemma_text_order_transitive()
    ensures
        transitive(|a: Seq<char>, b: Seq<char>| text_before(a, b)),
{
    let before = |a: Seq<char>, b: Seq<char>| text_before(a, b);
    assert forall|a: Seq<char>, b: Seq<char>, c: Seq<char>| #[trigger] before(a, b) && #[trigger] before(
        b,
        c,
    ) implies before(a, c) by {
        lemma_bytes_order(text_bytes(a), text_bytes(b), text_bytes(c));
    }
}

/// Whether a list of texts ascends strictly, so that no text repeats.
pub open spec fn texts_ascending(s: Seq<Seq<char>>) -> bool {
    ascending_by(s, |a: Seq<char>, b: Seq<char>| text_before(a, b))
}

/// The addresses of an entity in order, each once.
pub fn sort_addresses(addresses: &Vec<String>) -> (r: Vec<String>)
    ensures
        texts_ascending(address_views(r@)),
        forall|t: Seq<char>| address_views(r@).contains(t) == address_views(addresses@).contains(t),
{
    let ghost before = |a: Seq<char>, b: Seq<char>| text_before(a, b);
    proof {
        lemma_text_order_transitive();
    }
    let mut out: Vec<String> = Vec::new();
    let mut i: usize = 0;
    while i < addresses.len()
        invariant
            i <= addresses@.len(),
            transitive(before),
            before == (|a: Seq<char>, b: Seq<char>| text_before(a, b)),
            ascending_by(address_views(out@), before),
            forall|t: Seq<char>| address_views(out@).contains(t) == address_views(
                addresses@.take(i as int),
            ).contains(t),
        decreases addresses@.len() - i,
    {
        let x = addresses[i].clone();
        let mut p: usize = 0;
        let mut found = Precedence::After;
        while p < out.len()
            invariant
                p <= out@.len(),
                forall|k: int| 0 <= k < p ==> text_before(#[trigger] out@[k]@, x@),
            ensures
                p <= out@.len(),
                forall|k: int| 0 <= k < p ==> text_before(#[trigger] out@[k]@, x@),
                p < out@.len() ==> (found == Precedence::Same) == (out@[p as int]@ == x@),
                p < out@.len() ==> (found == Precedence::After) == text_before(x@, out@[p as int]@),
                p < out@.len() ==> found != Precedence::Before,
            decreases out@.len() - p,
        {
            let c = compare_text(&out[p], &x);
            if c != Precedence::Before {
                found = c;
                break;
            }
            p = p + 1;
        }
        let ghost prior = out@;
        proof {
            assert(address_views(addresses@.take(i + 1)) =~= address_views(addresses@.take(i as int)).push(
                x@,
            ));
        }
        if p < out.len() && found == Precedence::Same {
            proof {
                assert(address_views(out@)[p as int] == x@);
                lemma_contains_after_adding(
                    address_views(prior),
                    address_views(out@),
                    address_views(addresses@.take(i as int)),
                    x@,
                );
            }
        } else {
            out.insert(p, x);
            proof {
                assert(address_views(out@) =~= address_views(prior).insert(p as int, x@));
                lemma_insert_keeps_ascending(address_views(prior), p as int, x@, before);
                lemma_contains_after_adding(
                    address_views(prior),
                    address_views(out@),
                    address_views(addresses@.take(i as int)),
                    x@,
                );
            }
        }
        i = i + 1;
    }
    proof {
        assert(addresses@.take(i as int) =~= addresses@);
    }
    out
}

/// Order of optional texts: none first, then by text order.
pub open spec fn optional_text_before(a: Option<Seq<char>>, b: Option<Seq<char>>) -> bool {
    match (a, b) {
        (None, Some(_)) => true,
        (Some(x), Some(y)) => text_before(x, y),
        _ => false,
    }
}

/// Order of metadata fields: by key, then bytes, then text.
pub open spec fn field_before(a: FieldView, b: FieldView) -> bool {
    if a.0 != b.0 {
        text_before(a.0, b.0)
    } else if a.1 != b.1 {
        lex_lt(a.1, b.1)
    } else {
        optional_text_before(a.2, b.2)
    }
}

proof fn lemma_field_order_transitive()
    ensures
        transitive(|a: FieldView, b: FieldView| field_before(a, b)),
{
    let before = |a: FieldView, b: FieldView| field_before(a, b);
    assert forall|a: FieldView, b: FieldView, c: FieldView| #[trigger] before(a, b) && #[trigger] before(
        b,
        c,
    ) implies before(a, c) by {
        lemma_bytes_order(text_bytes(a.0), text_bytes(b.0), text_bytes(c.0));
        lemma_bytes_order(text_bytes(a.0), text_bytes(c.0), text_bytes(b.0));
        lemma_bytes_order(a.1, b.1, c.1);
        lemma_bytes_order(a.1, c.1, b.1);
        if a.2 is Some && b.2 is Some && c.2 is Some {
            lemma_bytes_order(
                text_bytes(a.2->0),
                text_bytes(b.2->0),
                text_bytes(c.2->0),
            );
            lemma_bytes_order(
                text_bytes(a.2->0),
                text_bytes(c.2->0),
                text_bytes(b.2->0),
            );
        }
    }
}

/// Compares two metadata fields by key, bytes and text.
pub fn compare_fields(a: &NativeDiscoveryMetadataField, b: &NativeDiscoveryMetadataField) -> (r:
    Precedence)
    ensures
        (r == Precedence::Before) == field_before(field_view(*a), field_view(*b)),
        (r == Precedence::Same) == (field_view(*a) == field_view(*b)),
        (r == Precedence::After) == field_before(field_view(*b), field_view(*a)),
{
    proof {
        lemma_bytes_order(text_bytes(a.key@), text_bytes(b.key@), text_bytes(b.key@));
        lemma_bytes_order(a.value@, b.value@, b.value@);
    }
    let key = compare_text(&a.key, &b.key);
    if key != Precedence::Same {
        return key;
    }
    let value = compare_bytes(a.value.as_slice(), b.value.as_slice());
    if value != Precedence::Same {
        return value;
    }
    match (&a.text, &b.text) {
        (None, None) => Precedence::Same,
        (None, Some(_)) => Precedence::Before,
        (Some(_), None) => Precedence::After,
        (Some(x), Some(y)) => compare_text(x, y),
    }
}

/// Whether a list of metadata fields ascends strictly, so that no field
/// repeats.
pub open spec fn fields_ascending(s: Seq<FieldView>) -> bool {
    ascending_by(s, |a: FieldView, b: FieldView| field_before(a, b))
}

/// The metadata fields of an entity in order, each once.
pub fn sort_fields(fields: &Vec<NativeDiscoveryMetadataField>) -> (r: Vec<NativeDiscoveryMetadataField>)
    ensures
        fields_ascending(field_views(r@)),
        forall|t: FieldView| field_views(r@).contains(t) == field_views(fields@).contains(t),
{
    let ghost before = |a: FieldView, b: FieldView| field_before(a, b);
    proof {
        lemma_field_order_transitive();
    }
    let mut out: Vec<NativeDiscoveryMetadataField> = Vec::new();
    let mut i: usize = 0;
    while i < fields.len()
        invariant
            i <= fields@.len(),
            transitive(before),
            before == (|a: FieldView, b: FieldView| field_before(a, b)),
            ascending_by(field_views(out@), before),
            forall|t: FieldView| field_views(out@).contains(t) == field_views(
                fields@.take(i as int),
            ).contains(t),
        decreases fields@.len() - i,
    {
        let x = copy_field(&fields[i]);
        let mut p: usize = 0;
        let mut found = Precedence::After;
        while p < out.len()
            invariant
                p <= out@.len(),
                forall|k: int| 0 <= k < p ==> field_before(field_view(#[trigger] out@[k]), field_view(x)),
            ensures
                p <= out@.len(),
                forall|k: int| 0 <= k < p ==> field_before(field_view(#[trigger] out@[k]), field_view(x)),
                p < out@.len() ==> (found == Precedence::Same) == (field_view(out@[p as int])
                    == field_view(x)),
                p < out@.len() ==> (found == Precedence::After) == field_before(
                    field_view(x),
                    field_view(out@[p as int]),
                ),
                p < out@.len() ==> found != Precedence::Before,
            decreases out@.len() - p,
        {
            let c = compare_fields(&out[p], &x);
            if c != Precedence::Before {
                found = c;
                break;
            }
            p = p + 1;
        }
        let ghost prior = out@;
        proof {
            assert(field_views(fields@.take(i + 1)) =~= field_views(fields@.take(i as int)).push(
                field_view(x),
            ));
            assert(field_view(x) == field_view(fields@[i as int]));
        }
        if p < out.len() && found == Precedence::Same {
            proof {
                assert(field_views(out@)[p as int] == field_view(x));
                lemma_contains_after_adding(
                    field_views(prior),
                    field_views(out@),
                    field_views(fields@.take(i as int)),
                    field_view(x),
                );
            }
        } else {
            out.insert(p, x);
            proof {
                assert(field_views(out@) =~= field_views(prior).insert(p as int, field_view(x)));
                assert forall|k: int| 0 <= k < p implies before(
                    #[trigger] field_views(prior)[k],
                    field_view(x),
                ) by {
                    assert(field_views(prior)[k] == field_view(prior[k]));
                }
                lemma_insert_keeps_ascending(field_views(prior), p as int, field_view(x), before);
                lemma_contains_after_adding(
                    field_views(prior),
                    field_views(out@),
                    field_views(fields@.take(i as int)),
                    field_view(x),
                );
            }
        }
        i = i + 1;
    }
    proof {
        assert(fields@.take(i as int) =~= fields@);
    }
    out
}

/// Whether `after` is `before` with its addresses and metadata fields put
/// in order and each kept once, and nothing else changed.
pub open spec fn lists_normalized(before: NativeDiscoveryRow, after: NativeDiscoveryRow) -> bool {
    &&& after == (NativeDiscoveryRow { addresses: after.addresses, metadata: after.metadata, ..before })
    &&& texts_ascending(address_views(after.addresses@))
    &&& forall|t: Seq<char>| address_views(after.addresses@).contains(t) == address_views(
        before.addresses@,
    ).contains(t)
    &&& fields_ascending(field_views(after.metadata@))
    &&& forall|t: FieldView| field_views(after.metadata@).contains(t) == field_views(
        before.metadata@,
    ).contains(t)
}

/// Puts an entity's addresses and metadata fields in order, each once.
pub fn normalize_row(row: NativeDiscoveryRow) -> (r: NativeDiscoveryRow)
    ensures
        lists_normalized(row, r),
{
    let addresses = sort_addresses(&row.addresses);
    let metadata = sort_fields(&row.metadata);
    NativeDiscoveryRow { addresses, metadata, ..row }
}

/// Puts the addresses and metadata fields of each entity in order.
pub fn normalize_rows(rows: Vec<NativeDiscoveryRow>) -> (r: Vec<NativeDiscoveryRow>)
    ensures
        r@.len() == rows@.len(),
        forall|i: int| 0 <= i < rows@.len() ==> lists_normalized(rows@[i], #[trigger] r@[i]),
{
    let ghost all = rows@;
    let mut rest = rows;
    let mut out: Vec<NativeDiscoveryRow> = Vec::new();
    proof {
        assert(all.skip(0) =~= all);
    }
    while rest.len() > 0
        invariant
            out@.len() <= all.len(),
            rest@ == all.skip(out@.len() as int),
            forall|i: int| 0 <= i < out@.len() ==> lists_normalized(all[i], #[trigger] out@[i]),
        decreases rest@.len(),
    {
        let row = rest.remove(0);
        proof {
            assert(row == all[out@.len() as int]);
            assert(rest@ =~= all.skip(out@.len() + 1 as int));
        }
        out.push(normalize_row(row));
    }
    out
}

/// Whether `parent` is the rpcbind entity that derived entity `child`
/// names as its parent: same interface and responder, and an identity
/// spelling the child's parent reference.
pub open spec fn parent_of(parent: NativeDiscoveryRow, child: NativeDiscoveryRow) -> bool {
    &&& parent.operation_id == OPERATION_RPCBIND as u32
    &&& parent.derivation_kind is None
    &&& parent.interface_index == child.interface_index
    &&& parent.responder@ == child.responder@
    &&& child.parent_entity_id matches Some(reference) && parent.identity@ == text_bytes(reference@)
}

/// Whether a session keeps an entity: a direct one always, a derived one
/// only while its parent is among the entities.
pub open spec fn keeps(rows: Seq<NativeDiscoveryRow>, row: NativeDiscoveryRow) -> bool {
    row.derivation_kind is None || exists|j: int| 0 <= j < rows.len() && parent_of(#[trigger] rows[j], row)
}

/// The entities of `s` that a session keeps out of `all`, in order.
pub open spec fn retained_rows(all: Seq<NativeDiscoveryRow>, s: Seq<NativeDiscoveryRow>) -> Seq<
    NativeDiscoveryRow,
>
    decreases s.len(),
{
    if s.len() == 0 {
        s
    } else {
        let rest = retained_rows(all, s.drop_last());
        if keeps(all, s.last()) {
            rest.push(s.last())
        } else {
            rest
        }
    }
}

/// Decides whether `parent` is the rpcbind entity that `child` names.
pub fn is_parent_of(parent: &NativeDiscoveryRow, child: &NativeDiscoveryRow) -> (r: bool)
    ensures
        r == parent_of(*parent, *child),
{
    if parent.operation_id != OPERATION_RPCBIND as u32 || parent.derivation_kind.is_some() {
        return false;
    }
    match (parent.interface_index, child.interface_index) {
        (Some(a), Some(b)) => {
            if a != b {
                return false;
            }
        },
        (None, None) => {},
        _ => {
            return false;
        },
    }
    if !str_eq(parent.responder.as_str(), child.responder.as_str()) {
        return false;
    }
    match &child.parent_entity_id {
        Some(reference) => compare_bytes(parent.identity.as_slice(), reference.as_str().as_bytes())
            == Precedence::Same,
        None => false,
    }
}

fn has_parent(rows: &Vec<NativeDiscoveryRow>, child: &NativeDiscoveryRow) -> (r: bool)
    ensures
        r == exists|j: int| 0 <= j < rows@.len() && parent_of(#[trigger] rows@[j], *child),
{
    let mut j: usize = 0;
    while j < rows.len()
        invariant
            j <= rows@.len(),
            forall|k: int| 0 <= k < j ==> !parent_of(#[trigger] rows@[k], *child),
        decreases rows@.len() - j,
    {
        if is_parent_of(&rows[j], child) {
            return true;
        }
        j = j + 1;
    }
    false
}

/// Drops each derived entity whose parent is not among the entities.
pub fn drop_orphaned_rows(rows: Vec<NativeDiscoveryRow>) -> (r: Vec<NativeDiscoveryRow>)
    ensures
        r@ == retained_rows(rows@, rows@),
{
    let mut flags: Vec<bool> = Vec::new();
    let mut i: usize = 0;
    while i < rows.len()
        invariant
            i <= rows@.len(),
            flags@.len() == i,
            forall|k: int| 0 <= k < i ==> #[trigger] flags@[k] == keeps(rows@, rows@[k]),
        decreases rows@.len() - i,
    {
        let keep = rows[i].derivation_kind.is_none() || has_parent(&rows, &rows[i]);
        flags.push(keep);
        i = i + 1;
    }
    let ghost all = rows@;
    let total = rows.len();
    let mut rest = rows;
    let mut out: Vec<NativeDiscoveryRow> = Vec::new();
    let mut n: usize = 0;
    proof {
        assert(all.skip(0) =~= all);
        assert(all.take(0) =~= Seq::<NativeDiscoveryRow>::empty());
    }
    while rest.len() > 0
        invariant
            n <= all.len(),
            all.len() == total,
            flags@.len() == all.len(),
            forall|k: int| 0 <= k < all.len() ==> #[trigger] flags@[k] == keeps(all, all[k]),
            rest@ == all.skip(n as int),
            out@ == retained_rows(all, all.take(n as int)),
        decreases rest@.len(),
    {
        let row = rest.remove(0);
        proof {
            assert(row == all[n as int]);
            assert(rest@ =~= all.skip(n + 1));
            assert(all.take(n + 1).drop_last() =~= all.take(n as int));
            assert(all.take(n + 1).last() == row);
        }
        if flags[n] {
            out.push(row);
        }
        n = n + 1;
    }
    proof {
        assert(all.take(n as int) =~= all);
    }
    out
}

/// The position of the last rpcbind entity among the first `n` that
/// `child` names as its parent.
pub open spec fn last_parent(rows: Seq<NativeDiscoveryRow>, child: NativeDiscoveryRow, n: int) -> Option<
    int,
>
    decreases n,
{
    if n <= 0 {
        None
    } else if parent_of(rows[n - 1], child) {
        Some(n - 1)
    } else {
        last_parent(rows, child, n - 1)
    }
}

/// The parent reference entity `child` carries once entities are numbered:
/// a derived entity names its parent by number (none where it has none),
/// and any other reference stays.
pub open spec fn numbered_parent(rows: Seq<NativeDiscoveryRow>, child: NativeDiscoveryRow) -> Option<
    Seq<char>,
> {
    if child.derivation_kind is Some && child.parent_entity_id is Some {
        match last_parent(rows, child, rows.len() as int) {
            Some(j) => Some(decimal((j + 1) as nat)),
            None => None,
        }
    } else {
        match child.parent_entity_id {
            Some(reference) => Some(reference@),
            None => None,
        }
    }
}

/// Whether `after` numbers the entities of `before` from one in order and
/// points each derived entity at its parent's number.
pub open spec fn rows_numbered(before: Seq<NativeDiscoveryRow>, after: Seq<NativeDiscoveryRow>) -> bool {
    &&& after.len() == before.len()
    &&& forall|i: int|
        0 <= i < before.len() ==> {
            let row = #[trigger] after[i];
            &&& row == (NativeDiscoveryRow {
                entity_id: row.entity_id,
                parent_entity_id: row.parent_entity_id,
                ..before[i]
            })
            &&& row.entity_id@ == decimal((i + 1) as nat)
            &&& match row.parent_entity_id {
                Some(reference) => numbered_parent(before, before[i]) == Some(reference@),
                None => numbered_parent(before, before[i]) is None,
            }
        }
}

fn parent_number(rows: &Vec<NativeDiscoveryRow>, child: &NativeDiscoveryRow) -> (r: Option<String>)
    requires
        rows@.len() < u64::MAX,
    ensures
        match r {
            Some(reference) => numbered_parent(rows@, *child) == Some(reference@),
            None => numbered_parent(rows@, *child) is None,
        },
{
    if child.derivation_kind.is_none() || child.parent_entity_id.is_none() {
        return match &child.parent_entity_id {
            Some(reference) => Some(reference.clone()),
            None => None,
        };
    }
    let mut j: usize = rows.len();
    while j > 0
        invariant
            j <= rows@.len(),
            rows@.len() < u64::MAX,
            child.derivation_kind is Some,
            child.parent_entity_id is Some,
            last_parent(rows@, *child, rows@.len() as int) == last_parent(rows@, *child, j as int),
        decreases j,
    {
        if is_parent_of(&rows[j - 1], child) {
            let number = decimal_string(j as u64);
            proof {
                assert(last_parent(rows@, *child, j as int) == Some(j - 1));
                assert(number@ == decimal(j as nat));
                assert(numbered_parent(rows@, *child) == Some(decimal((j - 1 + 1) as nat)));
            }
            return Some(number);
        }
        j = j - 1;
    }
    None
}

/// Numbers entities from one in order and points each derived entity at
/// its parent's number.
pub fn number_rows(rows: Vec<NativeDiscoveryRow>) -> (r: Vec<NativeDiscoveryRow>)
    requires
        rows@.len() < u64::MAX,
    ensures
        rows_numbered(rows@, r@),
{
    let mut parents: Vec<Option<String>> = Vec::new();
    let mut i: usize = 0;
    while i < rows.len()
        invariant
            i <= rows@.len(),
            rows@.len() < u64::MAX,
            parents@.len() == i,
            forall|k: int|
                0 <= k < i ==> match #[trigger] parents@[k] {
                    Some(reference) => numbered_parent(rows@, rows@[k]) == Some(reference@),
                    None => numbered_parent(rows@, rows@[k]) is None,
                },
        decreases rows@.len() - i,
    {
        let parent = parent_number(&rows, &rows[i]);
        parents.push(parent);
        i = i + 1;
    }
    let ghost all = rows@;
    let total = rows.len();
    let mut rest = rows;
    let mut out: Vec<NativeDiscoveryRow> = Vec::new();
    let mut taken_parents = parents;
    proof {
        assert(all.skip(0) =~= all);
    }
    while rest.len() > 0
        invariant
            out@.len() <= all.len(),
            all.len() == total,
            all.len() < u64::MAX,
            rest@ == all.skip(out@.len() as int),
            taken_parents@.len() == rest@.len(),
            forall|k: int|
                0 <= k < taken_parents@.len() ==> match #[trigger] taken_parents@[k] {
                    Some(reference) => numbered_parent(all, all[out@.len() + k]) == Some(reference@),
                    None => numbered_parent(all, all[out@.len() + k]) is None,
                },
            forall|k: int|
                0 <= k < out@.len() ==> {
                    let row = #[trigger] out@[k];
                    &&& row == (NativeDiscoveryRow {
                        entity_id: row.entity_id,
                        parent_entity_id: row.parent_entity_id,
                        ..all[k]
                    })
                    &&& row.entity_id@ == decimal((k + 1) as nat)
                    &&& match row.parent_entity_id {
                        Some(reference) => numbered_parent(all, all[k]) == Some(reference@),
                        None => numbered_parent(all, all[k]) is None,
                    }
                },
        decreases rest@.len(),
    {
        let ghost n: int = out@.len() as int;
        let ghost parents_before = taken_parents@;
        let mut row = rest.remove(0);
        let parent = taken_parents.remove(0);
        proof {
            assert(row == all[n as int]);
            assert(rest@ =~= all.skip(n + 1 as int));
            assert(parent == parents_before[0]);
            assert forall|k: int| 0 <= k < taken_parents@.len() implies match #[trigger] taken_parents@[k] {
                Some(reference) => numbered_parent(all, all[n + 1 + k]) == Some(reference@),
                None => numbered_parent(all, all[n + 1 + k]) is None,
            } by {
                assert(taken_parents@[k] == parents_before[k + 1]);
            }
        }
        let number = out.len() + 1;
        row.entity_id = decimal_string(number as u64);
        row.parent_entity_id = parent;
        out.push(row);
    }
    out
}

pub(crate) proof fn lemma_retained_rows_len(all: Seq<NativeDiscoveryRow>, s: Seq<NativeDiscoveryRow>)
    ensures
        retained_rows(all, s).len() <= s.len(),
    decreases s.len(),
{
    if s.len() > 0 {
        lemma_retained_rows_len(all, s.drop_last());
    }
}

/// Each entity a session keeps is one of the list's.
proof fn lemma_retained_members(all: Seq<NativeDiscoveryRow>, s: Seq<NativeDiscoveryRow>)
    ensures
        forall|k: int|
            0 <= k < retained_rows(all, s).len() ==> exists|m: int|
                0 <= m < s.len() && #[trigger] retained_rows(all, s)[k] == s[m],
    decreases s.len(),
{
    if s.len() > 0 {
        let s1 = s.drop_last();
        lemma_retained_members(all, s1);
        let rest = retained_rows(all, s1);
        let out = retained_rows(all, s);
        assert forall|k: int| 0 <= k < out.len() implies exists|m: int|
            0 <= m < s.len() && #[trigger] out[k] == s[m] by {
            if k < rest.len() {
                assert(out[k] == rest[k]);
                let m = choose|m: int| 0 <= m < s1.len() && rest[k] == s1[m];
                assert(s[m] == s1[m]);
            } else {
                assert(out[k] == s[s.len() - 1]);
            }
        }
    }
}

/// The entities a session keeps are drawn from the list in its order, so a
/// strictly ascending list stays strictly ascending.
proof fn lemma_retained_ascending(all: Seq<NativeDiscoveryRow>, s: Seq<NativeDiscoveryRow>)
    requires
        rows_ascending(s),
    ensures
        rows_ascending(retained_rows(all, s)),
        forall|k: int|
            0 <= k < retained_rows(all, s).len() ==> exists|m: int|
                0 <= m < s.len() && #[trigger] retained_rows(all, s)[k] == s[m],
    decreases s.len(),
{
    if s.len() > 0 {
        let s1 = s.drop_last();
        assert forall|i: int, j: int| 0 <= i < j < s1.len() implies row_before(#[trigger] s1[i], #[trigger] s1[j]) by {
            assert(s1[i] == s[i] && s1[j] == s[j]);
        }
        lemma_retained_ascending(all, s1);
        let rest = retained_rows(all, s1);
        let out = retained_rows(all, s);
        assert forall|k: int| 0 <= k < out.len() implies exists|m: int|
            0 <= m < s.len() && #[trigger] out[k] == s[m] by {
            if k < rest.len() {
                assert(out[k] == rest[k]);
                let m = choose|m: int| 0 <= m < s1.len() && rest[k] == s1[m];
                assert(s[m] == s1[m]);
            } else {
                assert(out[k] == s[s.len() - 1]);
            }
        }
        assert forall|i: int, j: int| 0 <= i < j < out.len() implies row_before(#[trigger] out[i], #[trigger] out[j]) by {
            if j < rest.len() {
                assert(out[i] == rest[i] && out[j] == rest[j]);
            } else {
                assert(out[i] == rest[i]);
                assert(out[j] == s[s.len() - 1]);
                let m = choose|m: int| 0 <= m < s1.len() && rest[i] == s1[m];
                assert(s1[m] == s[m]);
            }
        }
    }
}

/// Counters after `dropped` entities were taken back from those accepted
/// and counted as rejected; each saturates.
pub open spec fn counted_drops(before: DiscoveryCounters, dropped: nat) -> DiscoveryCounters {
    DiscoveryCounters {
        rejected: if before.rejected + dropped > u64::MAX {
            u64::MAX
        } else {
            (before.rejected + dropped) as u64
        },
        accepted: if before.accepted < dropped {
            0
        } else {
            (before.accepted - dropped) as u64
        },
        ..before
    }
}

/// Puts a session's entities in report form: each entity's addresses and
/// metadata fields in order and each once, the entities in report order,
/// derived entities whose parent is missing dropped (and counted as
/// rejected rather than accepted), and the rest numbered from one.
pub fn finalize_rows(rows: Vec<NativeDiscoveryRow>, counters: &mut DiscoveryCounters) -> (r: Vec<
    NativeDiscoveryRow,
>)
    requires
        rows@.len() < u64::MAX,
    ensures
        exists|normalized: Seq<NativeDiscoveryRow>, sorted: Seq<NativeDiscoveryRow>|
            {
                &&& normalized.len() == rows@.len()
                &&& forall|i: int|
                    0 <= i < rows@.len() ==> lists_normalized(rows@[i], #[trigger] normalized[i])
                &&& rows_sorted(sorted)
                &&& sorted.to_multiset() == normalized.to_multiset()
                &&& rows_numbered(retained_rows(sorted, sorted), r@)
                &&& (rows_distinct(rows@) ==> rows_ascending(r@))
                &&& forall|i: int|
                    0 <= i < r@.len() ==> texts_ascending(address_views((#[trigger] r@[i]).addresses@))
                        && fields_ascending(field_views(r@[i].metadata@))
                &&& *final(counters) == counted_drops(
                    *old(counters),
                    (sorted.len() - retained_rows(sorted, sorted).len()) as nat,
                )
            },
{
    let ghost rows_view = rows@;
    let normalized = normalize_rows(rows);
    let ghost normalized_view = normalized@;
    let sorted = sort_rows(normalized);
    let ghost sorted_view = sorted@;
    proof {
        vstd::seq_lib::to_multiset_len(sorted@);
        vstd::seq_lib::to_multiset_len(normalized@);
        lemma_retained_rows_len(sorted@, sorted@);
    }
    let sorted_len = sorted.len();
    let kept = drop_orphaned_rows(sorted);
    let dropped = (sorted_len - kept.len()) as u64;
    counters.rejected = counters.rejected.saturating_add(dropped);
    counters.accepted = counters.accepted.saturating_sub(dropped);
    let numbered = number_rows(kept);
    proof {
        assert(dropped as nat == (sorted_view.len() - retained_rows(sorted_view, sorted_view).len()) as nat);
        let kept_all = retained_rows(sorted_view, sorted_view);
        lemma_retained_members(sorted_view, sorted_view);
        assert forall|i: int| 0 <= i < numbered@.len() implies texts_ascending(
            address_views((#[trigger] numbered@[i]).addresses@),
        ) && fields_ascending(field_views(numbered@[i].metadata@)) by {
            let m = choose|m: int| 0 <= m < sorted_view.len() && kept_all[i] == sorted_view[m];
            let x = sorted_view[m];
            assert(sorted_view.contains(x));
            vstd::seq_lib::to_multiset_contains(sorted_view, x);
            vstd::seq_lib::to_multiset_contains(normalized_view, x);
            let n = choose|n: int| 0 <= n < normalized_view.len() && normalized_view[n] == x;
            assert(lists_normalized(rows_view[n], normalized_view[n]));
            assert(numbered@[i].addresses == kept_all[i].addresses);
            assert(numbered@[i].metadata == kept_all[i].metadata);
        }
        if rows_distinct(rows_view) {
            assert forall|i: int, j: int| 0 <= i < j < normalized_view.len() implies !same_entity(
                #[trigger] normalized_view[i],
                #[trigger] normalized_view[j],
            ) by {
                assert(lists_normalized(rows_view[i], normalized_view[i]));
                assert(lists_normalized(rows_view[j], normalized_view[j]));
            }
            lemma_distinct_reordered(sorted_view, normalized_view);
            lemma_sorted_distinct_ascending(sorted_view);
            lemma_retained_ascending(sorted_view, sorted_view);
            let kept_view = retained_rows(sorted_view, sorted_view);
            assert forall|i: int, j: int| 0 <= i < j < numbered@.len() implies row_before(
                #[trigger] numbered@[i],
                #[trigger] numbered@[j],
            ) by {
                assert(row_before(kept_view[i], kept_view[j]));
            }
        }
    }
    numbered
}

proof fn lemma_retained_are_kept(all: Seq<NativeDiscoveryRow>, s: Seq<NativeDiscoveryRow>)
    ensures
        forall|k: int| 0 <= k < retained_rows(all, s).len() ==> keeps(all, #[trigger] retained_rows(all, s)[k]),
    decreases s.len(),
{
    if s.len() > 0 {
        lemma_retained_are_kept(all, s.drop_last());
        let rest = retained_rows(all, s.drop_last());
        assert forall|k: int| 0 <= k < retained_rows(all, s).len() implies keeps(
            all,
            #[trigger] retained_rows(all, s)[k],
        ) by {
            if k < rest.len() {
                assert(retained_rows(all, s)[k] == rest[k]);
            }
        }
    }
}

proof fn lemma_direct_rows_retained(all: Seq<NativeDiscoveryRow>, s: Seq<NativeDiscoveryRow>, j: int)
    requires
        0 <= j < s.len(),
        s[j].derivation_kind is None,
    ensures
        retained_rows(all, s).contains(s[j]),
    decreases s.len(),
{
    let rest = retained_rows(all, s.drop_last());
    if j == s.len() - 1 {
        assert(retained_rows(all, s) == rest.push(s.last()));
        assert(retained_rows(all, s)[rest.len() as int] == s[j]);
    } else {
        lemma_direct_rows_retained(all, s.drop_last(), j);
        let k = choose|k: int| 0 <= k < rest.len() && rest[k] == s.drop_last()[j];
        assert(retained_rows(all, s)[k] == s[j]);
    }
}

proof fn lemma_last_parent_found(rows: Seq<NativeDiscoveryRow>, child: NativeDiscoveryRow, n: int, j: int)
    requires
        0 <= j < n <= rows.len(),
        parent_of(rows[j], child),
    ensures
        last_parent(rows, child, n) matches Some(p) && 0 <= p < n && parent_of(rows[p], child),
    decreases n,
{
    if !parent_of(rows[n - 1], child) {
        lemma_last_parent_found(rows, child, n - 1, j);
    }
}

/// In a finalized report, every derived entity names, by number, an
/// rpcbind entity of the same report that is its parent.
pub proof fn derived_entities_name_a_reported_parent(sorted: Seq<NativeDiscoveryRow>, report: Seq<NativeDiscoveryRow>)
    requires
        rows_numbered(retained_rows(sorted, sorted), report),
    ensures
        forall|i: int|
            0 <= i < report.len() && (#[trigger] report[i]).derivation_kind is Some ==> (
            report[i].parent_entity_id matches Some(reference) && exists|j: int|
                0 <= j < report.len() && reference@ == (#[trigger] report[j]).entity_id@ && parent_of(
                    retained_rows(sorted, sorted)[j],
                    retained_rows(sorted, sorted)[i],
                )),
{
    let kept = retained_rows(sorted, sorted);
    lemma_retained_are_kept(sorted, sorted);
    assert forall|i: int|
        0 <= i < report.len() && (#[trigger] report[i]).derivation_kind is Some implies (
        report[i].parent_entity_id matches Some(reference) && exists|j: int|
            0 <= j < report.len() && reference@ == (#[trigger] report[j]).entity_id@ && parent_of(
                kept[j],
                kept[i],
            )) by {
        let child = kept[i];
        assert(report[i].derivation_kind == child.derivation_kind);
        assert(keeps(sorted, child));
        let m = choose|m: int| 0 <= m < sorted.len() && parent_of(#[trigger] sorted[m], child);
        lemma_direct_rows_retained(sorted, sorted, m);
        let j = choose|j: int| 0 <= j < kept.len() && kept[j] == sorted[m];
        lemma_last_parent_found(kept, child, kept.len() as int, j);
        let p = last_parent(kept, child, kept.len() as int)->Some_0;
        assert(numbered_parent(kept, child) == Some(decimal((p + 1) as nat)));
        assert(report[p].entity_id@ == decimal((p + 1) as nat));
    }
}

} // verus!

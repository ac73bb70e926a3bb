//! Byte-wise lexicographic order of names, as `String`'s `Ord` compares
//! them, a sort by that order, and duplicate detection.
use vstd::prelude::*;
use vstd::multiset::Multiset;
use vstd::utf8::*;

verus! {

broadcast use vstd::string::group_string_axioms;

/// Whether `a` sorts strictly before `b` byte by byte, a proper prefix first.
pub open spec fn lex_lt(a: Seq<u8>, b: Seq<u8>) -> bool
    decreases a.len(),
{
    if a.len() == 0 {
        b.len() > 0
    } else if b.len() == 0 {
        false
    } else if a[0] != b[0] {
        a[0] < b[0]
    } else {
        lex_lt(a.drop_first(), b.drop_first())
    }
}

/// The UTF-8 bytes of a name.
pub open spec fn name_bytes(s: String) -> Seq<u8> {
    encode_utf8(s@)
}

/// Whether `a` sorts no later than `b`.
pub open spec fn name_le(a: String, b: String) -> bool {
    !lex_lt(name_bytes(b), name_bytes(a))
}

/// Whether names are in ascending order.
pub open spec fn names_sorted(v: Seq<String>) -> bool {
    forall|i: int, j: int| 0 <= i < j < v.len() ==> name_le(#[trigger] v[i], #[trigger] v[j])
}

/// Whether two neighbouring names spell the same text.
pub open spec fn has_adjacent_duplicate(v: Seq<String>) -> bool {
    exists|i: int| 0 <= i < v.len() - 1 && (#[trigger] v[i])@ == v[i + 1]@
}

/// Whether all names spell distinct texts.
pub open spec fn names_unique(v: Seq<String>) -> bool {
    forall|i: int, j: int| 0 <= i < j < v.len() ==> (#[trigger] v[i])@ != (#[trigger] v[j])@
}

pub(crate) proof fn lemma_lex_total(a: Seq<u8>, b: Seq<u8>)
    ensures
        a == b || lex_lt(a, b) || lex_lt(b, a),
        !(lex_lt(a, b) && lex_lt(b, a)),
        !lex_lt(a, a),
    decreases a.len(),
{
    if a.len() > 0 && b.len() > 0 {
        lemma_lex_total(a.drop_first(), b.drop_first());
        if a[0] == b[0] && a.drop_first() == b.drop_first() {
            assert forall|k: int| 0 <= k < a.len() implies a[k] == b[k] by {
                if k > 0 {
                    assert(a[k] == a.drop_first()[k - 1]);
                    assert(b[k] == b.drop_first()[k - 1]);
                }
            }
            assert(a =~= b);
        }
    }
    if a.len() > 0 {
        lemma_lex_total(a.drop_first(), a.drop_first());
    }
    if a.len() == 0 && b.len() == 0 {
        assert(a =~= b);
    }
}

pub(crate) proof fn lemma_lex_trans(a: Seq<u8>, b: Seq<u8>, c: Seq<u8>)
    requires
        lex_lt(a, b),
        lex_lt(b, c),
    ensures
        lex_lt(a, c),
    decreases a.len(),
{
    if a.len() > 0 && b.len() > 0 && c.len() > 0 && a[0] == b[0] && b[0] == c[0] {
        lemma_lex_trans(a.drop_first(), b.drop_first(), c.drop_first());
    }
}

/// Byte texts that are equal encode equal strings' texts and back.
proof fn lemma_name_bytes_injective(a: String, b: String)
    ensures
        name_bytes(a) == name_bytes(b) <==> a@ == b@,
{
    if name_bytes(a) == name_bytes(b) {
        encode_utf8_decode_utf8(a@);
        encode_utf8_decode_utf8(b@);
    }
}

/// Compares two byte strings lexicographically.
pub fn bytes_less(a: &[u8], b: &[u8]) -> (r: bool)
    ensures
        r == lex_lt(a@, b@),
{
    let mut i: usize = 0;
    proof {
        assert(a@.skip(0) =~= a@);
        assert(b@.skip(0) =~= b@);
    }
    while i < a.len() && i < b.len()
        invariant
            i <= a@.len(),
            i <= b@.len(),
            lex_lt(a@, b@) == lex_lt(a@.skip(i as int), b@.skip(i as int)),
        decreases a@.len() - i,
    {
        proof {
            assert(a@.skip(i as int)[0] == a@[i as int]);
            assert(b@.skip(i as int)[0] == b@[i as int]);
            assert(a@.skip(i as int).drop_first() =~= a@.skip(i + 1));
            assert(b@.skip(i as int).drop_first() =~= b@.skip(i + 1));
        }
        if a[i] != b[i] {
            return a[i] < b[i];
        }
        i = i + 1;
    }
    proof {
        if i == a@.len() {
            assert(a@.skip(i as int).len() == 0);
        } else {
            assert(b@.skip(i as int).len() == 0);
        }
    }
    i == a.len() && i < b.len()
}

/// Whether name `a` sorts strictly before name `b`.
pub fn name_less(a: &String, b: &String) -> (r: bool)
    ensures
        r == lex_lt(name_bytes(*a), name_bytes(*b)),
{
    bytes_less(a.as_str().as_bytes(), b.as_str().as_bytes())
}

/// Sorts names in ascending byte order, keeping every name.
pub fn sort_names(names: Vec<String>) -> (r: Vec<String>)
    ensures
        names_sorted(r@),
        r@.to_multiset() == names@.to_multiset(),
        r@.len() == names@.len(),
{
    broadcast use vstd::seq_lib::group_to_multiset_ensures;
    broadcast use vstd::multiset::group_multiset_axioms;

    let ghost before = names@;
    let mut remaining = names;
    let mut sorted: Vec<String> = Vec::new();
    while remaining.len() > 0
        invariant
            names_sorted(sorted@),
            sorted@.to_multiset().add(remaining@.to_multiset()) == before.to_multiset(),
            sorted@.len() + remaining@.len() == before.len(),
        decreases remaining@.len(),
    {
        let ghost pending = remaining@;
        let name = remaining.remove(0);
        proof {
            assert(remaining@ == pending.remove(0));
            vstd::seq_lib::to_multiset_remove(pending, 0);
            vstd::seq_lib::to_multiset_contains(pending, name);
        }
        let mut j: usize = 0;
        while j < sorted.len() && !name_less(&name, &sorted[j])
            invariant
                j <= sorted@.len(),
                forall|k: int| 0 <= k < j ==> name_le(#[trigger] sorted@[k], name),
            decreases sorted@.len() - j,
        {
            proof {
                lemma_lex_total(name_bytes(sorted@[j as int]), name_bytes(name));
            }
            j = j + 1;
        }
        let ghost prior = sorted@;
        proof {
            if j < prior.len() {
                assert(lex_lt(name_bytes(name), name_bytes(prior[j as int])));
                assert forall|k: int| j <= k < prior.len() implies name_le(name, #[trigger] prior[k]) by {
                    if k > j {
                        assert(name_le(prior[j as int], prior[k]));
                        lemma_lex_total(name_bytes(prior[k]), name_bytes(prior[j as int]));
                        if lex_lt(name_bytes(prior[k]), name_bytes(name)) {
                            if name_bytes(prior[k]) == name_bytes(prior[j as int]) {
                            } else {
                                lemma_lex_trans(
                                    name_bytes(prior[j as int]),
                                    name_bytes(prior[k]),
                                    name_bytes(name),
                                );
                            }
                            lemma_lex_trans(
                                name_bytes(name),
                                name_bytes(prior[j as int]),
                                name_bytes(name),
                            );
                            lemma_lex_total(name_bytes(name), name_bytes(name));
                        }
                    } else {
                        lemma_lex_total(name_bytes(name), name_bytes(prior[k]));
                    }
                }
            }
        }
        sorted.insert(j, name);
        proof {
            vstd::seq_lib::to_multiset_insert(prior, j as int, name);
            let now = sorted@;
            assert(now == prior.insert(j as int, name));
            assert forall|a: int, b: int| 0 <= a < b < now.len() implies name_le(
                #[trigger] now[a],
                #[trigger] now[b],
            ) by {
                if a < j && b < j {
                    assert(now[a] == prior[a] && now[b] == prior[b]);
                } else if a < j && b == j {
                } else if a < j && b > j {
                    assert(now[a] == prior[a] && now[b] == prior[b - 1]);
                    assert(name_le(prior[a], name));
                    assert(name_le(name, prior[b - 1]));
                    lemma_le_trans(prior[a], name, prior[b - 1]);
                } else if a == j {
                    assert(now[b] == prior[b - 1]);
                } else {
                    assert(now[a] == prior[a - 1] && now[b] == prior[b - 1]);
                }
            }
            assert(sorted@.to_multiset().add(remaining@.to_multiset()) =~= before.to_multiset());
        }
    }
    proof {
        assert(remaining@.to_multiset() =~= Multiset::empty());
        assert(sorted@.to_multiset() =~= before.to_multiset());
    }
    sorted
}

proof fn lemma_le_trans(a: String, b: String, c: String)
    requires
        name_le(a, b),
        name_le(b, c),
    ensures
        name_le(a, c),
{
    let (x, y, z) = (name_bytes(a), name_bytes(b), name_bytes(c));
    lemma_lex_total(x, y);
    lemma_lex_total(y, z);
    lemma_lex_total(x, z);
    if lex_lt(z, x) {
        if x == y {
        } else if y == z {
        } else {
            lemma_lex_trans(x, y, z);
        }
    }
}

/// Whether any two neighbouring names spell the same text.
pub fn adjacent_duplicate(names: &Vec<String>) -> (r: bool)
    ensures
        r == has_adjacent_duplicate(names@),
{
    if names.len() < 2 {
        return false;
    }
    let mut i: usize = 0;
    while i < names.len() - 1
        invariant
            names@.len() >= 2,
            forall|k: int| 0 <= k < i ==> (#[trigger] names@[k])@ != names@[k + 1]@,
        decreases names@.len() - i,
    {
        if crate::text::str_eq(names[i].as_str(), names[i + 1].as_str()) {
            return true;
        }
        i = i + 1;
    }
    false
}

/// In a sorted sequence, distinct neighbours mean all names are distinct.
pub proof fn sorted_names_unique_iff_no_adjacent_duplicate(v: Seq<String>)
    requires
        names_sorted(v),
    ensures
        names_unique(v) <==> !has_adjacent_duplicate(v),
{
    if !has_adjacent_duplicate(v) {
        assert forall|i: int, j: int| 0 <= i < j < v.len() implies (#[trigger] v[i])@ != (
        #[trigger] v[j])@ by {
            if v[i]@ == v[j]@ {
                lemma_name_bytes_injective(v[i], v[j]);
                lemma_name_bytes_injective(v[i], v[i + 1]);
                assert(name_le(v[i], v[i + 1]));
                assert(name_le(v[i + 1], v[j]));
                lemma_lex_total(name_bytes(v[i]), name_bytes(v[i + 1]));
                lemma_lex_total(name_bytes(v[i + 1]), name_bytes(v[j]));
                assert(v[i]@ == v[i + 1]@);
            }
        }
    }
}

} // verus!

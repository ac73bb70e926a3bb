//! How a discovery session keeps the entities its replies report: within
//! the session's result cap, each query's entity cap, and the query's and
//! session's metadata budgets; a repeat of a kept entity is merged into it,
//! and an entity that no longer fits its budget is marked truncated.
use vstd::prelude::*;

use crate::discovery::{
    address_bytes, address_fits, admit_new_row, bounded_addresses, bounded_row, bounds_applied,
    discovery_row_metadata_bytes, field_bytes, field_fits, field_len, kept_addresses, kept_fields,
    limit_usize, new_row_fits, row_bytes, DiscoveryCounters, NativeDiscoveryMetadataField,
    NativeDiscoveryRow, MAX_METADATA_BYTES_PER_ROW, MAX_METADATA_FIELDS_PER_ROW,
};
use crate::discovery_order::{compare_bytes, Precedence};
use crate::discovery_rows::{mark_truncated, merge_rows, merges_into};
use crate::scan_error::{scan_failure, ScanFailure, ScannerError, ScannerErrorView};
use crate::text::{decimal, decimal_string, str_eq};

verus! {

broadcast use vstd::string::group_string_axioms;

/// Whether two entities are the same entity: same operation, interface,
/// responder, responder port and identity.
pub open spec fn same_entity(a: NativeDiscoveryRow, b: NativeDiscoveryRow) -> bool {
    &&& a.operation_id == b.operation_id
    &&& a.interface_index == b.interface_index
    &&& a.responder@ == b.responder@
    &&& a.responder_port == b.responder_port
    &&& a.identity@ == b.identity@
}

/// Whether an entity's address and field bytes can be counted in a `usize`.
pub open spec fn sizes_fit(row: NativeDiscoveryRow) -> bool {
    address_bytes(row.addresses@) <= usize::MAX && field_bytes(row.metadata@) <= usize::MAX
}

/// Whether kept entities are distinct and countable.
pub open spec fn rows_kept_wf(rows: Seq<NativeDiscoveryRow>) -> bool {
    &&& forall|i: int, j: int| 0 <= i < j < rows.len() ==> !same_entity(#[trigger] rows[i], #[trigger] rows[j])
    &&& forall|i: int| 0 <= i < rows.len() ==> sizes_fit(#[trigger] rows[i])
}

/// A counter after one more event, saturating.
pub open spec fn bumped(value: u64) -> u64 {
    if value == u64::MAX {
        value
    } else {
        (value + 1) as u64
    }
}

/// The failure of a merge that broke an entity's bounds.
pub open spec fn merge_failure() -> ScannerErrorView {
    scan_failure(ScanFailure::Internal, "aggregate discovery entity"@, "an accepted identity became invalid"@)
}

/// What one query has kept so far, and may keep.
pub struct QueryBudget {
    pub retained_entities: usize,
    pub retained_metadata_bytes: usize,
    pub maximum_entities: usize,
    pub maximum_metadata_bytes: u64,
}

/// What a session has kept so far.
pub struct Harvest {
    pub rows: Vec<NativeDiscoveryRow>,
    pub retained_metadata_bytes: usize,
}

/// An entity marked truncated by policy, otherwise unchanged.
pub open spec fn marked(before: NativeDiscoveryRow, after: NativeDiscoveryRow) -> bool {
    &&& after.truncated
    &&& after.outcome@ == "truncatedByPolicy"@
    &&& after == (NativeDiscoveryRow { truncated: true, outcome: after.outcome, ..before })
}

/// Whether a merged entity's added metadata overflows the query's budget.
pub open spec fn query_overflows(query: QueryBudget, additional: int) -> bool {
    query.retained_metadata_bytes + additional > usize::MAX || query.retained_metadata_bytes + additional
        > limit_usize(query.maximum_metadata_bytes)
}

/// Whether a merged entity's added metadata fits the session's budget.
pub open spec fn session_fits(retained: usize, additional: int, maximum: usize) -> bool {
    retained + additional <= usize::MAX && retained + additional <= maximum
}

/// The difference of two byte counts, floored at zero.
pub open spec fn growth(after: int, before: int) -> int {
    if after > before {
        after - before
    } else {
        0
    }
}

/// Whether `after` (with query budget `q2` and counters `c2`) is what a
/// session keeps once it takes in `row` from a query with budget `q`,
/// given that the session kept `before` with counters `c`, under the
/// session's result cap and metadata budget; `r` is the step's outcome.
pub open spec fn takes_row(
    before: Harvest,
    q: QueryBudget,
    c: DiscoveryCounters,
    row: NativeDiscoveryRow,
    max_results: usize,
    max_metadata_bytes: usize,
    after: Harvest,
    q2: QueryBudget,
    c2: DiscoveryCounters,
    r: Result<(), ScannerError>,
) -> bool {
    let rows = before.rows@;
    let refused = after.rows@ == rows && after.retained_metadata_bytes == before.retained_metadata_bytes
        && q2 == q && c2 == (DiscoveryCounters { truncated: bumped(c.truncated), ..c }) && r is Ok;
    if rows.len() >= max_results {
        refused
    } else if exists|i: int| 0 <= i < rows.len() && same_entity(#[trigger] rows[i], row) {
        let i = choose|i: int| 0 <= i < rows.len() && same_entity(#[trigger] rows[i], row);
        let existing = rows[i];
        exists|merged: NativeDiscoveryRow, bounded: Result<NativeDiscoveryRow, ()>|
            {
                &&& merges_into(existing, row, merged)
                &&& bounds_applied(merged, bounded)
                &&& match bounded {
                    Err(_) => r matches Err(e) && e@ == merge_failure(),
                    Ok(b) => {
                        let additional = growth(row_bytes(b), row_bytes(existing));
                        let counted = DiscoveryCounters { duplicate: bumped(c.duplicate), ..c };
                        &&& r is Ok
                        &&& after.rows@.len() == rows.len()
                        &&& forall|k: int| 0 <= k < rows.len() && k != i ==> after.rows@[k] == rows[k]
                        &&& if query_overflows(q, additional) || !session_fits(
                            before.retained_metadata_bytes,
                            additional,
                            max_metadata_bytes,
                        ) {
                            &&& marked(existing, after.rows@[i])
                            &&& after.retained_metadata_bytes == before.retained_metadata_bytes
                            &&& q2 == q
                            &&& c2 == (DiscoveryCounters { truncated: bumped(c.truncated), ..counted })
                        } else {
                            &&& after.rows@[i] == b
                            &&& after.retained_metadata_bytes == before.retained_metadata_bytes + additional
                            &&& q2 == (QueryBudget {
                                retained_metadata_bytes: (q.retained_metadata_bytes + additional) as usize,
                                ..q
                            })
                            &&& c2 == if b.truncated && !existing.truncated {
                                DiscoveryCounters { truncated: bumped(c.truncated), ..counted }
                            } else {
                                counted
                            }
                        }
                    },
                }
            }
    } else if q.retained_entities >= q.maximum_entities {
        refused
    } else {
        let bytes = row_bytes(row);
        if !new_row_fits(
            q.retained_metadata_bytes,
            bytes as usize,
            q.maximum_metadata_bytes,
            before.retained_metadata_bytes,
            max_metadata_bytes,
        ) {
            refused
        } else {
            let accepted = DiscoveryCounters { accepted: bumped(c.accepted), ..c };
            &&& r is Ok
            &&& after.rows@.len() == rows.len() + 1
            &&& after.rows@.take(rows.len() as int) == rows
            &&& after.rows@.last() == (NativeDiscoveryRow { entity_id: after.rows@.last().entity_id, ..row })
            &&& after.rows@.last().entity_id@ == decimal((rows.len() + 1) as nat)
            &&& after.retained_metadata_bytes == before.retained_metadata_bytes + bytes
            &&& q2 == (QueryBudget {
                retained_entities: (q.retained_entities + 1) as usize,
                retained_metadata_bytes: (q.retained_metadata_bytes + bytes) as usize,
                ..q
            })
            &&& c2 == if row.truncated {
                DiscoveryCounters { truncated: bumped(c.truncated), ..accepted }
            } else {
                accepted
            }
        }
    }
}

proof fn lemma_kept_addresses_fit(addresses: Seq<String>)
    ensures
        forall|k: int| 0 <= k < kept_addresses(addresses).len() ==> address_fits(#[trigger] kept_addresses(addresses)[k]),
    decreases addresses.len(),
{
    if addresses.len() > 0 {
        lemma_kept_addresses_fit(addresses.drop_first());
        let head = if address_fits(addresses[0]) {
            seq![addresses[0]]
        } else {
            Seq::empty()
        };
        assert forall|k: int| 0 <= k < kept_addresses(addresses).len() implies address_fits(
            #[trigger] kept_addresses(addresses)[k],
        ) by {
            if k < head.len() {
                assert(kept_addresses(addresses)[k] == addresses[0]);
            } else {
                assert(kept_addresses(addresses)[k] == kept_addresses(addresses.drop_first())[k - head.len()]);
            }
        }
    }
}

proof fn lemma_fitting_address_bytes(addresses: Seq<String>)
    requires
        forall|k: int| 0 <= k < addresses.len() ==> address_fits(#[trigger] addresses[k]),
    ensures
        0 <= address_bytes(addresses) <= 128 * addresses.len(),
    decreases addresses.len(),
{
    if addresses.len() > 0 {
        lemma_fitting_address_bytes(addresses.drop_last());
        assert(address_fits(addresses[addresses.len() - 1]));
    }
}

proof fn lemma_field_bytes_prepend(f: NativeDiscoveryMetadataField, rest: Seq<NativeDiscoveryMetadataField>)
    ensures
        field_bytes(seq![f] + rest) == field_len(f) + field_bytes(rest),
    decreases rest.len(),
{
    if rest.len() > 0 {
        lemma_field_bytes_prepend(f, rest.drop_last());
        assert((seq![f] + rest).drop_last() =~= seq![f] + rest.drop_last());
        assert((seq![f] + rest).last() == rest.last());
        assert(field_bytes(seq![f] + rest) == field_bytes(seq![f] + rest.drop_last()) + field_len(rest.last()));
        assert(field_bytes(rest) == field_bytes(rest.drop_last()) + field_len(rest.last()));
    } else {
        assert(seq![f] + rest =~= seq![f]);
        assert(seq![f].drop_last() =~= Seq::<NativeDiscoveryMetadataField>::empty());
        assert(field_bytes(seq![f]) == field_bytes(seq![f].drop_last()) + field_len(f));
    }
}

proof fn lemma_field_len_nonnegative(f: NativeDiscoveryMetadataField)
    ensures
        field_len(f) >= 0,
{
}

proof fn lemma_kept_field_bytes(fields: Seq<NativeDiscoveryMetadataField>, used: int)
    requires
        0 <= used <= MAX_METADATA_BYTES_PER_ROW,
    ensures
        0 <= field_bytes(kept_fields(fields, used).0) <= MAX_METADATA_BYTES_PER_ROW - used,
    decreases fields.len(),
{
    if fields.len() > 0 {
        let f = fields[0];
        lemma_field_len_nonnegative(f);
        if !field_fits(f) || used + field_len(f) > MAX_METADATA_BYTES_PER_ROW {
            lemma_kept_field_bytes(fields.drop_first(), used);
        } else {
            lemma_kept_field_bytes(fields.drop_first(), used + field_len(f));
            lemma_field_bytes_prepend(f, kept_fields(fields.drop_first(), used + field_len(f)).0);
        }
    } else {
        assert(kept_fields(fields, used).0 =~= Seq::<NativeDiscoveryMetadataField>::empty());
    }
}

/// A bounded entity's sizes can be counted.
proof fn lemma_bounded_sizes_fit(row: NativeDiscoveryRow, bounded: NativeDiscoveryRow)
    requires
        bounds_applied(row, Ok(bounded)),
    ensures
        sizes_fit(bounded),
{
    let kept = kept_addresses(row.addresses@);
    lemma_kept_addresses_fit(row.addresses@);
    let b = bounded_addresses(row.addresses@);
    assert forall|k: int| 0 <= k < b.len() implies address_fits(#[trigger] b[k]) by {
        assert(b[k] == kept[k]);
    }
    lemma_fitting_address_bytes(b);
    let considered = if row.metadata@.len() > MAX_METADATA_FIELDS_PER_ROW {
        row.metadata@.take(MAX_METADATA_FIELDS_PER_ROW as int)
    } else {
        row.metadata@
    };
    lemma_kept_field_bytes(considered, 0);
}

fn same_entity_exec(a: &NativeDiscoveryRow, b: &NativeDiscoveryRow) -> (r: bool)
    ensures
        r == same_entity(*a, *b),
{
    if a.operation_id != b.operation_id || a.responder_port != b.responder_port {
        return false;
    }
    let same_index = match (a.interface_index, b.interface_index) {
        (Some(x), Some(y)) => x == y,
        (None, None) => true,
        _ => false,
    };
    same_index && str_eq(a.responder.as_str(), b.responder.as_str()) && compare_bytes(
        a.identity.as_slice(),
        b.identity.as_slice(),
    ) == Precedence::Same
}

fn find_entity(rows: &Vec<NativeDiscoveryRow>, row: &NativeDiscoveryRow) -> (r: Option<usize>)
    ensures
        match r {
            Some(i) => i < rows@.len() && same_entity(rows@[i as int], *row),
            None => forall|k: int| 0 <= k < rows@.len() ==> !same_entity(#[trigger] rows@[k], *row),
        },
{
    let mut i: usize = 0;
    while i < rows.len()
        invariant
            i <= rows@.len(),
            forall|k: int| 0 <= k < i ==> !same_entity(#[trigger] rows@[k], *row),
        decreases rows@.len() - i,
    {
        if same_entity_exec(&rows[i], row) {
            return Some(i);
        }
        i = i + 1;
    }
    None
}

fn bump(value: u64) -> (r: u64)
    ensures
        r == bumped(value),
{
    value.saturating_add(1)
}

impl Harvest {
    /// Takes in one entity a query's reply reports (see [`takes_row`]).
    pub fn take(
        &mut self,
        query: &mut QueryBudget,
        counters: &mut DiscoveryCounters,
        row: NativeDiscoveryRow,
        max_results: usize,
        max_metadata_bytes: usize,
    ) -> (r: Result<(), ScannerError>)
        requires
            rows_kept_wf(old(self).rows@),
            sizes_fit(row),
        ensures
            r is Ok ==> rows_kept_wf(final(self).rows@),
            takes_row(
                *old(self),
                *old(query),
                *old(counters),
                row,
                max_results,
                max_metadata_bytes,
                *final(self),
                *final(query),
                *final(counters),
                r,
            ),
    {
        let ghost before = *self;
        let ghost q = *query;
        let ghost c = *counters;
        if self.rows.len() >= max_results {
            counters.truncated = bump(counters.truncated);
            return Ok(());
        }
        match find_entity(&self.rows, &row) {
            Some(i) => {
                proof {
                    let j = choose|j: int| 0 <= j < before.rows@.len() && same_entity(#[trigger] before.rows@[j], row);
                    if j != i {
                        if j < i {
                            assert(!same_entity(before.rows@[j], before.rows@[i as int]));
                        } else {
                            assert(!same_entity(before.rows@[i as int], before.rows@[j]));
                        }
                    }
                }
                counters.duplicate = bump(counters.duplicate);
                let before_bytes = discovery_row_metadata_bytes(&self.rows[i]);
                let merged = merge_rows(&self.rows[i], row);
                let ghost merged_view = merged;
                let bounded = bounded_row(merged);
                let ghost bounded_view = bounded;
                let merged = match bounded {
                    Ok(m) => m,
                    Err(_) => {
                        return Err(
                            ScannerError::internal(
                                "aggregate discovery entity",
                                "an accepted identity became invalid",
                            ),
                        );
                    },
                };
                proof {
                    lemma_bounded_sizes_fit(merged_view, merged);
                }
                let after_bytes = discovery_row_metadata_bytes(&merged);
                let additional = after_bytes.saturating_sub(before_bytes);
                let query_over = match query.retained_metadata_bytes.checked_add(additional) {
                    Some(total) => (total as u64) > query.maximum_metadata_bytes,
                    None => true,
                };
                let session_ok = match self.retained_metadata_bytes.checked_add(additional) {
                    Some(total) => total <= max_metadata_bytes,
                    None => false,
                };
                let ghost existing = before.rows@[i as int];
                if query_over || !session_ok {
                    let mut kept = self.rows.remove(i);
                    mark_truncated(&mut kept);
                    self.rows.insert(i, kept);
                    counters.truncated = bump(counters.truncated);
                    proof {
                        assert(self.rows@ =~= before.rows@.update(i as int, kept));
                        assert(query_overflows(q, additional as int) || !session_fits(
                            before.retained_metadata_bytes,
                            additional as int,
                            max_metadata_bytes,
                        ));
                        assert forall|a: int, b: int| 0 <= a < b < self.rows@.len() implies !same_entity(
                            #[trigger] self.rows@[a],
                            #[trigger] self.rows@[b],
                        ) by {
                            assert(same_entity(self.rows@[i as int], before.rows@[i as int]));
                        }
                        assert(sizes_fit(self.rows@[i as int]));
                    }
                } else {
                    query.retained_metadata_bytes = query.retained_metadata_bytes + additional;
                    let newly_truncated = merged.truncated && !self.rows[i].truncated;
                    if newly_truncated {
                        counters.truncated = bump(counters.truncated);
                    }
                    self.retained_metadata_bytes = self.retained_metadata_bytes + additional;
                    self.rows.set(i, merged);
                    proof {
                        assert(!query_overflows(q, additional as int));
                        assert forall|a: int, b: int| 0 <= a < b < self.rows@.len() implies !same_entity(
                            #[trigger] self.rows@[a],
                            #[trigger] self.rows@[b],
                        ) by {
                            assert(same_entity(self.rows@[i as int], before.rows@[i as int]));
                        }
                    }
                }
                proof {
                    assert(merges_into(existing, row, merged_view));
                    assert(bounds_applied(merged_view, bounded_view));
                }
                Ok(())
            },
            None => {
                if query.retained_entities >= query.maximum_entities {
                    counters.truncated = bump(counters.truncated);
                    return Ok(());
                }
                let bytes = discovery_row_metadata_bytes(&row);
                if !admit_new_row(
                    query.retained_metadata_bytes,
                    bytes,
                    query.maximum_metadata_bytes,
                    self.retained_metadata_bytes,
                    max_metadata_bytes,
                ) {
                    counters.truncated = bump(counters.truncated);
                    return Ok(());
                }
                self.retained_metadata_bytes = self.retained_metadata_bytes + bytes;
                query.retained_metadata_bytes = query.retained_metadata_bytes + bytes;
                query.retained_entities = query.retained_entities + 1;
                let mut row = row;
                let number = self.rows.len() + 1;
                row.entity_id = decimal_string(number as u64);
                counters.accepted = bump(counters.accepted);
                if row.truncated {
                    counters.truncated = bump(counters.truncated);
                }
                let ghost prior = self.rows@;
                self.rows.push(row);
                proof {
                    assert(self.rows@.take(prior.len() as int) =~= prior);
                    assert forall|a: int, b: int| 0 <= a < b < self.rows@.len() implies !same_entity(
                        #[trigger] self.rows@[a],
                        #[trigger] self.rows@[b],
                    ) by {
                        if b == prior.len() {
                            assert(same_entity(self.rows@[b], row));
                            assert(!same_entity(prior[a], row));
                        }
                    }
                }
                Ok(())
            },
        }
    }
}

} // verus!

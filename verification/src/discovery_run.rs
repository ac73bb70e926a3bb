//! The close of a discovery session: what it kept becomes its report, and
//! its control records how it ended. Together with [`crate::harvest`] this
//! states what a session's report is: distinct entities within the result
//! cap, in strictly ascending report order, numbered from one, each with
//! its addresses and metadata in order and each once, and the state that
//! tells a cancelled session from a completed one.
use vstd::prelude::*;

use crate::discovery::{
    reports, DiscoveryControl, DiscoveryCounters, DiscoveryState, NativeDiscoveryProgress,
    NativeDiscoveryRow,
};
use crate::discovery_order::{
    counted_drops, fields_ascending, finalize_rows, lists_normalized, retained_rows, rows_ascending,
    rows_distinct, rows_numbered, rows_sorted, texts_ascending,
};
use crate::discovery_rows::{address_views, field_views};
use crate::discovery_schedule::finished_state;
use crate::harvest::{rows_kept_wf, same_entity, takes_row, Harvest, QueryBudget};
use crate::scan_error::ScannerError;
use crate::text::{decimal, owned};

verus! {

/// A finished discovery session's report.
pub struct DiscoveryOutcome {
    /// `cancelled` or `completed`.
    pub state: String,
    pub rows: Vec<NativeDiscoveryRow>,
    pub progress: NativeDiscoveryProgress,
}

/// A session never keeps more entities than its result cap: taking in an
/// entity adds a row only below the cap.
pub proof fn harvest_stays_within_result_cap(
    before: Harvest,
    q: QueryBudget,
    c: DiscoveryCounters,
    row: NativeDiscoveryRow,
    max_results: usize,
    max_metadata_bytes: usize,
    after: Harvest,
    q2: QueryBudget,
    c2: DiscoveryCounters,
    r: Result<(), ScannerError>,
)
    requires
        before.rows@.len() <= max_results,
        takes_row(before, q, c, row, max_results, max_metadata_bytes, after, q2, c2, r),
        r is Ok,
    ensures
        after.rows@.len() <= max_results,
{
}

/// Kept entities are distinct entities.
pub proof fn kept_rows_are_distinct(rows: Seq<NativeDiscoveryRow>)
    requires
        rows_kept_wf(rows),
    ensures
        rows_distinct(rows),
{
    assert forall|i: int, j: int| 0 <= i < j < rows.len() implies !same_entity(
        #[trigger] rows[i],
        #[trigger] rows[j],
    ) by {
        assert(!same_entity(rows[i], rows[j]));
    }
}

/// Closes a discovery session. The entities it kept are put in report form
/// (see [`finalize_rows`]): since they are distinct, the report is strictly
/// ascending, numbered from one and within the result cap. The report's
/// state is `cancelled` when the session was cancelling, else `completed`;
/// the control publishes the final counters and becomes completed.
pub fn finish_discovery(
    harvest: Harvest,
    counters: &mut DiscoveryCounters,
    control: &mut DiscoveryControl,
    max_results: usize,
) -> (r: DiscoveryOutcome)
    requires
        rows_kept_wf(harvest.rows@),
        harvest.rows@.len() <= max_results,
        harvest.rows@.len() < u64::MAX,
    ensures
        rows_ascending(r.rows@),
        forall|i: int| 0 <= i < r.rows@.len() ==> (#[trigger] r.rows@[i]).entity_id@ == decimal(
            (i + 1) as nat,
        ),
        r.rows@.len() <= max_results,
        forall|i: int|
            0 <= i < r.rows@.len() ==> texts_ascending(address_views((#[trigger] r.rows@[i]).addresses@))
                && fields_ascending(field_views(r.rows@[i].metadata@)),
        exists|normalized: Seq<NativeDiscoveryRow>, sorted: Seq<NativeDiscoveryRow>|
            {
                &&& normalized.len() == harvest.rows@.len()
                &&& forall|i: int|
                    0 <= i < harvest.rows@.len() ==> lists_normalized(
                        harvest.rows@[i],
                        #[trigger] normalized[i],
                    )
                &&& rows_sorted(sorted)
                &&& sorted.to_multiset() == normalized.to_multiset()
                &&& rows_numbered(retained_rows(sorted, sorted), r.rows@)
            },
        *final(counters) == counted_drops(
            *old(counters),
            (harvest.rows@.len() - r.rows@.len()) as nat,
        ),
        r.state@ == (if old(control)@.state == DiscoveryState::Cancelling {
            "cancelled"@
        } else {
            "completed"@
        }),
        final(control)@.state == DiscoveryState::Completed,
        final(control)@.progress == *final(counters),
        reports(r.progress, *final(counters)),
{
    proof {
        kept_rows_are_distinct(harvest.rows@);
    }
    let total = harvest.rows.len();
    let rows = finalize_rows(harvest.rows, counters);
    proof {
        let (normalized, sorted) = choose|normalized: Seq<NativeDiscoveryRow>, sorted: Seq<NativeDiscoveryRow>|
            {
                &&& normalized.len() == harvest.rows@.len()
                &&& forall|i: int|
                    0 <= i < harvest.rows@.len() ==> lists_normalized(
                        harvest.rows@[i],
                        #[trigger] normalized[i],
                    )
                &&& rows_sorted(sorted)
                &&& sorted.to_multiset() == normalized.to_multiset()
                &&& rows_numbered(retained_rows(sorted, sorted), rows@)
                &&& (rows_distinct(harvest.rows@) ==> rows_ascending(rows@))
                &&& forall|i: int|
                    0 <= i < rows@.len() ==> texts_ascending(address_views((#[trigger] rows@[i]).addresses@))
                        && fields_ascending(field_views(rows@[i].metadata@))
                &&& *counters == counted_drops(
                    *old(counters),
                    (sorted.len() - retained_rows(sorted, sorted).len()) as nat,
                )
            };
        vstd::seq_lib::to_multiset_len(sorted);
        vstd::seq_lib::to_multiset_len(normalized);
        assert(rows@.len() == retained_rows(sorted, sorted).len());
        assert(rows@.len() <= total) by {
            crate::discovery_order::lemma_retained_rows_len(sorted, sorted);
        }
    }
    let cancelled = control.cancelling();
    control.publish(counters);
    control.complete();
    let state = owned(finished_state(cancelled));
    DiscoveryOutcome { state, rows, progress: control.progress() }
}

} // verus!

//! The per-query decisions of a discovery session's send and receive loop:
//! when a query's response window closes and its budget lease is settled,
//! when queued adaptive queries are cut off at the physical query limit,
//! when a query may send, what a send does to the query and the counters,
//! when the session goes on, what unsent work it reports, and the state it
//! ends in. Sockets, clocks, leases of the session budget and the pacer's
//! clock stay with the caller, which turns instants into milliseconds.
use vstd::prelude::*;

use crate::discovery::{DiscoveryCounters, MAX_NATIVE_DISCOVERY_QUERIES};

verus! {

/// What an outbound datagram of a query is.
#[derive(Clone, Copy, Debug, PartialEq, Eq, Structural)]
pub enum OutboundKind {
    /// The query's first request.
    InitialQuery,
    /// A follow-up query a response asked for.
    AdaptiveQuery,
    /// The terminal message that releases server-side transfer state.
    Cleanup,
}

/// The scheduling state of one query.
#[derive(Clone, Copy, Debug, PartialEq, Eq, Structural)]
pub struct QuerySchedule {
    /// When the query's response window closes, while it is open.
    pub response_deadline_ms: Option<u64>,
    /// The datagram waiting to be sent, if any.
    pub pending: Option<OutboundKind>,
    /// Whether the query's lease of the session budget was settled.
    pub settled: bool,
    /// Whether the query holds a lease of the session budget.
    pub leased: bool,
}

/// What one pass decides for a query before sending.
#[derive(Clone, Copy, Debug, PartialEq, Eq, Structural)]
pub struct QueryPass {
    /// The query's lease is to be settled with what it retained.
    pub settle_lease: bool,
    /// The query may send its pending datagram now.
    pub send_allowed: bool,
    /// The query should ask the session budget for a lease first.
    pub request_lease: bool,
}

/// Whether a query's response window has closed with nothing left to send
/// and its lease not yet settled.
pub open spec fn window_closed(q: QuerySchedule, now_ms: u64) -> bool {
    &&& q.response_deadline_ms matches Some(d) && now_ms >= d
    &&& q.pending is None
    &&& !q.settled
}

/// Whether a queued adaptive query is cut off because the session reached
/// its physical query limit.
pub open spec fn adaptive_cut_off(q: QuerySchedule, queries: u64) -> bool {
    q.pending == Some(OutboundKind::AdaptiveQuery) && queries >= MAX_NATIVE_DISCOVERY_QUERIES
}

/// One pass over a query before sending: the decision, the query after it
/// and the counters after it.
pub open spec fn query_pass(
    q: QuerySchedule,
    now_ms: u64,
    running: bool,
    c: DiscoveryCounters,
) -> (QueryPass, QuerySchedule, DiscoveryCounters) {
    let settle = window_closed(q, now_ms);
    let cut = adaptive_cut_off(q, c.queries);
    let after = QuerySchedule {
        response_deadline_ms: if settle {
            None
        } else {
            q.response_deadline_ms
        },
        pending: if cut {
            None
        } else {
            q.pending
        },
        settled: q.settled || settle,
        leased: q.leased,
    };
    let counters = DiscoveryCounters {
        truncated: if cut {
            (c.truncated + 1) as u64
        } else {
            c.truncated
        },
        ..c
    };
    let send = after.pending matches Some(kind) && (kind == OutboundKind::Cleanup || running);
    (
        QueryPass {
            settle_lease: settle,
            send_allowed: send,
            request_lease: send && !after.leased && !after.settled,
        },
        after,
        counters,
    )
}

/// Opens one pass over a query: a closed window settles the lease and ends
/// the window; an adaptive query over the session's physical query limit
/// is dropped and counted as truncated; a pending datagram may be sent
/// while the session runs (a cleanup message even when it does not), and
/// a query without a lease that is not settled asks for one first.
pub fn begin_query_pass(
    query: &mut QuerySchedule,
    now_ms: u64,
    running: bool,
    counters: &mut DiscoveryCounters,
) -> (r: QueryPass)
    requires
        old(counters).truncated < u64::MAX,
    ensures
        (r, *final(query), *final(counters)) == query_pass(
            *old(query),
            now_ms,
            running,
            *old(counters),
        ),
{
    let mut settle_lease = false;
    if query.pending.is_none() && !query.settled {
        match query.response_deadline_ms {
            Some(d) => {
                if now_ms >= d {
                    settle_lease = true;
                    query.settled = true;
                    query.response_deadline_ms = None;
                }
            },
            None => {},
        }
    }
    match query.pending {
        Some(OutboundKind::AdaptiveQuery) => {
            if counters.queries >= MAX_NATIVE_DISCOVERY_QUERIES as u64 {
                query.pending = None;
                counters.truncated = counters.truncated + 1;
            }
        },
        _ => {},
    }
    let send_allowed = match query.pending {
        Some(OutboundKind::Cleanup) => true,
        Some(_) => running,
        None => false,
    };
    QueryPass {
        settle_lease,
        send_allowed,
        request_lease: send_allowed && !query.leased && !query.settled,
    }
}

/// The close of a response window opened at `now_ms`: the operation's
/// window later, but never after the session deadline.
pub open spec fn window_close(now_ms: u64, window_ms: u64, session_deadline_ms: u64) -> u64 {
    if now_ms + window_ms > u64::MAX || now_ms + window_ms > session_deadline_ms {
        session_deadline_ms
    } else {
        (now_ms + window_ms) as u64
    }
}

/// A query and the counters after sending its pending datagram of `kind`.
pub open spec fn send_outcome(
    q: QuerySchedule,
    kind: OutboundKind,
    delivered: bool,
    now_ms: u64,
    window_ms: u64,
    session_deadline_ms: u64,
    c: DiscoveryCounters,
) -> (QuerySchedule, DiscoveryCounters) {
    (
        QuerySchedule {
            pending: None,
            response_deadline_ms: if delivered && kind != OutboundKind::Cleanup {
                Some(window_close(now_ms, window_ms, session_deadline_ms))
            } else {
                None
            },
            ..q
        },
        if !delivered {
            DiscoveryCounters { rejected: (c.rejected + 1) as u64, ..c }
        } else if kind == OutboundKind::Cleanup {
            DiscoveryCounters {
                sent: (c.sent + 1) as u64,
                cleanup_sent: (c.cleanup_sent + 1) as u64,
                ..c
            }
        } else if kind == OutboundKind::AdaptiveQuery {
            DiscoveryCounters {
                sent: (c.sent + 1) as u64,
                queries: if c.queries == u64::MAX {
                    u64::MAX
                } else {
                    (c.queries + 1) as u64
                },
                ..c
            }
        } else {
            DiscoveryCounters { sent: (c.sent + 1) as u64, ..c }
        },
    )
}

/// Records what sending a query's pending datagram did. A delivered
/// datagram is counted as sent; a cleanup message is also counted as
/// cleanup and ends the window; a query message opens its response window
/// (an adaptive query is also counted as a query). A refused send is counted
/// as rejected and ends the window. The pending datagram is gone either way.
pub fn record_send(
    query: &mut QuerySchedule,
    kind: OutboundKind,
    delivered: bool,
    now_ms: u64,
    window_ms: u64,
    session_deadline_ms: u64,
    counters: &mut DiscoveryCounters,
)
    requires
        old(counters).sent < u64::MAX,
        old(counters).cleanup_sent < u64::MAX,
        old(counters).rejected < u64::MAX,
    ensures
        (*final(query), *final(counters)) == send_outcome(
            *old(query),
            kind,
            delivered,
            now_ms,
            window_ms,
            session_deadline_ms,
            *old(counters),
        ),
{
    query.pending = None;
    if !delivered {
        counters.rejected = counters.rejected + 1;
        query.response_deadline_ms = None;
        return;
    }
    counters.sent = counters.sent + 1;
    match kind {
        OutboundKind::Cleanup => {
            counters.cleanup_sent = counters.cleanup_sent + 1;
            query.response_deadline_ms = None;
        },
        _ => {
            if kind == OutboundKind::AdaptiveQuery {
                counters.queries = counters.queries.saturating_add(1);
            }
            let close = match now_ms.checked_add(window_ms) {
                Some(t) => if t > session_deadline_ms {
                    session_deadline_ms
                } else {
                    t
                },
                None => session_deadline_ms,
            };
            query.response_deadline_ms = Some(close);
        },
    }
}

/// A query's lease is settled at most once: a pass settles only an
/// unsettled query and leaves it settled, and sending keeps it settled.
pub proof fn lease_settles_once(
    q: QuerySchedule,
    now_ms: u64,
    later_ms: u64,
    running: bool,
    c: DiscoveryCounters,
    kind: OutboundKind,
    delivered: bool,
    window_ms: u64,
    session_deadline_ms: u64,
)
    ensures
        query_pass(q, now_ms, running, c).0.settle_lease ==> !q.settled && query_pass(
            q,
            now_ms,
            running,
            c,
        ).1.settled,
        q.settled ==> query_pass(q, now_ms, running, c).1.settled && !query_pass(
            q,
            now_ms,
            running,
            c,
        ).0.settle_lease,
        send_outcome(q, kind, delivered, now_ms, window_ms, session_deadline_ms, c).0.settled
            == q.settled,
        query_pass(q, now_ms, running, c).0.settle_lease ==> !query_pass(
            query_pass(q, now_ms, running, c).1,
            later_ms,
            running,
            query_pass(q, now_ms, running, c).2,
        ).0.settle_lease,
{
}

/// Adaptive follow-up queries never take a session past its physical query
/// limit: from at most the limit, a pass that still lets an adaptive query
/// go sends it only below the limit, so the count after the send is at
/// most the limit.
pub proof fn adaptive_queries_stay_within_limit(
    q: QuerySchedule,
    now_ms: u64,
    running: bool,
    c: DiscoveryCounters,
    delivered: bool,
    window_ms: u64,
    session_deadline_ms: u64,
)
    requires
        c.queries <= MAX_NATIVE_DISCOVERY_QUERIES,
        query_pass(q, now_ms, running, c).1.pending == Some(OutboundKind::AdaptiveQuery),
    ensures
        c.queries < MAX_NATIVE_DISCOVERY_QUERIES,
        send_outcome(
            query_pass(q, now_ms, running, c).1,
            OutboundKind::AdaptiveQuery,
            delivered,
            now_ms,
            window_ms,
            session_deadline_ms,
            query_pass(q, now_ms, running, c).2,
        ).1.queries <= MAX_NATIVE_DISCOVERY_QUERIES,
{
}

/// Whether a query listens for responses: its window is open.
pub fn listening(query: &QuerySchedule, now_ms: u64) -> (r: bool)
    ensures
        r == (query.response_deadline_ms matches Some(d) && now_ms < d),
{
    match query.response_deadline_ms {
        Some(d) => now_ms < d,
        None => false,
    }
}

/// Whether a query still has work: an open window or a datagram to send.
pub open spec fn has_work(q: QuerySchedule, now_ms: u64) -> bool {
    (q.response_deadline_ms matches Some(d) && now_ms < d) || q.pending is Some
}

/// Whether the session loop goes on: before its deadline, some query has
/// work, and nobody asked it to cancel.
pub fn session_continues(
    queries: &[QuerySchedule],
    now_ms: u64,
    session_deadline_ms: u64,
    cancelling: bool,
) -> (r: bool)
    ensures
        r == (now_ms < session_deadline_ms && (exists|i: int|
            0 <= i < queries@.len() && has_work(#[trigger] queries@[i], now_ms)) && !cancelling),
{
    if now_ms >= session_deadline_ms || cancelling {
        return false;
    }
    let mut i: usize = 0;
    while i < queries.len()
        invariant
            i <= queries@.len(),
            now_ms < session_deadline_ms,
            !cancelling,
            forall|j: int| 0 <= j < i ==> !has_work(#[trigger] queries@[j], now_ms),
        decreases queries@.len() - i,
    {
        if listening(&queries[i], now_ms) || queries[i].pending.is_some() {
            assert(has_work(queries@[i as int], now_ms));
            return true;
        }
        i = i + 1;
    }
    false
}

/// The work a session leaves unsent: each query datagram still pending
/// (cleanup messages are still sent), and each adaptive query still queued.
pub open spec fn unsent_work(queries: Seq<QuerySchedule>, queued: Seq<usize>) -> int
    decreases queries.len(),
{
    if queries.len() == 0 {
        0
    } else {
        let q = queries.last();
        let here: int = if q.pending matches Some(kind) && kind != OutboundKind::Cleanup {
            1
        } else {
            0
        };
        let waiting: int = if queries.len() <= queued.len() {
            queued[queries.len() - 1] as int
        } else {
            0
        };
        unsent_work(queries.drop_last(), queued) + here + waiting
    }
}

/// Counts the work a session leaves unsent into its truncated counter,
/// saturating; `queued` holds, per query, how many adaptive queries wait.
pub fn count_unsent_work(queries: &[QuerySchedule], queued: &[usize], truncated: u64) -> (r: u64)
    requires
        queued@.len() == queries@.len(),
    ensures
        r == (if truncated + unsent_work(queries@, queued@) > u64::MAX {
            u64::MAX as int
        } else {
            truncated + unsent_work(queries@, queued@)
        }),
{
    let mut total: u64 = truncated;
    let mut i: usize = 0;
    while i < queries.len()
        invariant
            i <= queries@.len(),
            queued@.len() == queries@.len(),
            total == (if truncated + unsent_work(queries@.take(i as int), queued@) > u64::MAX {
                u64::MAX as int
            } else {
                truncated + unsent_work(queries@.take(i as int), queued@)
            }),
        decreases queries@.len() - i,
    {
        proof {
            assert(queries@.take(i + 1).drop_last() =~= queries@.take(i as int));
            lemma_unsent_work_grows(queries@.take(i as int), queued@);
        }
        let here: u64 = match queries[i].pending {
            Some(OutboundKind::Cleanup) => 0,
            Some(_) => 1,
            None => 0,
        };
        total = total.saturating_add(here);
        total = total.saturating_add(queued[i] as u64);
        i = i + 1;
    }
    proof {
        assert(queries@.take(queries@.len() as int) =~= queries@);
    }
    total
}

proof fn lemma_unsent_work_grows(queries: Seq<QuerySchedule>, queued: Seq<usize>)
    ensures
        unsent_work(queries, queued) >= 0,
    decreases queries.len(),
{
    if queries.len() > 0 {
        lemma_unsent_work_grows(queries.drop_last(), queued);
    }
}

/// The state a finished discovery session reports.
pub fn finished_state(cancelled: bool) -> (r: &'static str)
    ensures
        r@ == (if cancelled {
            "cancelled"@
        } else {
            "completed"@
        }),
{
    if cancelled {
        "cancelled"
    } else {
        "completed"
    }
}

} // verus!

use nodenet_native::discovery::DiscoveryCounters;
use nodenet_native::discovery_schedule::{
    begin_query_pass, count_unsent_work, finished_state, listening, record_send,
    session_continues, OutboundKind, QuerySchedule,
};

fn fresh(pending: Option<OutboundKind>) -> QuerySchedule {
    QuerySchedule { response_deadline_ms: None, pending, settled: false, leased: false }
}

#[test]
fn closed_window_settles_the_lease_once() {
    let mut counters = DiscoveryCounters::default();
    let mut query = QuerySchedule {
        response_deadline_ms: Some(100),
        pending: None,
        settled: false,
        leased: true,
    };
    let early = begin_query_pass(&mut query, 99, true, &mut counters);
    assert!(!early.settle_lease);
    assert!(listening(&query, 99));
    let pass = begin_query_pass(&mut query, 100, true, &mut counters);
    assert!(pass.settle_lease);
    assert!(query.settled);
    assert_eq!(query.response_deadline_ms, None);
    assert!(!begin_query_pass(&mut query, 200, true, &mut counters).settle_lease);
    assert!(!listening(&query, 100));
}

#[test]
fn adaptive_queries_stop_at_the_physical_query_limit() {
    let mut counters = DiscoveryCounters { queries: 1_024, ..DiscoveryCounters::default() };
    let mut query = fresh(Some(OutboundKind::AdaptiveQuery));
    let pass = begin_query_pass(&mut query, 0, true, &mut counters);
    assert_eq!(query.pending, None);
    assert_eq!(counters.truncated, 1);
    assert!(!pass.send_allowed);

    let mut counters = DiscoveryCounters { queries: 1_023, ..DiscoveryCounters::default() };
    let mut query = fresh(Some(OutboundKind::AdaptiveQuery));
    let pass = begin_query_pass(&mut query, 0, true, &mut counters);
    assert!(pass.send_allowed);
    assert!(pass.request_lease);
    query.leased = true;
    record_send(&mut query, OutboundKind::AdaptiveQuery, true, 10, 500, 10_000, &mut counters);
    assert_eq!(counters.queries, 1_024);
    assert_eq!(counters.sent, 1);
    assert_eq!(query.response_deadline_ms, Some(510));
}

#[test]
fn only_cleanup_is_sent_while_paused() {
    let mut counters = DiscoveryCounters::default();
    let mut query = fresh(Some(OutboundKind::InitialQuery));
    assert!(!begin_query_pass(&mut query, 0, false, &mut counters).send_allowed);
    let mut cleanup = fresh(Some(OutboundKind::Cleanup));
    assert!(begin_query_pass(&mut cleanup, 0, false, &mut counters).send_allowed);
    record_send(&mut cleanup, OutboundKind::Cleanup, true, 0, 500, 10_000, &mut counters);
    assert_eq!((counters.sent, counters.cleanup_sent), (1, 1));
    assert_eq!(cleanup.response_deadline_ms, None);
}

#[test]
fn response_window_never_outlives_the_session_and_refusals_are_rejected() {
    let mut counters = DiscoveryCounters::default();
    let mut query = fresh(Some(OutboundKind::InitialQuery));
    record_send(&mut query, OutboundKind::InitialQuery, true, 9_900, 500, 10_000, &mut counters);
    assert_eq!(query.response_deadline_ms, Some(10_000));
    record_send(&mut query, OutboundKind::InitialQuery, true, u64::MAX - 1, 500, 10_000, &mut counters);
    assert_eq!(query.response_deadline_ms, Some(10_000));

    let mut refused = fresh(Some(OutboundKind::InitialQuery));
    record_send(&mut refused, OutboundKind::InitialQuery, false, 0, 500, 10_000, &mut counters);
    assert_eq!(counters.rejected, 1);
    assert_eq!(refused.pending, None);
    assert_eq!(refused.response_deadline_ms, None);
}

#[test]
fn session_ends_without_work_at_the_deadline_or_on_cancel() {
    let waiting = QuerySchedule {
        response_deadline_ms: Some(50),
        pending: None,
        settled: false,
        leased: true,
    };
    let queries = [fresh(None), waiting];
    assert!(session_continues(&queries, 10, 1_000, false));
    assert!(!session_continues(&queries, 60, 1_000, false));
    assert!(!session_continues(&queries, 10, 1_000, true));
    assert!(!session_continues(&queries, 1_000, 1_000, false));
    assert!(session_continues(&[fresh(Some(OutboundKind::Cleanup))], 500, 1_000, false));
}

#[test]
fn unsent_work_counts_pending_queries_and_queued_adaptive_ones() {
    let queries = [
        fresh(Some(OutboundKind::InitialQuery)),
        fresh(Some(OutboundKind::Cleanup)),
        fresh(None),
    ];
    assert_eq!(count_unsent_work(&queries, &[0, 0, 3], 2), 6);
    assert_eq!(count_unsent_work(&queries, &[0, 0, 3], u64::MAX - 1), u64::MAX);
    assert_eq!(finished_state(true), "cancelled");
    assert_eq!(finished_state(false), "completed");
}

//! The bounded completion queue of a scan session, the session lifecycle
//! names, and the progress report.
use std::collections::VecDeque;
use vstd::prelude::*;

use crate::results::{
    IpAddress, NetworkState, ProbeOutcome, ScanResult, SealedScanResultBatch, TerminalReason,
    seal_result_batch, seals, service_bytes,
};
use crate::discovery::InterfaceAddressEntry;
use crate::scan_error::ScannerError;
use crate::text::{decimal, decimal_string, owned};

verus! {

pub const MAX_QUEUED_RESULTS: usize = 262144;

pub const MAX_SESSION_METADATA_BYTES: usize = 16777216;

pub const MAX_ENVIRONMENT_METADATA_BYTES: usize = 67108864;

pub const MAX_BATCH_SERVICE_METADATA_BYTES: usize = 4194304;

/// The answer to a reservation request.
#[derive(Clone, Copy, Debug, PartialEq, Eq, Structural)]
pub enum SinkReservation {
    Reserved,
    Saturated,
}

/// A refused sink operation, with a code naming the broken rule.
#[derive(Clone, Copy, Debug, PartialEq, Eq, Structural)]
pub struct SinkFailure {
    pub code: u32,
}

/// Per-outcome totals of the results a session committed.
#[derive(Clone, Copy, Debug, PartialEq, Eq, Structural)]
pub struct SummaryCounters {
    pub results: u64,
    pub open: u64,
    pub closed: u64,
    pub filtered: u64,
    pub open_or_filtered: u64,
    pub up: u64,
    pub unreachable: u64,
    pub unknown: u64,
    pub cancelled: u64,
    pub deadline: u64,
    pub discarded: u64,
    pub timed_out: u64,
}

/// All-zero counters.
pub open spec fn zero_counters() -> SummaryCounters {
    SummaryCounters {
        results: 0,
        open: 0,
        closed: 0,
        filtered: 0,
        open_or_filtered: 0,
        up: 0,
        unreachable: 0,
        unknown: 0,
        cancelled: 0,
        deadline: 0,
        discarded: 0,
        timed_out: 0,
    }
}

/// A counter increased by one, saturating.
pub open spec fn bump(value: u64) -> u64 {
    if value == 0xffff_ffff_ffff_ffff {
        value
    } else {
        (value + 1) as u64
    }
}

/// The counters after one more committed result.
pub open spec fn counted(c: SummaryCounters, value: ScanResult) -> SummaryCounters {
    let c = SummaryCounters { results: bump(c.results), ..c };
    let c = if value.terminal_reason == TerminalReason::Timeout {
        SummaryCounters { timed_out: bump(c.timed_out), ..c }
    } else {
        c
    };
    match value.outcome {
        ProbeOutcome::Network(NetworkState::Open) => SummaryCounters { open: bump(c.open), ..c },
        ProbeOutcome::Network(NetworkState::Closed) => SummaryCounters {
            closed: bump(c.closed),
            ..c
        },
        ProbeOutcome::Network(NetworkState::Filtered) => SummaryCounters {
            filtered: bump(c.filtered),
            ..c
        },
        ProbeOutcome::Network(NetworkState::OpenOrFiltered) => SummaryCounters {
            open_or_filtered: bump(c.open_or_filtered),
            ..c
        },
        ProbeOutcome::Network(NetworkState::Up) => SummaryCounters { up: bump(c.up), ..c },
        ProbeOutcome::Network(NetworkState::Unreachable) => SummaryCounters {
            unreachable: bump(c.unreachable),
            ..c
        },
        ProbeOutcome::Network(NetworkState::Unknown) => SummaryCounters {
            unknown: bump(c.unknown),
            ..c
        },
        ProbeOutcome::Network(NetworkState::DownByPolicy) => SummaryCounters {
            unknown: bump(c.unknown),
            ..c
        },
        ProbeOutcome::Cancelled => SummaryCounters { cancelled: bump(c.cancelled), ..c },
        ProbeOutcome::SessionDeadline => SummaryCounters { deadline: bump(c.deadline), ..c },
        ProbeOutcome::TransportFailed => c,
        ProbeOutcome::ContextInvalidated => c,
    }
}

fn increment(value: u64) -> (r: u64)
    ensures
        r == bump(value),
{
    value.saturating_add(1)
}

fn is_timeout(reason: &TerminalReason) -> (r: bool)
    ensures
        r == (*reason == TerminalReason::Timeout),
{
    match reason {
        TerminalReason::Timeout => true,
        _ => false,
    }
}

/// Adds one committed result to the per-outcome totals.
pub fn count_result(counters: &mut SummaryCounters, value: &ScanResult)
    ensures
        *final(counters) == counted(*old(counters), *value),
{
    counters.results = increment(counters.results);
    if is_timeout(&value.terminal_reason) {
        counters.timed_out = increment(counters.timed_out);
    }
    match value.outcome {
        ProbeOutcome::Network(NetworkState::Open) => {
            counters.open = increment(counters.open);
        },
        ProbeOutcome::Network(NetworkState::Closed) => {
            counters.closed = increment(counters.closed);
        },
        ProbeOutcome::Network(NetworkState::Filtered) => {
            counters.filtered = increment(counters.filtered);
        },
        ProbeOutcome::Network(NetworkState::OpenOrFiltered) => {
            counters.open_or_filtered = increment(counters.open_or_filtered);
        },
        ProbeOutcome::Network(NetworkState::Up) => {
            counters.up = increment(counters.up);
        },
        ProbeOutcome::Network(NetworkState::Unreachable) => {
            counters.unreachable = increment(counters.unreachable);
        },
        ProbeOutcome::Network(NetworkState::Unknown) => {
            counters.unknown = increment(counters.unknown);
        },
        ProbeOutcome::Network(NetworkState::DownByPolicy) => {
            counters.unknown = increment(counters.unknown);
        },
        ProbeOutcome::Cancelled => {
            counters.cancelled = increment(counters.cancelled);
        },
        ProbeOutcome::SessionDeadline => {
            counters.deadline = increment(counters.deadline);
        },
        ProbeOutcome::TransportFailed => {},
        ProbeOutcome::ContextInvalidated => {},
    }
}

/// The mathematical state of a [`ResultQueue`].
pub struct ResultQueueView {
    pub capacity: usize,
    pub low_watermark: usize,
    pub reserved: usize,
    pub reserved_metadata_bytes: usize,
    pub queued_metadata_bytes: usize,
    pub schema_version: u32,
    pub backpressured: bool,
    pub application_backpressured: u64,
    pub values: Seq<ScanResult>,
    pub completed_ids: Seq<u64>,
    pub counters: SummaryCounters,
}

/// The bounded queue between a scan engine and its consumer: rows are
/// reserved before they are committed, queued rows plus reservations never
/// exceed the capacity, and once saturated the queue refuses reservations
/// until it drains to half its capacity.
pub struct ResultQueue {
    capacity: usize,
    low_watermark: usize,
    reserved: usize,
    reserved_metadata_bytes: usize,
    queued_metadata_bytes: usize,
    schema_version: u32,
    backpressured: bool,
    application_backpressured: u64,
    values: VecDeque<ScanResult>,
    completed_ids: Vec<u64>,
    counters: SummaryCounters,
}

impl View for ResultQueue {
    type V = ResultQueueView;

    closed spec fn view(&self) -> ResultQueueView {
        ResultQueueView {
            capacity: self.capacity,
            low_watermark: self.low_watermark,
            reserved: self.reserved,
            reserved_metadata_bytes: self.reserved_metadata_bytes,
            queued_metadata_bytes: self.queued_metadata_bytes,
            schema_version: self.schema_version,
            backpressured: self.backpressured,
            application_backpressured: self.application_backpressured,
            values: self.values@,
            completed_ids: self.completed_ids@,
            counters: self.counters,
        }
    }
}

/// The queue's well-formedness: a capacity within the global bound, the low
/// watermark at half of it, occupancy within it, and reserved metadata within
/// the session budget.
pub open spec fn queue_wf(v: ResultQueueView) -> bool {
    &&& 1 <= v.capacity <= MAX_QUEUED_RESULTS
    &&& v.low_watermark == v.capacity / 2
    &&& v.values.len() + v.reserved <= v.capacity
    &&& v.reserved_metadata_bytes <= MAX_SESSION_METADATA_BYTES
}

/// The capacity a queue gets for a number of logical probes.
pub open spec fn queue_capacity(logical_probes: u64) -> usize {
    if logical_probes == 0 {
        1
    } else if logical_probes > MAX_QUEUED_RESULTS {
        MAX_QUEUED_RESULTS
    } else {
        logical_probes as usize
    }
}

/// Rows queued or reserved.
pub open spec fn occupancy(v: ResultQueueView) -> int {
    v.values.len() + v.reserved
}

/// One reservation request: refused while saturated above the low
/// watermark, refused (and counted) at capacity, else granted.
pub open spec fn reserve_step(v: ResultQueueView) -> (ResultQueueView, SinkReservation) {
    if v.backpressured && occupancy(v) > v.low_watermark {
        (v, SinkReservation::Saturated)
    } else if occupancy(v) >= v.capacity {
        (
            ResultQueueView {
                backpressured: true,
                application_backpressured: bump(v.application_backpressured),
                ..v
            },
            SinkReservation::Saturated,
        )
    } else {
        (
            ResultQueueView { backpressured: false, reserved: (v.reserved + 1) as usize, ..v },
            SinkReservation::Reserved,
        )
    }
}

/// One commit: refused without a reservation or at capacity, else the row is
/// queued, its identifier recorded and it is counted.
pub open spec fn commit_step(v: ResultQueueView, result: ScanResult) -> (
    ResultQueueView,
    Result<(), SinkFailure>,
) {
    if v.reserved == 0 || v.values.len() >= v.capacity {
        (v, Err(SinkFailure { code: 1 }))
    } else {
        (
            ResultQueueView {
                reserved: (v.reserved - 1) as usize,
                completed_ids: v.completed_ids.push(result.logical_id),
                counters: counted(v.counters, result),
                values: v.values.push(result),
                ..v
            },
            Ok(()),
        )
    }
}

/// One reservation of a row and of metadata bytes against the session and
/// environment budgets.
pub open spec fn reserve_bytes_step(v: ResultQueueView, environment: usize, maximum: usize) -> (
    ResultQueueView,
    usize,
    SinkReservation,
) {
    let (v1, row) = reserve_step(v);
    if row == SinkReservation::Saturated {
        (v1, environment, row)
    } else if v1.reserved_metadata_bytes + maximum > usize::MAX {
        (
            ResultQueueView { reserved: (v1.reserved - 1) as usize, ..v1 },
            environment,
            SinkReservation::Saturated,
        )
    } else if v1.reserved_metadata_bytes + maximum > MAX_SESSION_METADATA_BYTES || environment
        + maximum > MAX_ENVIRONMENT_METADATA_BYTES {
        (
            ResultQueueView {
                reserved: (v1.reserved - 1) as usize,
                backpressured: true,
                application_backpressured: bump(v1.application_backpressured),
                ..v1
            },
            environment,
            SinkReservation::Saturated,
        )
    } else {
        (
            ResultQueueView {
                reserved_metadata_bytes: (v1.reserved_metadata_bytes + maximum) as usize,
                ..v1
            },
            (environment + maximum) as usize,
            SinkReservation::Reserved,
        )
    }
}

/// One commit of a row with its metadata: the reported and retained byte
/// counts must agree and fit the reservation, whose unused part returns to
/// the environment.
pub open spec fn commit_bytes_step(
    v: ResultQueueView,
    environment: usize,
    result: ScanResult,
    actual: usize,
    reserved: usize,
) -> (ResultQueueView, usize, Result<(), SinkFailure>) {
    if actual != service_bytes(result) || actual > reserved || reserved
        > v.reserved_metadata_bytes {
        (v, environment, Err(SinkFailure { code: 3 }))
    } else {
        let v1 = ResultQueueView {
            reserved_metadata_bytes: (v.reserved_metadata_bytes - reserved) as usize,
            queued_metadata_bytes: v.queued_metadata_bytes.saturating_add(actual),
            ..v
        };
        let (v2, r) = commit_step(v1, result);
        (v2, environment.wrapping_sub((reserved - actual) as usize), r)
    }
}

/// Giving back reserved rows.
pub open spec fn release_step(v: ResultQueueView, count: usize) -> (
    ResultQueueView,
    Result<(), SinkFailure>,
) {
    if count > v.reserved {
        (v, Err(SinkFailure { code: 2 }))
    } else {
        (ResultQueueView { reserved: (v.reserved - count) as usize, ..v }, Ok(()))
    }
}

/// Giving back reserved rows and their metadata bytes.
pub open spec fn release_bytes_step(
    v: ResultQueueView,
    environment: usize,
    count: usize,
    maximum: usize,
) -> (ResultQueueView, usize, Result<(), SinkFailure>) {
    if maximum > v.reserved_metadata_bytes {
        (v, environment, Err(SinkFailure { code: 4 }))
    } else {
        let v1 = ResultQueueView {
            reserved_metadata_bytes: (v.reserved_metadata_bytes - maximum) as usize,
            ..v
        };
        let (v2, r) = release_step(v1, count);
        (v2, environment.wrapping_sub(maximum), r)
    }
}

/// How many leading rows one batch takes: at most `maximum`, stopping before
/// the row whose service metadata would push the batch past its budget.
pub open spec fn take_count(values: Seq<ScanResult>, maximum: nat, used: nat) -> nat
    decreases values.len(),
{
    if values.len() == 0 || maximum == 0 {
        0
    } else if used + service_bytes(values[0]) > MAX_BATCH_SERVICE_METADATA_BYTES {
        0
    } else {
        1 + take_count(values.drop_first(), (maximum - 1) as nat, used + service_bytes(values[0]))
    }
}

/// The service metadata bytes of a sequence of rows.
pub open spec fn total_service_bytes(rows: Seq<ScanResult>) -> nat
    decreases rows.len(),
{
    if rows.len() == 0 {
        0
    } else {
        total_service_bytes(rows.drop_last()) + service_bytes(rows.last())
    }
}

proof fn lemma_take_count_bound(values: Seq<ScanResult>, maximum: nat, used: nat)
    ensures
        take_count(values, maximum, used) <= values.len(),
        take_count(values, maximum, used) <= maximum,
    decreases values.len(),
{
    if values.len() > 0 && maximum > 0 && used + service_bytes(values[0])
        <= MAX_BATCH_SERVICE_METADATA_BYTES {
        lemma_take_count_bound(values.drop_first(), (maximum - 1) as nat, used + service_bytes(values[0]));
    }
}

proof fn lemma_take_count_budget(values: Seq<ScanResult>, maximum: nat, used: nat)
    requires
        used <= MAX_BATCH_SERVICE_METADATA_BYTES,
    ensures
        used + total_service_bytes(values.take(take_count(values, maximum, used) as int))
            <= MAX_BATCH_SERVICE_METADATA_BYTES,
    decreases values.len(),
{
    let n = take_count(values, maximum, used);
    if n == 0 {
        assert(values.take(0) =~= Seq::<ScanResult>::empty());
    } else {
        let rest = values.drop_first();
        let next = used + service_bytes(values[0]);
        lemma_take_count_budget(rest, (maximum - 1) as nat, next);
        lemma_take_count_bound(values, maximum, used);
        lemma_total_prefix_shift(values, n as int);
    }
}

proof fn lemma_total_prefix_shift(values: Seq<ScanResult>, n: int)
    requires
        1 <= n <= values.len(),
    ensures
        total_service_bytes(values.take(n)) == service_bytes(values[0]) + total_service_bytes(
            values.drop_first().take(n - 1),
        ),
    decreases n,
{
    if n == 1 {
        assert(values.take(1).drop_last() =~= Seq::<ScanResult>::empty());
        assert(values.drop_first().take(0) =~= Seq::<ScanResult>::empty());
    } else {
        lemma_total_prefix_shift(values, n - 1);
        assert(values.take(n).drop_last() =~= values.take(n - 1));
        assert(values.drop_first().take(n - 1).drop_last() =~= values.drop_first().take(n - 2));
    }
}

/// One batch take: nothing when no row fits, else the leading rows leave the
/// queue in order and their metadata bytes return to the session and the
/// environment.
pub open spec fn take_step(v: ResultQueueView, environment: usize, maximum: usize) -> (
    ResultQueueView,
    usize,
    Option<Seq<ScanResult>>,
) {
    let n = take_count(v.values, maximum as nat, 0);
    if n == 0 {
        (v, environment, None)
    } else {
        let rows = v.values.take(n as int);
        let bytes = total_service_bytes(rows);
        (
            ResultQueueView {
                values: v.values.skip(n as int),
                queued_metadata_bytes: v.queued_metadata_bytes.saturating_sub(bytes as usize),
                ..v
            },
            environment.wrapping_sub(bytes as usize),
            Some(rows),
        )
    }
}

fn service_length(value: &ScanResult) -> (r: usize)
    ensures
        r == service_bytes(*value),
{
    match &value.udp {
        Some(udp) => match &udp.service {
            Some(service) => service.metadata.len(),
            None => 0,
        },
        None => 0,
    }
}

fn batch_row_count(values: &VecDeque<ScanResult>, maximum: usize) -> (r: (usize, usize))
    ensures
        r.0 == take_count(values@, maximum as nat, 0),
        r.1 == total_service_bytes(values@.take(r.0 as int)),
        r.0 <= values@.len(),
{
    let ghost before = values@;
    let length = values.len();
    let mut count: usize = 0;
    let mut used: usize = 0;
    proof {
        assert(before.skip(0) =~= before);
        assert(before.take(0) =~= Seq::<ScanResult>::empty());
    }
    while count < length && count < maximum
        invariant_except_break
            count + take_count(before.skip(count as int), (maximum - count) as nat, used as nat)
                == take_count(before, maximum as nat, 0),
        invariant
            before == values@,
            length == before.len(),
            count <= length,
            count <= maximum,
            used <= MAX_BATCH_SERVICE_METADATA_BYTES,
            used == total_service_bytes(before.take(count as int)),
        ensures
            count == take_count(before, maximum as nat, 0),
        decreases length - count,
    {
        let next = service_length(&values[count]);
        proof {
            let rest = before.skip(count as int);
            assert(rest[0] == before[count as int]);
            assert(rest.drop_first() =~= before.skip(count + 1));
            assert(before.take(count + 1).drop_last() =~= before.take(count as int));
        }
        if used.saturating_add(next) > MAX_BATCH_SERVICE_METADATA_BYTES {
            break;
        }
        used = used + next;
        count = count + 1;
    }
    proof {
        if count == length {
            assert(before.skip(count as int) =~= Seq::<ScanResult>::empty());
        }
    }
    (count, used)
}

fn pop_rows(values: &mut VecDeque<ScanResult>, count: usize) -> (r: Vec<ScanResult>)
    requires
        count <= old(values)@.len(),
    ensures
        r@ == old(values)@.take(count as int),
        final(values)@ == old(values)@.skip(count as int),
{
    let ghost before = values@;
    let mut rows: Vec<ScanResult> = Vec::new();
    let mut i: usize = 0;
    proof {
        assert(before.skip(0) =~= before);
    }
    while i < count
        invariant
            i <= count,
            count <= before.len(),
            rows@ == before.take(i as int),
            values@ == before.skip(i as int),
        decreases count - i,
    {
        let row = values.pop_front();
        match row {
            Some(value) => rows.push(value),
            None => {},
        }
        proof {
            assert(rows@ =~= before.take(i + 1));
            assert(values@ =~= before.skip(i + 1));
        }
        i = i + 1;
    }
    rows
}

impl ResultQueue {
    /// An empty queue sized for a number of logical probes, from one through
    /// the global bound.
    pub fn new(logical_probes: u64, schema_version: u32) -> (r: Self)
        ensures
            queue_wf(r@),
            r@ == (ResultQueueView {
                capacity: queue_capacity(logical_probes),
                low_watermark: (queue_capacity(logical_probes) / 2) as usize,
                reserved: 0,
                reserved_metadata_bytes: 0,
                queued_metadata_bytes: 0,
                schema_version,
                backpressured: false,
                application_backpressured: 0,
                values: Seq::empty(),
                completed_ids: Seq::empty(),
                counters: zero_counters(),
            }),
    {
        let capacity: usize = if logical_probes == 0 {
            1
        } else if logical_probes > MAX_QUEUED_RESULTS as u64 {
            MAX_QUEUED_RESULTS
        } else {
            logical_probes as usize
        };
        ResultQueue {
            capacity,
            low_watermark: capacity / 2,
            reserved: 0,
            reserved_metadata_bytes: 0,
            queued_metadata_bytes: 0,
            schema_version,
            backpressured: false,
            application_backpressured: 0,
            values: VecDeque::new(),
            completed_ids: Vec::new(),
            counters: SummaryCounters {
                results: 0,
                open: 0,
                closed: 0,
                filtered: 0,
                open_or_filtered: 0,
                up: 0,
                unreachable: 0,
                unknown: 0,
                cancelled: 0,
                deadline: 0,
                discarded: 0,
                timed_out: 0,
            },
        }
    }

    /// Reserves room for one row.
    pub fn try_reserve(&mut self) -> (r: Result<SinkReservation, SinkFailure>)
        requires
            queue_wf(old(self)@),
        ensures
            queue_wf(final(self)@),
            r == Ok::<SinkReservation, SinkFailure>(reserve_step(old(self)@).1),
            final(self)@ == reserve_step(old(self)@).0,
    {
        let occupancy = self.values.len() + self.reserved;
        if self.backpressured {
            if occupancy > self.low_watermark {
                return Ok(SinkReservation::Saturated);
            }
            self.backpressured = false;
        }
        if occupancy >= self.capacity {
            self.backpressured = true;
            self.application_backpressured = self.application_backpressured.saturating_add(1);
            return Ok(SinkReservation::Saturated);
        }
        self.reserved = self.reserved + 1;
        Ok(SinkReservation::Reserved)
    }

    /// Commits one reserved row.
    pub fn commit_reserved(&mut self, result: ScanResult) -> (r: Result<(), SinkFailure>)
        requires
            queue_wf(old(self)@),
        ensures
            queue_wf(final(self)@),
            (final(self)@, r) == commit_step(old(self)@, result),
    {
        if self.reserved == 0 || self.values.len() >= self.capacity {
            return Err(SinkFailure { code: 1 });
        }
        self.reserved = self.reserved - 1;
        self.completed_ids.push(result.logical_id);
        count_result(&mut self.counters, &result);
        self.values.push_back(result);
        Ok(())
    }

    /// Reserves one row and up to `maximum` metadata bytes against the
    /// session budget and the shared environment budget `environment`.
    pub fn try_reserve_with_bytes(&mut self, environment: &mut usize, maximum: usize) -> (r: Result<
        SinkReservation,
        SinkFailure,
    >)
        requires
            queue_wf(old(self)@),
        ensures
            queue_wf(final(self)@),
            r == Ok::<SinkReservation, SinkFailure>(
                reserve_bytes_step(old(self)@, *old(environment), maximum).2,
            ),
            final(self)@ == reserve_bytes_step(old(self)@, *old(environment), maximum).0,
            *final(environment) == reserve_bytes_step(old(self)@, *old(environment), maximum).1,
    {
        match self.try_reserve() {
            Ok(SinkReservation::Reserved) => {},
            _ => return Ok(SinkReservation::Saturated),
        }
        let session_total = match self.reserved_metadata_bytes.checked_add(maximum) {
            Some(total) => total,
            None => {
                self.reserved = self.reserved - 1;
                return Ok(SinkReservation::Saturated);
            },
        };
        let environment_fits = match environment.checked_add(maximum) {
            Some(total) => total <= MAX_ENVIRONMENT_METADATA_BYTES,
            None => false,
        };
        if session_total > MAX_SESSION_METADATA_BYTES || !environment_fits {
            self.reserved = self.reserved - 1;
            self.backpressured = true;
            self.application_backpressured = self.application_backpressured.saturating_add(1);
            return Ok(SinkReservation::Saturated);
        }
        *environment = *environment + maximum;
        self.reserved_metadata_bytes = session_total;
        Ok(SinkReservation::Reserved)
    }

    /// Commits one reserved row that retains `actual` metadata bytes out of a
    /// reservation of `reserved` bytes.
    pub fn commit_reserved_with_bytes(
        &mut self,
        environment: &mut usize,
        result: ScanResult,
        actual: usize,
        reserved: usize,
    ) -> (r: Result<(), SinkFailure>)
        requires
            queue_wf(old(self)@),
        ensures
            queue_wf(final(self)@),
            (final(self)@, *final(environment), r) == commit_bytes_step(
                old(self)@,
                *old(environment),
                result,
                actual,
                reserved,
            ),
    {
        let retained = service_length(&result);
        if actual != retained || actual > reserved || reserved > self.reserved_metadata_bytes {
            return Err(SinkFailure { code: 3 });
        }
        self.reserved_metadata_bytes = self.reserved_metadata_bytes - reserved;
        self.queued_metadata_bytes = self.queued_metadata_bytes.saturating_add(actual);
        *environment = environment.wrapping_sub(reserved - actual);
        self.commit_reserved(result)
    }

    /// Gives back reserved rows.
    pub fn release_reserved(&mut self, count: usize) -> (r: Result<(), SinkFailure>)
        requires
            queue_wf(old(self)@),
        ensures
            queue_wf(final(self)@),
            (final(self)@, r) == release_step(old(self)@, count),
    {
        if count > self.reserved {
            return Err(SinkFailure { code: 2 });
        }
        self.reserved = self.reserved - count;
        Ok(())
    }

    /// Gives back reserved rows and their reserved metadata bytes.
    pub fn release_reserved_with_bytes(
        &mut self,
        environment: &mut usize,
        count: usize,
        maximum: usize,
    ) -> (r: Result<(), SinkFailure>)
        requires
            queue_wf(old(self)@),
        ensures
            queue_wf(final(self)@),
            (final(self)@, *final(environment), r) == release_bytes_step(
                old(self)@,
                *old(environment),
                count,
                maximum,
            ),
    {
        if maximum > self.reserved_metadata_bytes {
            return Err(SinkFailure { code: 4 });
        }
        self.reserved_metadata_bytes = self.reserved_metadata_bytes - maximum;
        *environment = environment.wrapping_sub(maximum);
        self.release_reserved(count)
    }

    /// Takes the next batch of at most `maximum` rows, sealed, or nothing when
    /// no row fits.
    pub fn take(&mut self, environment: &mut usize, maximum: usize) -> (r: Option<
        SealedScanResultBatch,
    >)
        requires
            queue_wf(old(self)@),
        ensures
            queue_wf(final(self)@),
            final(self)@ == take_step(old(self)@, *old(environment), maximum).0,
            *final(environment) == take_step(old(self)@, *old(environment), maximum).1,
            match take_step(old(self)@, *old(environment), maximum).2 {
                Some(rows) => r matches Some(batch) && seals(
                    batch,
                    rows,
                    old(self)@.schema_version,
                ),
                None => r is None,
            },
    {
        let (count, used) = batch_row_count(&self.values, maximum);
        if count == 0 {
            return None;
        }
        let rows = pop_rows(&mut self.values, count);
        self.queued_metadata_bytes = self.queued_metadata_bytes.saturating_sub(used);
        *environment = environment.wrapping_sub(used);
        Some(seal_result_batch(rows, self.schema_version))
    }

    /// Drops every queued row, returning their metadata bytes, and counts
    /// them as discarded.
    pub fn discard(&mut self, environment: &mut usize) -> (r: u64)
        requires
            queue_wf(old(self)@),
        ensures
            queue_wf(final(self)@),
            r == old(self)@.values.len(),
            *final(environment) == old(environment).wrapping_sub(old(self)@.queued_metadata_bytes),
            final(self)@ == (ResultQueueView {
                values: Seq::empty(),
                queued_metadata_bytes: 0,
                counters: SummaryCounters {
                    discarded: old(self)@.counters.discarded.saturating_add(r),
                    ..old(self)@.counters
                },
                ..old(self)@
            }),
    {
        let count = self.values.len() as u64;
        self.values.clear();
        *environment = environment.wrapping_sub(self.queued_metadata_bytes);
        self.queued_metadata_bytes = 0;
        self.counters.discarded = self.counters.discarded.saturating_add(count);
        count
    }

    /// Hands out the identifiers of the rows committed since the last call,
    /// in commit order.
    pub fn take_completed_ids(&mut self) -> (r: Vec<u64>)
        requires
            queue_wf(old(self)@),
        ensures
            queue_wf(final(self)@),
            r@ == old(self)@.completed_ids,
            final(self)@ == (ResultQueueView { completed_ids: Seq::empty(), ..old(self)@ }),
    {
        let mut ids: Vec<u64> = Vec::new();
        std::mem::swap(&mut ids, &mut self.completed_ids);
        ids
    }

    /// Returns every reserved and queued metadata byte to the environment, as
    /// the queue must before it is dropped.
    pub fn release_environment(&mut self, environment: &mut usize)
        requires
            queue_wf(old(self)@),
        ensures
            queue_wf(final(self)@),
            *final(environment) == old(environment).wrapping_sub(
                old(self)@.reserved_metadata_bytes.saturating_add(
                    old(self)@.queued_metadata_bytes,
                ),
            ),
            final(self)@ == (ResultQueueView {
                reserved_metadata_bytes: 0,
                queued_metadata_bytes: 0,
                ..old(self)@
            }),
    {
        let total = self.reserved_metadata_bytes.saturating_add(self.queued_metadata_bytes);
        *environment = environment.wrapping_sub(total);
        self.reserved_metadata_bytes = 0;
        self.queued_metadata_bytes = 0;
    }

    /// The number of queued rows.
    pub fn queued_results(&self) -> (r: usize)
        ensures
            r == self@.values.len(),
    {
        self.values.len()
    }

    /// The number of reserved rows.
    pub fn reserved(&self) -> (r: usize)
        ensures
            r == self@.reserved,
    {
        self.reserved
    }

    /// The number of reserved metadata bytes.
    pub fn reserved_metadata_bytes(&self) -> (r: usize)
        ensures
            r == self@.reserved_metadata_bytes,
    {
        self.reserved_metadata_bytes
    }

    /// The number of metadata bytes held by queued rows.
    pub fn queued_metadata_bytes(&self) -> (r: usize)
        ensures
            r == self@.queued_metadata_bytes,
    {
        self.queued_metadata_bytes
    }

    /// How often a reservation found the queue saturated.
    pub fn application_backpressured(&self) -> (r: u64)
        ensures
            r == self@.application_backpressured,
    {
        self.application_backpressured
    }

    /// The number of committed identifiers not yet handed out.
    pub fn pending_completions(&self) -> (r: usize)
        ensures
            r == self@.completed_ids.len(),
    {
        self.completed_ids.len()
    }

    /// The per-outcome totals.
    pub fn counters(&self) -> (r: SummaryCounters)
        ensures
            r == self@.counters,
    {
        self.counters
    }
}

/// Every queue operation keeps the queue well formed: queued rows plus
/// reservations never exceed the capacity, and reserved metadata stays within
/// the session budget.
pub proof fn queue_operations_preserve_bounds(
    v: ResultQueueView,
    environment: usize,
    result: ScanResult,
    count: usize,
    actual: usize,
    reserved: usize,
    maximum: usize,
)
    requires
        queue_wf(v),
    ensures
        queue_wf(reserve_step(v).0),
        queue_wf(commit_step(v, result).0),
        queue_wf(reserve_bytes_step(v, environment, maximum).0),
        queue_wf(commit_bytes_step(v, environment, result, actual, reserved).0),
        queue_wf(release_step(v, count).0),
        queue_wf(release_bytes_step(v, environment, count, maximum).0),
        queue_wf(take_step(v, environment, maximum).0),
{
    lemma_take_count_bound(v.values, maximum as nat, 0);
}

/// Once saturated, the queue refuses every reservation, changing nothing,
/// until its occupancy falls to the low watermark.
pub proof fn saturated_queue_refuses_until_drained(v: ResultQueueView)
    requires
        queue_wf(v),
        v.backpressured,
        occupancy(v) > v.low_watermark,
    ensures
        reserve_step(v) == (v, SinkReservation::Saturated),
{
}

/// A reservation at capacity is refused and turns on backpressure, counted
/// once.
pub proof fn full_queue_saturates(v: ResultQueueView)
    requires
        queue_wf(v),
        !v.backpressured,
        occupancy(v) == v.capacity,
    ensures
        reserve_step(v).1 == SinkReservation::Saturated,
        reserve_step(v).0.backpressured,
        reserve_step(v).0.application_backpressured == bump(v.application_backpressured),
{
}

/// A commit without a reservation is refused and changes nothing.
pub proof fn commit_requires_reservation(v: ResultQueueView, result: ScanResult)
    requires
        v.reserved == 0,
    ensures
        commit_step(v, result) == (v, Err::<(), SinkFailure>(SinkFailure { code: 1 })),
{
}

/// A granted reservation followed by a commit appends the row at the tail,
/// records its identifier, and leaves the reservation count as it was.
pub proof fn reserved_commit_appends(v: ResultQueueView, result: ScanResult)
    requires
        queue_wf(v),
        reserve_step(v).1 == SinkReservation::Reserved,
    ensures
        commit_step(reserve_step(v).0, result).1 is Ok,
        commit_step(reserve_step(v).0, result).0.values == v.values.push(result),
        commit_step(reserve_step(v).0, result).0.completed_ids == v.completed_ids.push(
            result.logical_id,
        ),
        commit_step(reserve_step(v).0, result).0.reserved == v.reserved,
{
}

/// A take hands out a non-empty prefix of at most `maximum` queued rows,
/// whose service metadata fits the batch budget, and keeps the rest in
/// order; when nothing fits it changes nothing.
pub proof fn take_is_first_in_first_out(v: ResultQueueView, environment: usize, maximum: usize)
    ensures
        match take_step(v, environment, maximum).2 {
            Some(rows) => {
                &&& 1 <= rows.len() <= maximum
                &&& rows + take_step(v, environment, maximum).0.values == v.values
                &&& total_service_bytes(rows) <= MAX_BATCH_SERVICE_METADATA_BYTES
            },
            None => take_step(v, environment, maximum).0 == v && take_step(
                v,
                environment,
                maximum,
            ).1 == environment,
        },
{
    let n = take_count(v.values, maximum as nat, 0);
    lemma_take_count_bound(v.values, maximum as nat, 0);
    lemma_take_count_budget(v.values, maximum as nat, 0);
    if n > 0 {
        assert(v.values.take(n as int) + v.values.skip(n as int) =~= v.values);
    }
}

/// The lifecycle states of a scan session.
#[derive(Clone, Copy, Debug, PartialEq, Eq, Structural)]
pub enum SessionLifecycle {
    Created,
    Running,
    Pausing,
    Paused,
    Cancelling,
    Completed,
    Failed,
    Closed,
}

/// The reported name of a lifecycle state.
pub open spec fn lifecycle_name(value: SessionLifecycle) -> Seq<char> {
    match value {
        SessionLifecycle::Created => "created"@,
        SessionLifecycle::Running => "running"@,
        SessionLifecycle::Pausing => "pausing"@,
        SessionLifecycle::Paused => "paused"@,
        SessionLifecycle::Cancelling => "cancelling"@,
        SessionLifecycle::Completed => "completed"@,
        SessionLifecycle::Failed => "failed"@,
        SessionLifecycle::Closed => "closed"@,
    }
}

/// The reported name of a lifecycle state.
pub fn state_name(value: SessionLifecycle) -> (r: &'static str)
    ensures
        r@ == lifecycle_name(value),
{
    match value {
        SessionLifecycle::Created => "created",
        SessionLifecycle::Running => "running",
        SessionLifecycle::Pausing => "pausing",
        SessionLifecycle::Paused => "paused",
        SessionLifecycle::Cancelling => "cancelling",
        SessionLifecycle::Completed => "completed",
        SessionLifecycle::Failed => "failed",
        SessionLifecycle::Closed => "closed",
    }
}

/// Whether a lifecycle state is final: completed, failed or closed.
pub fn is_terminal(value: SessionLifecycle) -> (r: bool)
    ensures
        r == (value == SessionLifecycle::Completed || value == SessionLifecycle::Failed || value
            == SessionLifecycle::Closed),
{
    match value {
        SessionLifecycle::Completed | SessionLifecycle::Failed | SessionLifecycle::Closed => true,
        _ => false,
    }
}

/// Whether an address is multicast: 224.0.0.0/4 or ff00::/8.
pub open spec fn is_multicast(destination: IpAddress) -> bool {
    match destination {
        IpAddress::V4(octets) => 224 <= octets[0] <= 239,
        IpAddress::V6(octets) => octets[0] == 0xff,
    }
}

/// The Ethernet group address of a multicast destination: `01:00:5e` and the
/// low 23 bits for IPv4, `33:33` and the low 32 bits for IPv6.
pub open spec fn multicast_mac_of(destination: IpAddress) -> Option<[u8; 6]> {
    if !is_multicast(destination) {
        None
    } else {
        match destination {
            IpAddress::V4(octets) => Some([0x01u8, 0x00, 0x5e, octets[1] % 128, octets[2], octets[3]]),
            IpAddress::V6(octets) => Some([0x33u8, 0x33, octets[12], octets[13], octets[14], octets[15]]),
        }
    }
}

/// The Ethernet group address a multicast destination maps to, or nothing
/// for a unicast destination.
pub fn multicast_mac(destination: IpAddress) -> (r: Option<[u8; 6]>)
    ensures
        r == multicast_mac_of(destination),
{
    match destination {
        IpAddress::V4(octets) => {
            if 224 <= octets[0] && octets[0] <= 239 {
                Some([0x01, 0x00, 0x5e, octets[1] % 128, octets[2], octets[3]])
            } else {
                None
            }
        },
        IpAddress::V6(octets) => {
            if octets[0] == 0xff {
                Some([0x33, 0x33, octets[12], octets[13], octets[14], octets[15]])
            } else {
                None
            }
        },
    }
}

/// The raw counters a progress report is built from.
#[derive(Clone, Copy, Debug, Default, PartialEq, Eq)]
pub struct ProgressSample {
    pub sent: u64,
    pub received: u64,
    pub matched: u64,
    pub duplicates: u64,
    pub wire_invalid: u64,
    pub forged_or_unrelated: u64,
    pub non_first_fragment: u64,
    pub opaque_protocol: u64,
    pub insufficient_quote: u64,
    pub timed_out: u64,
    pub retried: u64,
    pub kernel_dropped: u64,
    pub application_backpressured: u64,
}

/// A progress report, each counter spelled in base ten.
#[derive(Clone, Debug, Default)]
pub struct NativeScanProgress {
    pub sent: String,
    pub received: String,
    pub matched: String,
    pub duplicate: String,
    pub invalid: String,
    pub timed_out: String,
    pub retried: String,
    pub kernel_dropped: String,
    pub application_backpressured: String,
    pub coalesced_updates: String,
}

/// A saturating `u64` sum.
pub open spec fn sat(a: u64, b: u64) -> u64 {
    a.saturating_add(b)
}

/// Every invalid or unmatched packet: wire rejects, forged or unrelated
/// replies, non-first fragments, opaque protocols and short quotes.
pub open spec fn invalid_total(s: ProgressSample) -> u64 {
    sat(
        sat(sat(sat(s.wire_invalid, s.forged_or_unrelated), s.non_first_fragment), s.opaque_protocol),
        s.insufficient_quote,
    )
}

/// The number of progress events, the first of which is not coalesced.
pub open spec fn update_total(s: ProgressSample) -> u64 {
    sat(
        sat(
            sat(
                sat(
                    sat(sat(sat(sat(s.sent, s.received), s.matched), s.duplicates), invalid_total(s)),
                    s.timed_out,
                ),
                s.retried,
            ),
            s.kernel_dropped,
        ),
        s.application_backpressured,
    )
}

/// Builds the progress report of a sample.
pub fn progress_snapshot(sample: &ProgressSample) -> (r: NativeScanProgress)
    ensures
        r.sent@ == decimal(sample.sent as nat),
        r.received@ == decimal(sample.received as nat),
        r.matched@ == decimal(sample.matched as nat),
        r.duplicate@ == decimal(sample.duplicates as nat),
        r.invalid@ == decimal(invalid_total(*sample) as nat),
        r.timed_out@ == decimal(sample.timed_out as nat),
        r.retried@ == decimal(sample.retried as nat),
        r.kernel_dropped@ == decimal(sample.kernel_dropped as nat),
        r.application_backpressured@ == decimal(sample.application_backpressured as nat),
        r.coalesced_updates@ == decimal(update_total(*sample).saturating_sub(1) as nat),
{
    let invalid = sample.wire_invalid.saturating_add(sample.forged_or_unrelated).saturating_add(
        sample.non_first_fragment,
    ).saturating_add(sample.opaque_protocol).saturating_add(sample.insufficient_quote);
    let updates = sample.sent.saturating_add(sample.received).saturating_add(
        sample.matched,
    ).saturating_add(sample.duplicates).saturating_add(invalid).saturating_add(
        sample.timed_out,
    ).saturating_add(sample.retried).saturating_add(sample.kernel_dropped).saturating_add(
        sample.application_backpressured,
    );
    NativeScanProgress {
        sent: decimal_string(sample.sent),
        received: decimal_string(sample.received),
        matched: decimal_string(sample.matched),
        duplicate: decimal_string(sample.duplicates),
        invalid: decimal_string(invalid),
        timed_out: decimal_string(sample.timed_out),
        retried: decimal_string(sample.retried),
        kernel_dropped: decimal_string(sample.kernel_dropped),
        application_backpressured: decimal_string(sample.application_backpressured),
        coalesced_updates: decimal_string(updates.saturating_sub(1)),
    }
}

/// A session failure as the summary reports it.
#[derive(Clone, Debug)]
pub struct NativeScanFailure {
    pub kind: String,
    pub code: String,
    pub operation: String,
    pub errno: Option<i32>,
    pub message: String,
}

/// The reported form of a scanner failure: the same category, code,
/// operation, errno and message.
pub fn native_failure(error: &ScannerError) -> (r: NativeScanFailure)
    ensures
        r.kind@ == error.kind@,
        r.code@ == error.code@,
        r.operation@ == error.operation@,
        r.errno == error.errno,
        r.message@ == error.message@,
{
    NativeScanFailure {
        kind: owned(error.kind),
        code: owned(error.code),
        operation: owned(error.operation),
        errno: error.errno,
        message: error.message.clone(),
    }
}

/// What one pull of a session's results gives.
pub enum PullResult {
    /// A sealed batch of results.
    Batch(Box<SealedScanResultBatch>),
    /// The session ended and every result was taken.
    Terminal,
    /// The pull was cancelled.
    Aborted,
}

/// The status name of a pull outcome.
pub open spec fn pull_status_name(value: PullResult) -> Seq<char> {
    match value {
        PullResult::Batch(_) => "batch"@,
        PullResult::Terminal => "terminal"@,
        PullResult::Aborted => "aborted"@,
    }
}

/// Names a pull outcome: `batch`, `terminal` or `aborted`.
pub fn pull_status(value: &PullResult) -> (r: &'static str)
    ensures
        r@ == pull_status_name(*value),
{
    match value {
        PullResult::Batch(_) => "batch",
        PullResult::Terminal => "terminal",
        PullResult::Aborted => "aborted",
    }
}

/// The six bytes of a slice that holds exactly six (a hardware address).
pub fn six_bytes(value: &[u8]) -> (r: Option<[u8; 6]>)
    ensures
        value@.len() == 6 ==> (r matches Some(a) && a@ == value@),
        value@.len() != 6 ==> r is None,
{
    if value.len() != 6 {
        return None;
    }
    let a: [u8; 6] = [value[0], value[1], value[2], value[3], value[4], value[5]];
    proof {
        assert(a@ =~= value@);
    }
    Some(a)
}

/// A pull outcome as the binding reports it: its status name and, for a
/// batch, the sealed batch.
pub struct NativePullResult {
    pub status: String,
    pub batch: Option<SealedScanResultBatch>,
}

impl NativePullResult {
    /// The reported form of a pull outcome.
    pub fn from_pull(value: PullResult) -> (r: Self)
        ensures
            r.status@ == pull_status_name(value),
            match value {
                PullResult::Batch(batch) => r.batch == Some(*batch),
                _ => r.batch is None,
            },
    {
        let status = owned(pull_status(&value));
        match value {
            PullResult::Batch(batch) => NativePullResult { status, batch: Some(*batch) },
            _ => NativePullResult { status, batch: None },
        }
    }
}

/// Whether an address is the unspecified address of its family.
pub open spec fn is_unspecified(address: IpAddress) -> bool {
    match address {
        IpAddress::V4(a) => a@ == seq![0u8, 0, 0, 0],
        IpAddress::V6(a) => a@ == Seq::new(16, |i: int| 0u8),
    }
}

/// Whether two addresses belong to the same family.
pub open spec fn same_family(a: IpAddress, b: IpAddress) -> bool {
    (a is V4) == (b is V4)
}

/// The source address an interface address offers a destination: its
/// local address (else its address) when it is on the interface, of the
/// destination's family, and specified.
pub open spec fn offered_source(
    entry: InterfaceAddressEntry,
    interface_index: u32,
    destination: IpAddress,
) -> Option<IpAddress> {
    let own = if entry.local is Some {
        entry.local
    } else {
        entry.address
    };
    if entry.interface_index != interface_index {
        None
    } else {
        match own {
            Some(a) => if same_family(a, destination) && !is_unspecified(a) {
                Some(a)
            } else {
                None
            },
            None => None,
        }
    }
}

/// The first source any interface address offers.
pub open spec fn first_offered_source(
    entries: Seq<InterfaceAddressEntry>,
    interface_index: u32,
    destination: IpAddress,
) -> Option<IpAddress>
    decreases entries.len(),
{
    if entries.len() == 0 {
        None
    } else {
        match offered_source(entries[0], interface_index, destination) {
            Some(a) => Some(a),
            None => first_offered_source(entries.drop_first(), interface_index, destination),
        }
    }
}

fn unspecified(address: IpAddress) -> (r: bool)
    ensures
        r == is_unspecified(address),
{
    match address {
        IpAddress::V4(a) => {
            let r = a[0] == 0 && a[1] == 0 && a[2] == 0 && a[3] == 0;
            assert(r ==> a@ =~= seq![0u8, 0, 0, 0]);
            r
        },
        IpAddress::V6(a) => {
            let mut i: usize = 0;
            while i < 16
                invariant
                    i <= 16,
                    address == IpAddress::V6(a),
                    forall|j: int| 0 <= j < i ==> a@[j] == 0u8,
                decreases 16 - i,
            {
                if a[i] != 0 {
                    assert(a@[i as int] != Seq::new(16, |k: int| 0u8)[i as int]);
                    return false;
                }
                i = i + 1;
            }
            assert(a@ =~= Seq::new(16, |k: int| 0u8));
            true
        },
    }
}

/// Picks the source address for a destination on an interface: the first
/// specified address of the destination's family the interface holds.
pub fn select_source(
    entries: &[InterfaceAddressEntry],
    interface_index: u32,
    destination: IpAddress,
) -> (r: Option<IpAddress>)
    ensures
        r == first_offered_source(entries@, interface_index, destination),
{
    let mut i: usize = 0;
    proof {
        assert(entries@.skip(0) =~= entries@);
    }
    while i < entries.len()
        invariant
            i <= entries@.len(),
            first_offered_source(entries@, interface_index, destination) == first_offered_source(
                entries@.skip(i as int),
                interface_index,
                destination,
            ),
        decreases entries@.len() - i,
    {
        proof {
            assert(entries@.skip(i as int)[0] == entries@[i as int]);
            assert(entries@.skip(i as int).drop_first() =~= entries@.skip(i + 1));
        }
        let entry = entries[i];
        if entry.interface_index == interface_index {
            let own = if entry.local.is_some() {
                entry.local
            } else {
                entry.address
            };
            match own {
                Some(a) => {
                    let family_matches = match (a, destination) {
                        (IpAddress::V4(_), IpAddress::V4(_)) => true,
                        (IpAddress::V6(_), IpAddress::V6(_)) => true,
                        _ => false,
                    };
                    if family_matches && !unspecified(a) {
                        return Some(a);
                    }
                },
                None => {},
            }
        }
        i = i + 1;
    }
    None
}

/// The engine's packet diagnostics a summary reports.
#[derive(Clone, Copy, Debug)]
pub struct SchedulerDiagnostics {
    pub forged_or_unrelated: u64,
    pub duplicates: u64,
    pub late_responses: u64,
    pub udp_icmp_pacing: u64,
}

/// The UDP policy a summary reports, as the session recorded it.
#[derive(Clone, Debug)]
pub struct UdpPolicySummary {
    pub catalogue_version: Option<String>,
    pub catalogue_sha256: Option<String>,
    pub mode: Option<String>,
    pub profile: Option<String>,
    pub intensity: Option<u8>,
    pub strategy: Option<String>,
    pub empty_fallback: Option<String>,
    pub allow_risks: Option<Vec<String>>,
    pub custom_correlation: Option<String>,
}

/// The final report of a scan session; counts are spelled in base ten.
#[derive(Clone, Debug)]
pub struct NativeScanSummary {
    pub schema_version: u32,
    pub state: String,
    pub logical_probes: String,
    pub results: String,
    pub open: String,
    pub closed: String,
    pub filtered: String,
    pub open_or_filtered: String,
    pub up: String,
    pub unreachable: String,
    pub unknown: String,
    pub cancelled: String,
    pub deadline: String,
    pub discarded: String,
    pub kernel_dropped: String,
    pub forged_or_unrelated: String,
    pub duplicates: String,
    pub late_responses: String,
    pub udp_icmp_pacing: String,
    pub udp_catalogue_version: Option<String>,
    pub udp_catalogue_sha256: Option<String>,
    pub udp_policy_mode: Option<String>,
    pub udp_profile: Option<String>,
    pub udp_intensity: Option<u32>,
    pub udp_strategy: Option<String>,
    pub udp_empty_fallback: Option<String>,
    pub udp_allow_risks: Option<Vec<String>>,
    pub udp_custom_correlation: Option<String>,
    pub progress: NativeScanProgress,
    pub scheduling_seed: Option<String>,
    pub accuracy_tradeoff: bool,
    pub error: Option<NativeScanFailure>,
}

/// A count spelled in base ten.
pub open spec fn count_text(value: u64) -> Seq<char> {
    decimal(value as nat)
}

/// A recorded UDP intensity as the summary reports it.
pub open spec fn widened_intensity(value: Option<u8>) -> Option<u32> {
    match value {
        Some(v) => Some(v as u32),
        None => None,
    }
}

fn widen_intensity(value: Option<u8>) -> (r: Option<u32>)
    ensures
        r == widened_intensity(value),
{
    match value {
        Some(v) => Some(v as u32),
        None => None,
    }
}

/// Whether an optional failure is reported as the given failure.
pub open spec fn reports_failure(r: Option<NativeScanFailure>, error: Option<ScannerError>) -> bool {
    match error {
        None => r is None,
        Some(e) => r matches Some(f) && f.kind@ == e.kind@ && f.code@ == e.code@ && f.operation@
            == e.operation@ && f.errno == e.errno && f.message@ == e.message@,
    }
}

/// Builds a session's summary: the lifecycle name, every counter in base
/// ten, the recorded UDP policy, the reported scheduling seed, and the
/// terminal failure, if any.
pub fn scan_summary(
    schema_version: u32,
    lifecycle: SessionLifecycle,
    logical_probes: u64,
    counters: &SummaryCounters,
    kernel_dropped: u64,
    diagnostics: &SchedulerDiagnostics,
    udp: UdpPolicySummary,
    progress: NativeScanProgress,
    scheduling_seed: Option<u64>,
    accuracy_tradeoff: bool,
    error: &Option<ScannerError>,
) -> (r: NativeScanSummary)
    ensures
        r.schema_version == schema_version,
        r.state@ == lifecycle_name(lifecycle),
        r.logical_probes@ == count_text(logical_probes),
        r.results@ == count_text(counters.results),
        r.open@ == count_text(counters.open),
        r.closed@ == count_text(counters.closed),
        r.filtered@ == count_text(counters.filtered),
        r.open_or_filtered@ == count_text(counters.open_or_filtered),
        r.up@ == count_text(counters.up),
        r.unreachable@ == count_text(counters.unreachable),
        r.unknown@ == count_text(counters.unknown),
        r.cancelled@ == count_text(counters.cancelled),
        r.deadline@ == count_text(counters.deadline),
        r.discarded@ == count_text(counters.discarded),
        r.kernel_dropped@ == count_text(kernel_dropped),
        r.forged_or_unrelated@ == count_text(diagnostics.forged_or_unrelated),
        r.duplicates@ == count_text(diagnostics.duplicates),
        r.late_responses@ == count_text(diagnostics.late_responses),
        r.udp_icmp_pacing@ == count_text(diagnostics.udp_icmp_pacing),
        r.udp_catalogue_version == udp.catalogue_version,
        r.udp_catalogue_sha256 == udp.catalogue_sha256,
        r.udp_policy_mode == udp.mode,
        r.udp_profile == udp.profile,
        r.udp_intensity == widened_intensity(udp.intensity),
        r.udp_strategy == udp.strategy,
        r.udp_empty_fallback == udp.empty_fallback,
        r.udp_allow_risks == udp.allow_risks,
        r.udp_custom_correlation == udp.custom_correlation,
        r.progress == progress,
        match scheduling_seed {
            Some(seed) => r.scheduling_seed matches Some(t) && t@ == count_text(seed),
            None => r.scheduling_seed is None,
        },
        r.accuracy_tradeoff == accuracy_tradeoff,
        reports_failure(r.error, *error),
{
    NativeScanSummary {
        schema_version,
        state: owned(state_name(lifecycle)),
        logical_probes: decimal_string(logical_probes),
        results: decimal_string(counters.results),
        open: decimal_string(counters.open),
        closed: decimal_string(counters.closed),
        filtered: decimal_string(counters.filtered),
        open_or_filtered: decimal_string(counters.open_or_filtered),
        up: decimal_string(counters.up),
        unreachable: decimal_string(counters.unreachable),
        unknown: decimal_string(counters.unknown),
        cancelled: decimal_string(counters.cancelled),
        deadline: decimal_string(counters.deadline),
        discarded: decimal_string(counters.discarded),
        kernel_dropped: decimal_string(kernel_dropped),
        forged_or_unrelated: decimal_string(diagnostics.forged_or_unrelated),
        duplicates: decimal_string(diagnostics.duplicates),
        late_responses: decimal_string(diagnostics.late_responses),
        udp_icmp_pacing: decimal_string(diagnostics.udp_icmp_pacing),
        udp_catalogue_version: udp.catalogue_version,
        udp_catalogue_sha256: udp.catalogue_sha256,
        udp_policy_mode: udp.mode,
        udp_profile: udp.profile,
        udp_intensity: widen_intensity(udp.intensity),
        udp_strategy: udp.strategy,
        udp_empty_fallback: udp.empty_fallback,
        udp_allow_risks: udp.allow_risks,
        udp_custom_correlation: udp.custom_correlation,
        progress,
        scheduling_seed: match scheduling_seed {
            Some(seed) => Some(decimal_string(seed)),
            None => None,
        },
        accuracy_tradeoff,
        error: match error {
            Some(e) => Some(native_failure(e)),
            None => None,
        },
    }
}

/// The results counted under a network state.
pub open spec fn per_state_total(c: SummaryCounters) -> int {
    c.open + c.closed + c.filtered + c.open_or_filtered + c.up + c.unreachable + c.unknown
}

/// Counting a result raises the result count by one and, for a network
/// outcome, the counter of exactly its state by one (a policy-down target
/// counts as unknown), so the per-state counters grow by one in all; a closed
/// port is counted as closed and nothing else. Other outcomes leave the
/// per-state counters alone.
pub proof fn each_result_counts_under_its_state(c: SummaryCounters, value: ScanResult)
    requires
        c.results < u64::MAX,
        c.timed_out < u64::MAX,
        c.open < u64::MAX,
        c.closed < u64::MAX,
        c.filtered < u64::MAX,
        c.open_or_filtered < u64::MAX,
        c.up < u64::MAX,
        c.unreachable < u64::MAX,
        c.unknown < u64::MAX,
        c.cancelled < u64::MAX,
        c.deadline < u64::MAX,
    ensures
        counted(c, value).results == c.results + 1,
        value.terminal_reason == TerminalReason::Timeout ==> counted(c, value).timed_out
            == c.timed_out + 1,
        value.terminal_reason != TerminalReason::Timeout ==> counted(c, value).timed_out
            == c.timed_out,
        value.outcome is Network ==> per_state_total(counted(c, value)) == per_state_total(c) + 1,
        !(value.outcome is Network) ==> per_state_total(counted(c, value)) == per_state_total(c),
        value.outcome == ProbeOutcome::Network(NetworkState::Open) ==> counted(c, value).open == c.open + 1,
        value.outcome == ProbeOutcome::Network(NetworkState::Closed) ==> {
            &&& counted(c, value).closed == c.closed + 1
            &&& counted(c, value).open == c.open
            &&& counted(c, value).filtered == c.filtered
            &&& counted(c, value).open_or_filtered == c.open_or_filtered
            &&& counted(c, value).up == c.up
            &&& counted(c, value).unreachable == c.unreachable
            &&& counted(c, value).unknown == c.unknown
        },
        value.outcome == ProbeOutcome::Network(NetworkState::Filtered) ==> counted(c, value).filtered
            == c.filtered + 1,
        value.outcome == ProbeOutcome::Network(NetworkState::OpenOrFiltered) ==> counted(
            c,
            value,
        ).open_or_filtered == c.open_or_filtered + 1,
        value.outcome == ProbeOutcome::Network(NetworkState::Up) ==> counted(c, value).up == c.up + 1,
        value.outcome == ProbeOutcome::Network(NetworkState::Unreachable) ==> counted(
            c,
            value,
        ).unreachable == c.unreachable + 1,
        value.outcome == ProbeOutcome::Network(NetworkState::Unknown) ==> counted(c, value).unknown
            == c.unknown + 1,
        value.outcome == ProbeOutcome::Network(NetworkState::DownByPolicy) ==> counted(
            c,
            value,
        ).unknown == c.unknown + 1,
        value.outcome == ProbeOutcome::Cancelled ==> counted(c, value).cancelled == c.cancelled + 1,
        value.outcome == ProbeOutcome::SessionDeadline ==> counted(c, value).deadline == c.deadline
            + 1,
{
}

} // verus!

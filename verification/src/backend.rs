//! The ownership contract between the scanner and a packet I/O backend:
//! owned frame templates go in, owned received frames come out, and the
//! backend reports counters and a cancellable, closable lifecycle.
use std::time::Duration;
use vstd::prelude::*;

use crate::results::IpAddress;

verus! {

/// Monotonic time relative to one backend instance's creation epoch.
#[derive(Clone, Copy, Debug)]
pub struct BackendTime(pub Duration);

impl BackendTime {
    /// The backend time at `value` after the epoch.
    pub fn from_duration(value: Duration) -> (r: Self)
        ensures
            r.0 == value,
    {
        BackendTime(value)
    }

    /// The time since the epoch.
    pub fn duration(self) -> (r: Duration)
        ensures
            r == self.0,
    {
        self.0
    }
}

/// Stable input identity; the queue is absent where Linux does not report it.
#[derive(Clone, Copy, Debug, PartialEq, Eq, Structural)]
pub struct InputIdentity {
    pub interface_index: u32,
    pub queue_id: Option<u32>,
}

/// Where one packet template goes.
#[derive(Clone, Copy, Debug)]
pub enum FrameDestination {
    Link { interface_index: u32, queue_id: Option<u32>, hardware_address: [u8; 6] },
    RawIp(IpAddress),
}

/// One fully initialized frame the scheduler submits.
#[derive(Clone, Debug)]
pub struct FrameTemplate {
    pub submission_id: u64,
    pub destination: FrameDestination,
    pub bytes: Vec<u8>,
}

/// Owned receive evidence: the bytes are a copy, never a view into a ring.
#[derive(Clone, Debug)]
pub struct ReceivedFrame {
    pub bytes: Vec<u8>,
    pub input: InputIdentity,
    pub received_at: BackendTime,
    pub original_length: usize,
    pub checksum_not_ready: bool,
}

/// Totals a backend keeps.
#[derive(Clone, Copy, Debug, Default, PartialEq, Eq, Structural)]
pub struct BackendCounters {
    pub submitted: u64,
    pub received: u64,
    pub kernel_dropped: u64,
    pub backpressured: u64,
}

/// How a submission ended.
#[derive(Clone, Copy, Debug, PartialEq, Eq, Structural)]
pub enum SubmissionStatus {
    Complete,
    Backpressured,
    Cancelled,
}

/// How many frames of a submission the backend took, and why it stopped.
#[derive(Clone, Copy, Debug, PartialEq, Eq, Structural)]
pub struct SubmissionOutcome {
    pub accepted: usize,
    pub status: SubmissionStatus,
}

/// The lifecycle of a backend.
#[derive(Clone, Copy, Debug, PartialEq, Eq, Structural)]
pub enum BackendLifecycle {
    Running,
    Cancelling,
    Closed,
}

/// The data-plane contract a backend implements. Every call is bounded,
/// frames of one submission keep their order, writable storage stays owned
/// by the backend, and cancellation and shutdown are idempotent; `shutdown`
/// returns only after kernel ownership and mappings are given up.
pub trait ScannerIoBackend {
    type Error;

    fn submit(&mut self, frames: &[FrameTemplate]) -> Result<SubmissionOutcome, Self::Error>;

    fn receive(&mut self, maximum: usize) -> Result<Vec<ReceivedFrame>, Self::Error>;

    fn counters(&mut self) -> Result<BackendCounters, Self::Error>;

    fn lifecycle(&self) -> BackendLifecycle;

    fn cancel(&mut self);

    fn shutdown(&mut self) -> Result<(), Self::Error>;
}

} // verus!

//! Active IPv6 Router Solicitation: plan validation, the acceptance rules for
//! Router Advertisements, and the bounded collection of their results.
use vstd::prelude::*;
use vstd::string::StringSliceAdditionalSpecFns;

use crate::scan_error::{invalid_plan, scan_fails_with, ScannerError, ScannerErrorView};
use crate::text::{byte_len, contains_nul, owned, str_eq, string_len, text_has_nul};

verus! {

broadcast use vstd::string::group_string_axioms;

pub const MAX_ROUTER_SOLICITATION_RESULTS: u32 = 64;

pub const MAX_ROUTER_SOLICITATION_DEADLINE_MS: u32 = 10000;

pub const MAX_ROUTER_SOLICITATION_RECEIVES: u32 = 4096;

/// The metadata bytes a Router Solicitation session reserves.
pub const ROUTER_SOLICITATION_RESERVATION_BYTES: usize = 1048576;

/// A requested Router Solicitation.
#[derive(Clone)]
pub struct NativeRouterSolicitationPlan {
    pub interface: String,
    pub deadline_ms: Option<u32>,
    pub max_results: Option<u32>,
    pub allow_risks: Option<Vec<String>>,
}

/// An admitted Router Solicitation.
pub struct ValidatedRouterSolicitationPlan {
    pub interface: String,
    pub deadline_ms: u32,
    pub max_results: usize,
}

/// The failure a Router Solicitation plan is refused with, if any.
pub open spec fn router_plan_failure(plan: NativeRouterSolicitationPlan) -> Option<ScannerErrorView> {
    let op = "start router solicitation"@;
    let risks = match plan.allow_risks {
        Some(v) => v@,
        None => Seq::empty(),
    };
    let deadline = match plan.deadline_ms {
        Some(v) => v,
        None => 3000,
    };
    let results = match plan.max_results {
        Some(v) => v,
        None => 16,
    };
    if byte_len(plan.interface@) == 0 || byte_len(plan.interface@) >= 16 || text_has_nul(
        plan.interface@,
    ) {
        Some(invalid_plan(op, "interface must be an explicit nonempty Linux interface name"@))
    } else if !(risks.len() == 1 && risks[0]@ == "linkMulticast"@) {
        Some(
            invalid_plan(
                op,
                "active Router Solicitation requires allowRisks: [\"linkMulticast\"]"@,
            ),
        )
    } else if deadline == 0 || deadline > MAX_ROUTER_SOLICITATION_DEADLINE_MS {
        Some(invalid_plan(op, "deadlineMs must be from 1 through 10000"@))
    } else if results == 0 || results > MAX_ROUTER_SOLICITATION_RESULTS {
        Some(invalid_plan(op, "maxResults must be from 1 through 64"@))
    } else {
        None
    }
}

impl NativeRouterSolicitationPlan {
    /// Validates a plan before any socket is opened.
    pub fn validate(self) -> (r: Result<ValidatedRouterSolicitationPlan, ScannerError>)
        ensures
            match router_plan_failure(self) {
                Some(e) => scan_fails_with(r, e),
                None => r matches Ok(plan) && plan.interface == self.interface && plan.deadline_ms
                    == match self.deadline_ms {
                    Some(v) => v,
                    None => 3000,
                } && plan.max_results == match self.max_results {
                    Some(v) => v,
                    None => 16,
                },
            },
    {
        let operation = "start router solicitation";
        let length = string_len(&self.interface);
        let name = self.interface.as_str();
        proof {
            assert(name@ == self.interface@);
            assert(name.spec_bytes() == vstd::utf8::encode_utf8(self.interface@));
        }
        if length == 0 || length >= 16 || contains_nul(name) {
            return Err(
                ScannerError::invalid(
                    operation,
                    "interface must be an explicit nonempty Linux interface name",
                ),
            );
        }
        proof {
            assert(crate::text::utf8(name) == vstd::utf8::encode_utf8(self.interface@));
            assert(!text_has_nul(self.interface@));
        }
        let risks = match self.allow_risks {
            Some(value) => value,
            None => Vec::new(),
        };
        if !(risks.len() == 1 && str_eq(risks[0].as_str(), "linkMulticast")) {
            return Err(
                ScannerError::invalid(
                    operation,
                    "active Router Solicitation requires allowRisks: [\"linkMulticast\"]",
                ),
            );
        }
        let deadline_ms = match self.deadline_ms {
            Some(value) => value,
            None => 3000,
        };
        if deadline_ms == 0 || deadline_ms > MAX_ROUTER_SOLICITATION_DEADLINE_MS {
            return Err(ScannerError::invalid(operation, "deadlineMs must be from 1 through 10000"));
        }
        let max_results = match self.max_results {
            Some(value) => value,
            None => 16,
        };
        if max_results == 0 || max_results > MAX_ROUTER_SOLICITATION_RESULTS {
            return Err(ScannerError::invalid(operation, "maxResults must be from 1 through 64"));
        }
        Ok(
            ValidatedRouterSolicitationPlan {
                interface: self.interface,
                deadline_ms,
                max_results: max_results as usize,
            },
        )
    }
}

/// The Router Solicitation message: ICMPv6 type 133, all else zero.
pub fn router_solicitation_request() -> (r: [u8; 8])
    ensures
        r@ == seq![133u8, 0, 0, 0, 0, 0, 0, 0],
{
    let request: [u8; 8] = [133, 0, 0, 0, 0, 0, 0, 0];
    proof {
        assert(request@ =~= seq![133u8, 0, 0, 0, 0, 0, 0, 0]);
    }
    request
}

/// One metadata field of an advertisement.
#[derive(Clone, Debug)]
pub struct NativeRouterAdvertisementField {
    pub key: String,
    pub value: Vec<u8>,
}

/// One accepted Router Advertisement.
#[derive(Clone, Debug)]
pub struct NativeRouterAdvertisement {
    pub responder: String,
    pub interface_index: u32,
    pub round_trip_microseconds: String,
    pub metadata: Vec<NativeRouterAdvertisementField>,
}

/// The result of one Router Solicitation.
#[derive(Clone, Debug)]
pub struct NativeRouterSolicitationRun {
    pub schema_version: u32,
    pub interface: String,
    pub interface_index: u32,
    pub transmitted: u32,
    pub received: u32,
    pub rejected: u32,
    pub state: String,
    pub advertisements: Vec<NativeRouterAdvertisement>,
}

/// The cancellation flag of a Router Solicitation.
pub struct RouterSolicitationControl {
    cancelled: bool,
}

impl RouterSolicitationControl {
    /// A solicitation not yet cancelled.
    pub fn new() -> (r: Self)
        ensures
            !r.cancelled_spec(),
    {
        RouterSolicitationControl { cancelled: false }
    }

    /// Whether cancellation was requested.
    pub closed spec fn cancelled_spec(&self) -> bool {
        self.cancelled
    }

    /// Requests cancellation.
    pub fn cancel(&mut self)
        ensures
            final(self).cancelled_spec(),
    {
        self.cancelled = true;
    }

    /// Whether cancellation was requested.
    pub fn is_cancelled(&self) -> (r: bool)
        ensures
            r == self.cancelled_spec(),
    {
        self.cancelled
    }
}

/// Whether an IPv6 address is unicast link-local (fe80::/10).
pub open spec fn link_local(address: Seq<u8>) -> bool {
    address[0] == 0xfe && (address[1] & 0xc0) == 0x80
}

/// Whether a received datagram may be an advertisement from an on-link
/// router: not truncated, from a link-local source, with hop limit 255.
pub open spec fn advertisement_admissible(
    truncated: bool,
    length: usize,
    capacity: usize,
    hop_limit: Option<i32>,
    source: Option<[u8; 16]>,
) -> bool {
    &&& !truncated
    &&& length <= capacity
    &&& source is Some
    &&& hop_limit == Some(255i32)
    &&& link_local(source.unwrap()@)
}

/// Screens a received datagram before its advertisement is parsed.
pub fn admissible_advertisement(
    truncated: bool,
    length: usize,
    capacity: usize,
    hop_limit: Option<i32>,
    source: Option<[u8; 16]>,
) -> (r: bool)
    ensures
        r == advertisement_admissible(truncated, length, capacity, hop_limit, source),
{
    if truncated || length > capacity {
        return false;
    }
    let address = match source {
        Some(address) => address,
        None => return false,
    };
    let hop = match hop_limit {
        Some(value) => value,
        None => return false,
    };
    hop == 255 && address[0] == 0xfe && (address[1] & 0xc0) == 0x80
}

/// The advertisements a solicitation has collected: counters of received and
/// rejected datagrams, and at most one advertisement per responder.
pub struct RouterCollector {
    max_results: usize,
    received: u32,
    rejected: u32,
    advertisements: Vec<NativeRouterAdvertisement>,
}

/// The mathematical state of a [`RouterCollector`].
pub struct RouterCollectorView {
    pub max_results: usize,
    pub received: u32,
    pub rejected: u32,
    pub advertisements: Seq<NativeRouterAdvertisement>,
}

impl View for RouterCollector {
    type V = RouterCollectorView;

    closed spec fn view(&self) -> RouterCollectorView {
        RouterCollectorView {
            max_results: self.max_results,
            received: self.received,
            rejected: self.rejected,
            advertisements: self.advertisements@,
        }
    }
}

/// Whether a responder already has an advertisement.
pub open spec fn has_responder(ads: Seq<NativeRouterAdvertisement>, responder: Seq<char>) -> bool {
    exists|i: int| 0 <= i < ads.len() && (#[trigger] ads[i]).responder@ == responder
}

/// The collector's invariant: at most `max_results` advertisements, one per
/// responder.
pub open spec fn collector_wf(v: RouterCollectorView) -> bool {
    &&& v.advertisements.len() <= v.max_results
    &&& forall|i: int, j: int|
        0 <= i < j < v.advertisements.len() ==> (#[trigger] v.advertisements[i]).responder@
            != (#[trigger] v.advertisements[j]).responder@
}

/// A `u32` counter increased by one, saturating.
pub open spec fn bump32(v: u32) -> u32 {
    if v == u32::MAX {
        v
    } else {
        (v + 1) as u32
    }
}

impl RouterCollector {
    /// An empty collection bounded by `max_results`.
    pub fn new(max_results: usize) -> (r: Self)
        ensures
            collector_wf(r@),
            r@ == (RouterCollectorView {
                max_results,
                received: 0,
                rejected: 0,
                advertisements: Seq::empty(),
            }),
    {
        RouterCollector { max_results, received: 0, rejected: 0, advertisements: Vec::new() }
    }

    /// Whether the solicitation may wait for another datagram: not
    /// cancelled, before the deadline, short of the result bound and of the
    /// receive bound.
    pub fn may_receive(&self, cancelled: bool, before_deadline: bool) -> (r: bool)
        ensures
            r == (!cancelled && before_deadline && self@.advertisements.len() < self@.max_results
                && self@.received < MAX_ROUTER_SOLICITATION_RECEIVES),
    {
        !cancelled && before_deadline && self.advertisements.len() < self.max_results
            && self.received < MAX_ROUTER_SOLICITATION_RECEIVES
    }

    /// Counts a received datagram.
    pub fn note_received(&mut self)
        requires
            collector_wf(old(self)@),
        ensures
            collector_wf(final(self)@),
            final(self)@ == (RouterCollectorView {
                received: bump32(old(self)@.received),
                ..old(self)@
            }),
    {
        self.received = self.received.saturating_add(1);
    }

    /// Counts a rejected datagram.
    pub fn note_rejected(&mut self)
        requires
            collector_wf(old(self)@),
        ensures
            collector_wf(final(self)@),
            final(self)@ == (RouterCollectorView {
                rejected: bump32(old(self)@.rejected),
                ..old(self)@
            }),
    {
        self.rejected = self.rejected.saturating_add(1);
    }

    /// Keeps an advertisement unless its responder already has one or the
    /// result bound is reached. Returns whether it was kept.
    pub fn accept(&mut self, advertisement: NativeRouterAdvertisement) -> (r: bool)
        requires
            collector_wf(old(self)@),
        ensures
            collector_wf(final(self)@),
            r == (!has_responder(old(self)@.advertisements, advertisement.responder@)
                && old(self)@.advertisements.len() < old(self)@.max_results),
            r ==> final(self)@ == (RouterCollectorView {
                advertisements: old(self)@.advertisements.push(advertisement),
                ..old(self)@
            }),
            !r ==> final(self)@ == old(self)@,
    {
        let mut i: usize = 0;
        while i < self.advertisements.len()
            invariant
                self@ == old(self)@,
                collector_wf(self@),
                i <= self@.advertisements.len(),
                forall|k: int| 0 <= k < i ==> (#[trigger] self@.advertisements[k]).responder@
                    != advertisement.responder@,
            decreases self@.advertisements.len() - i,
        {
            if str_eq(self.advertisements[i].responder.as_str(), advertisement.responder.as_str()) {
                return false;
            }
            i = i + 1;
        }
        if self.advertisements.len() >= self.max_results {
            return false;
        }
        self.advertisements.push(advertisement);
        true
    }

    /// The solicitation's result on interface `interface_index`.
    pub fn finish(self, interface: String, interface_index: u32, cancelled: bool) -> (r:
        NativeRouterSolicitationRun)
        ensures
            r.schema_version == 1,
            r.interface == interface,
            r.interface_index == interface_index,
            r.transmitted == 1,
            r.received == self@.received,
            r.rejected == self@.rejected,
            r.state@ == (if cancelled {
                "cancelled"@
            } else {
                "completed"@
            }),
            r.advertisements@ == self@.advertisements,
    {
        NativeRouterSolicitationRun {
            schema_version: 1,
            interface,
            interface_index,
            transmitted: 1,
            received: self.received,
            rejected: self.rejected,
            state: owned(
                if cancelled {
                    "cancelled"
                } else {
                    "completed"
                },
            ),
            advertisements: self.advertisements,
        }
    }
}

} // verus!

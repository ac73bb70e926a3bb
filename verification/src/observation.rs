//! Passive observation: plan validation, the capture filter program, link
//! header decoding, the retention decision for each frame, and the session
//! control.
use std::collections::VecDeque;
use vstd::prelude::*;
use vstd::utf8::encode_utf8;

use crate::advanced::{valid_classic_bpf, ClassicBpfInstruction, jump_stays_inside, bpf_class};
use crate::names::{names_sorted, sort_names};
use crate::scan_error::{
    invalid_plan, scan_failure, scan_fails_with, ScanFailure, ScannerError, ScannerErrorView,
};
use crate::text::{
    byte_len, bytes_of, decimal, decimal_string, hex_char, hex_digit_text, owned, str_eq, string_len,
};

verus! {

broadcast use vstd::string::group_string_axioms;

pub const MAX_OBSERVATION_INTERFACES: usize = 4;

pub const MAX_OBSERVATION_RESULTS: usize = 8192;

pub const MAX_OBSERVATION_METADATA_BYTES: usize = 16777216;

pub const MAX_OBSERVATION_DURATION_MS: u32 = 300000;

pub const MAX_OBSERVATION_SNAP_LENGTH: u32 = 16384;

pub const MAX_INSPECTED_FRAMES: u64 = 1000000;

pub const MAX_CAPTURED_BYTES: u64 = 67108864;

/// `PACKET_OUTGOING`: a frame this host sent.
pub const PACKET_OUTGOING: u8 = 4;

/// A requested observation session.
#[derive(Clone)]
pub struct NativeObservationPlan {
    pub interfaces: Vec<String>,
    pub protocols: Vec<String>,
    pub duration_ms: Option<u32>,
    pub snap_length: Option<u32>,
    pub max_results: Option<u32>,
    pub max_metadata_bytes: Option<u32>,
    pub include_outgoing: Option<bool>,
    pub promiscuous: Option<bool>,
    pub allow_risks: Option<Vec<String>>,
}

/// An admitted observation session: sorted interfaces and protocol groups,
/// the selected EtherTypes in ascending order, and the resolved limits.
pub struct ValidatedObservationPlan {
    pub interfaces: Vec<String>,
    pub protocols: Vec<String>,
    pub ether_types: Vec<u16>,
    pub control_plane: bool,
    pub duration_ms: u32,
    pub snap_length: usize,
    pub max_results: usize,
    pub max_metadata_bytes: usize,
    pub include_outgoing: bool,
    pub promiscuous: bool,
}

/// Whether every name is a nonempty Linux interface name of at most 15
/// bytes.
pub open spec fn interface_names_fit(names: Seq<String>) -> bool {
    forall|i: int| 0 <= i < names.len() ==> 1 <= byte_len((#[trigger] names[i])@) <= 15
}

/// Whether all names spell distinct texts.
pub open spec fn distinct_texts(names: Seq<String>) -> bool {
    forall|i: int, j: int| 0 <= i < j < names.len() ==> (#[trigger] names[i])@ != (
    #[trigger] names[j])@
}

/// Whether a text is one of the given names.
pub open spec fn names_contain(names: Seq<String>, text: Seq<char>) -> bool {
    exists|i: int| 0 <= i < names.len() && (#[trigger] names[i])@ == text
}

/// Whether a protocol group is known.
pub open spec fn known_protocol(text: Seq<char>) -> bool {
    text == "arp"@ || text == "ipv4"@ || text == "ipv6"@ || text == "lldp"@ || text
        == "controlPlane"@
}

/// Whether an observation risk is known.
pub open spec fn known_observation_risk(text: Seq<char>) -> bool {
    text == "passiveMetadata"@ || text == "promiscuousCapture"@
}

/// Whether every protocol group is known.
pub open spec fn protocols_all_known(names: Seq<String>) -> bool {
    forall|i: int| 0 <= i < names.len() ==> known_protocol((#[trigger] names[i])@)
}

/// Whether every observation risk is known.
pub open spec fn risks_all_known(names: Seq<String>) -> bool {
    forall|i: int| 0 <= i < names.len() ==> known_observation_risk((#[trigger] names[i])@)
}

/// The EtherTypes a set of protocol groups selects, ascending.
pub open spec fn selected_ether_types(protocols: Seq<String>) -> Seq<u16> {
    (if names_contain(protocols, "ipv4"@) {
        seq![0x0800u16]
    } else {
        Seq::empty()
    }) + (if names_contain(protocols, "arp"@) {
        seq![0x0806u16]
    } else {
        Seq::empty()
    }) + (if names_contain(protocols, "ipv6"@) {
        seq![0x86ddu16]
    } else {
        Seq::empty()
    }) + (if names_contain(protocols, "lldp"@) {
        seq![0x88ccu16]
    } else {
        Seq::empty()
    })
}

/// The failure the names of an observation plan are refused with, if any.
pub open spec fn observation_names_failure(interfaces: Seq<String>, protocols: Seq<String>) -> Option<
    ScannerErrorView,
> {
    let op = "start observation session"@;
    if interfaces.len() == 0 || interfaces.len() > MAX_OBSERVATION_INTERFACES {
        Some(invalid_plan(op, "interfaces must contain from one through four explicit interface names"@))
    } else if !interface_names_fit(interfaces) || !distinct_texts(interfaces) {
        Some(invalid_plan(op, "interface names must be unique, nonempty Linux interface names"@))
    } else if protocols.len() == 0 || protocols.len() > 5 {
        Some(invalid_plan(op, "protocols must contain one through five explicit protocol groups"@))
    } else if !distinct_texts(protocols) {
        Some(invalid_plan(op, "observation protocol groups must be unique"@))
    } else if !protocols_all_known(protocols) {
        Some(invalid_plan(op, "unsupported observation protocol group"@))
    } else {
        None
    }
}

/// The failure the limits and consents of an observation plan are refused
/// with, if any, once its defaults are applied.
pub open spec fn observation_limits_failure(
    duration: u32,
    snap: u32,
    results: u32,
    metadata: u32,
    promiscuous: bool,
    risks: Seq<String>,
) -> Option<ScannerErrorView> {
    let op = "start observation session"@;
    if duration == 0 || duration > MAX_OBSERVATION_DURATION_MS {
        Some(invalid_plan(op, "durationMs must be from 1 through 300000"@))
    } else if !(64 <= snap <= MAX_OBSERVATION_SNAP_LENGTH) {
        Some(invalid_plan(op, "snapLength must be from 64 through 16384"@))
    } else if results == 0 || results > MAX_OBSERVATION_RESULTS {
        Some(invalid_plan(op, "maxResults must be from 1 through 8192"@))
    } else if metadata == 0 || metadata > MAX_OBSERVATION_METADATA_BYTES {
        Some(invalid_plan(op, "maxMetadataBytes must be from 1 through 16777216"@))
    } else if promiscuous && !names_contain(risks, "promiscuousCapture"@) {
        Some(
            invalid_plan(
                op,
                "promiscuous capture requires allowRisks to contain promiscuousCapture"@,
            ),
        )
    } else if !risks_all_known(risks) {
        Some(invalid_plan(op, "allowRisks contains an unsupported observation risk"@))
    } else {
        None
    }
}

/// The failure an observation plan is refused with, if any, in check order.
pub open spec fn observation_plan_failure(plan: NativeObservationPlan) -> Option<ScannerErrorView> {
    match observation_names_failure(plan.interfaces@, plan.protocols@) {
        Some(e) => Some(e),
        None => observation_limits_failure(
            match plan.duration_ms {
                Some(v) => v,
                None => 30000,
            },
            match plan.snap_length {
                Some(v) => v,
                None => 4096,
            },
            match plan.max_results {
                Some(v) => v,
                None => 8192,
            },
            match plan.max_metadata_bytes {
                Some(v) => v,
                None => 16777216,
            },
            match plan.promiscuous {
                Some(v) => v,
                None => false,
            },
            match plan.allow_risks {
                Some(v) => v@,
                None => Seq::empty(),
            },
        ),
    }
}

/// Whether an admitted plan resolves a requested one.
pub open spec fn admits(plan: NativeObservationPlan, out: ValidatedObservationPlan) -> bool {
    &&& names_sorted(out.interfaces@)
    &&& out.interfaces@.to_multiset() == plan.interfaces@.to_multiset()
    &&& names_sorted(out.protocols@)
    &&& out.protocols@.to_multiset() == plan.protocols@.to_multiset()
    &&& out.ether_types@ == selected_ether_types(plan.protocols@)
    &&& out.control_plane == names_contain(plan.protocols@, "controlPlane"@)
    &&& out.duration_ms == match plan.duration_ms {
        Some(v) => v,
        None => 30000,
    }
    &&& out.snap_length == match plan.snap_length {
        Some(v) => v,
        None => 4096,
    }
    &&& out.max_results == match plan.max_results {
        Some(v) => v,
        None => 8192,
    }
    &&& out.max_metadata_bytes == match plan.max_metadata_bytes {
        Some(v) => v,
        None => 16777216,
    }
    &&& out.include_outgoing == match plan.include_outgoing {
        Some(v) => v,
        None => false,
    }
    &&& out.promiscuous == match plan.promiscuous {
        Some(v) => v,
        None => false,
    }
}

fn all_distinct(names: &Vec<String>) -> (r: bool)
    ensures
        r == distinct_texts(names@),
{
    let mut i: usize = 0;
    while i < names.len()
        invariant
            i <= names@.len(),
            forall|a: int, b: int| 0 <= a < b < names@.len() && a < i ==> (#[trigger] names@[a])@
                != (#[trigger] names@[b])@,
        decreases names@.len() - i,
    {
        let mut j: usize = i + 1;
        while j < names.len()
            invariant
                i < names@.len(),
                i + 1 <= j <= names@.len(),
                forall|a: int, b: int| 0 <= a < b < names@.len() && a < i ==> (#[trigger] names@[a])@
                    != (#[trigger] names@[b])@,
                forall|b: int| i < b < j ==> names@[i as int]@ != (#[trigger] names@[b])@,
            decreases names@.len() - j,
        {
            if str_eq(names[i].as_str(), names[j].as_str()) {
                return false;
            }
            j = j + 1;
        }
        i = i + 1;
    }
    true
}

fn contains_name(names: &Vec<String>, text: &str) -> (r: bool)
    ensures
        r == names_contain(names@, text@),
{
    let mut i: usize = 0;
    while i < names.len()
        invariant
            i <= names@.len(),
            forall|k: int| 0 <= k < i ==> (#[trigger] names@[k])@ != text@,
        decreases names@.len() - i,
    {
        if str_eq(names[i].as_str(), text) {
            return true;
        }
        i = i + 1;
    }
    false
}

fn interface_names_valid(names: &Vec<String>) -> (r: bool)
    ensures
        r == interface_names_fit(names@),
{
    let mut i: usize = 0;
    while i < names.len()
        invariant
            i <= names@.len(),
            forall|k: int| 0 <= k < i ==> 1 <= byte_len((#[trigger] names@[k])@) <= 15,
        decreases names@.len() - i,
    {
        let length = string_len(&names[i]);
        if length == 0 || length > 15 {
            return false;
        }
        i = i + 1;
    }
    true
}

fn protocols_known(names: &Vec<String>) -> (r: bool)
    ensures
        r == protocols_all_known(names@),
{
    let mut i: usize = 0;
    while i < names.len()
        invariant
            i <= names@.len(),
            forall|k: int| 0 <= k < i ==> known_protocol((#[trigger] names@[k])@),
        decreases names@.len() - i,
    {
        let name = names[i].as_str();
        if !(str_eq(name, "arp") || str_eq(name, "ipv4") || str_eq(name, "ipv6") || str_eq(
            name,
            "lldp",
        ) || str_eq(name, "controlPlane")) {
            return false;
        }
        i = i + 1;
    }
    true
}

fn risks_known(names: &Vec<String>) -> (r: bool)
    ensures
        r == risks_all_known(names@),
{
    let mut i: usize = 0;
    while i < names.len()
        invariant
            i <= names@.len(),
            forall|k: int| 0 <= k < i ==> known_observation_risk((#[trigger] names@[k])@),
        decreases names@.len() - i,
    {
        let name = names[i].as_str();
        if !(str_eq(name, "passiveMetadata") || str_eq(name, "promiscuousCapture")) {
            return false;
        }
        i = i + 1;
    }
    true
}

fn check_observation_names(interfaces: &Vec<String>, protocols: &Vec<String>) -> (r: Result<
    (),
    ScannerError,
>)
    ensures
        match observation_names_failure(interfaces@, protocols@) {
            Some(e) => scan_fails_with(r, e),
            None => r is Ok,
        },
{
    let operation = "start observation session";
    if interfaces.len() == 0 || interfaces.len() > MAX_OBSERVATION_INTERFACES {
        return Err(
            ScannerError::invalid(
                operation,
                "interfaces must contain from one through four explicit interface names",
            ),
        );
    }
    if !interface_names_valid(interfaces) || !all_distinct(interfaces) {
        return Err(
            ScannerError::invalid(
                operation,
                "interface names must be unique, nonempty Linux interface names",
            ),
        );
    }
    if protocols.len() == 0 || protocols.len() > 5 {
        return Err(
            ScannerError::invalid(
                operation,
                "protocols must contain one through five explicit protocol groups",
            ),
        );
    }
    if !all_distinct(protocols) {
        return Err(ScannerError::invalid(operation, "observation protocol groups must be unique"));
    }
    if !protocols_known(protocols) {
        return Err(ScannerError::invalid(operation, "unsupported observation protocol group"));
    }
    Ok(())
}

fn check_observation_limits(
    duration: u32,
    snap: u32,
    results: u32,
    metadata: u32,
    promiscuous: bool,
    risks: &Vec<String>,
) -> (r: Result<(), ScannerError>)
    ensures
        match observation_limits_failure(duration, snap, results, metadata, promiscuous, risks@) {
            Some(e) => scan_fails_with(r, e),
            None => r is Ok,
        },
{
    let operation = "start observation session";
    if duration == 0 || duration > MAX_OBSERVATION_DURATION_MS {
        return Err(ScannerError::invalid(operation, "durationMs must be from 1 through 300000"));
    }
    if snap < 64 || snap > MAX_OBSERVATION_SNAP_LENGTH {
        return Err(ScannerError::invalid(operation, "snapLength must be from 64 through 16384"));
    }
    if results == 0 || results as usize > MAX_OBSERVATION_RESULTS {
        return Err(ScannerError::invalid(operation, "maxResults must be from 1 through 8192"));
    }
    if metadata == 0 || metadata as usize > MAX_OBSERVATION_METADATA_BYTES {
        return Err(
            ScannerError::invalid(operation, "maxMetadataBytes must be from 1 through 16777216"),
        );
    }
    if promiscuous && !contains_name(risks, "promiscuousCapture") {
        return Err(
            ScannerError::invalid(
                operation,
                "promiscuous capture requires allowRisks to contain promiscuousCapture",
            ),
        );
    }
    if !risks_known(risks) {
        return Err(
            ScannerError::invalid(operation, "allowRisks contains an unsupported observation risk"),
        );
    }
    Ok(())
}

fn selected_types(protocols: &Vec<String>) -> (r: Vec<u16>)
    ensures
        r@ == selected_ether_types(protocols@),
{
    let mut ether_types: Vec<u16> = Vec::new();
    if contains_name(protocols, "ipv4") {
        ether_types.push(0x0800);
    }
    if contains_name(protocols, "arp") {
        ether_types.push(0x0806);
    }
    if contains_name(protocols, "ipv6") {
        ether_types.push(0x86dd);
    }
    if contains_name(protocols, "lldp") {
        ether_types.push(0x88cc);
    }
    proof {
        assert(ether_types@ =~= selected_ether_types(protocols@));
    }
    ether_types
}

impl NativeObservationPlan {
    /// Validates a plan before any capture socket is opened.
    pub fn validate(self) -> (r: Result<ValidatedObservationPlan, ScannerError>)
        ensures
            match observation_plan_failure(self) {
                Some(e) => scan_fails_with(r, e),
                None => r matches Ok(out) && admits(self, out),
            },
    {
        match check_observation_names(&self.interfaces, &self.protocols) {
            Ok(()) => {},
            Err(e) => return Err(e),
        }
        let duration_ms = match self.duration_ms {
            Some(value) => value,
            None => 30000,
        };
        let snap_length = match self.snap_length {
            Some(value) => value,
            None => 4096,
        };
        let max_results = match self.max_results {
            Some(value) => value,
            None => 8192,
        };
        let max_metadata_bytes = match self.max_metadata_bytes {
            Some(value) => value,
            None => 16777216,
        };
        let promiscuous = match self.promiscuous {
            Some(value) => value,
            None => false,
        };
        let risks = match self.allow_risks {
            Some(value) => value,
            None => Vec::new(),
        };
        match check_observation_limits(
            duration_ms,
            snap_length,
            max_results,
            max_metadata_bytes,
            promiscuous,
            &risks,
        ) {
            Ok(()) => {},
            Err(e) => return Err(e),
        }
        let ether_types = selected_types(&self.protocols);
        let control_plane = contains_name(&self.protocols, "controlPlane");
        let include_outgoing = match self.include_outgoing {
            Some(value) => value,
            None => false,
        };
        Ok(
            ValidatedObservationPlan {
                interfaces: sort_names(self.interfaces),
                protocols: sort_names(self.protocols),
                ether_types,
                control_plane,
                duration_ms,
                snap_length: snap_length as usize,
                max_results: max_results as usize,
                max_metadata_bytes: max_metadata_bytes as usize,
                include_outgoing,
                promiscuous,
            },
        )
    }
}

/// Whether values are strictly ascending.
pub open spec fn strictly_ascending(s: Seq<u16>) -> bool {
    forall|i: int, j: int| 0 <= i < j < s.len() ==> s[i] < s[j]
}

/// A value merged into a strictly ascending sequence, kept ascending and
/// without repetition.
pub open spec fn insert_sorted(s: Seq<u16>, v: u16) -> Seq<u16>
    decreases s.len(),
{
    if s.len() == 0 {
        seq![v]
    } else if s[0] == v {
        s
    } else if s[0] > v {
        seq![v] + s
    } else {
        seq![s[0]] + insert_sorted(s.drop_first(), v)
    }
}

/// The EtherTypes a capture filter accepts: the selected ones, plus the two
/// VLAN tag types unless control-plane protocols are observed.
pub open spec fn filter_types(ether_types: Seq<u16>, control_plane: bool) -> Seq<u16> {
    if control_plane {
        ether_types
    } else {
        insert_sorted(insert_sorted(ether_types, 0x8100), 0x88a8)
    }
}

/// `BPF_LD | BPF_H | BPF_ABS`.
pub const BPF_LD_H_ABS: u16 = 0x28;

/// `BPF_JMP | BPF_JEQ | BPF_K`.
pub const BPF_JMP_JEQ_K: u16 = 0x15;

/// `BPF_RET | BPF_K`.
pub const BPF_RET_K: u16 = 0x06;

/// A snapshot length as a `u32`, `u32::MAX` when it does not fit.
pub open spec fn snap_u32(snap_length: usize) -> u32 {
    if snap_length > u32::MAX {
        u32::MAX
    } else {
        snap_length as u32
    }
}

/// The capture filter: load the EtherType at offset 12; with control-plane
/// protocols accept every frame, else compare it against each accepted type,
/// jumping to the accepting return on a match and falling through to the
/// rejecting one.
pub open spec fn filter_program(types: Seq<u16>, control_plane: bool, snap_length: usize) -> Seq<
    ClassicBpfInstruction,
> {
    let load = ClassicBpfInstruction { code: BPF_LD_H_ABS, jump_true: 0, jump_false: 0, value: 12 };
    let accept = ClassicBpfInstruction {
        code: BPF_RET_K,
        jump_true: 0,
        jump_false: 0,
        value: snap_u32(snap_length),
    };
    if control_plane {
        seq![load, accept]
    } else {
        seq![load] + Seq::new(
            types.len(),
            |i: int|
                ClassicBpfInstruction {
                    code: BPF_JMP_JEQ_K,
                    jump_true: (types.len() - i) as u8,
                    jump_false: 0,
                    value: types[i] as u32,
                },
        ) + seq![
            ClassicBpfInstruction { code: BPF_RET_K, jump_true: 0, jump_false: 0, value: 0 },
            accept,
        ]
    }
}

fn insert_type(types: &mut Vec<u16>, value: u16)
    requires
        strictly_ascending(old(types)@),
    ensures
        final(types)@ == insert_sorted(old(types)@, value),
        strictly_ascending(final(types)@),
{
    let ghost before = types@;
    let mut i: usize = 0;
    proof {
        assert(before.take(0) =~= Seq::<u16>::empty());
        assert(before.skip(0) =~= before);
    }
    while i < types.len() && types[i] < value
        invariant
            types@ == before,
            i <= before.len(),
            strictly_ascending(before),
            forall|k: int| 0 <= k < i ==> before[k] < value,
            insert_sorted(before, value) == before.take(i as int) + insert_sorted(
                before.skip(i as int),
                value,
            ),
        decreases before.len() - i,
    {
        proof {
            let rest = before.skip(i as int);
            assert(rest[0] == before[i as int]);
            assert(rest.drop_first() =~= before.skip(i + 1));
            assert(before.take(i + 1) =~= before.take(i as int) + seq![before[i as int]]);
        }
        i = i + 1;
    }
    if i < types.len() && types[i] == value {
        proof {
            assert(before.skip(i as int)[0] == value);
            assert(before.take(i as int) + before.skip(i as int) =~= before);
        }
        return;
    }
    types.insert(i, value);
    proof {
        if i < before.len() {
            assert(before.skip(i as int)[0] > value);
        }
        assert(types@ =~= before.take(i as int) + insert_sorted(before.skip(i as int), value));
    }
}

/// Builds the capture filter for the selected EtherTypes.
pub fn observation_filter(ether_types: &Vec<u16>, control_plane: bool, snap_length: usize) -> (r:
    Result<Vec<ClassicBpfInstruction>, ScannerError>)
    requires
        strictly_ascending(ether_types@),
    ensures
        filter_types(ether_types@, control_plane).len() > 255 && !control_plane ==> scan_fails_with(
            r,
            scan_failure(
                ScanFailure::Internal,
                "attach observation filter"@,
                "filter jump overflow"@,
            ),
        ),
        !(filter_types(ether_types@, control_plane).len() > 255 && !control_plane) ==> (r matches Ok(
            program,
        ) && program@ == filter_program(
            filter_types(ether_types@, control_plane),
            control_plane,
            snap_length,
        )),
{
    let snap: u32 = if snap_length > u32::MAX as usize {
        u32::MAX
    } else {
        snap_length as u32
    };
    let mut program: Vec<ClassicBpfInstruction> = Vec::new();
    program.push(ClassicBpfInstruction { code: BPF_LD_H_ABS, jump_true: 0, jump_false: 0, value: 12 });
    if control_plane {
        program.push(ClassicBpfInstruction { code: BPF_RET_K, jump_true: 0, jump_false: 0, value: snap });
        proof {
            assert(program@ =~= filter_program(ether_types@, true, snap_length));
        }
        return Ok(program);
    }
    let mut types = ether_types.clone();
    proof {
        assert(types@ =~= ether_types@);
    }
    insert_type(&mut types, 0x8100);
    insert_type(&mut types, 0x88a8);
    let count = types.len();
    if count > 255 {
        return Err(ScannerError::internal("attach observation filter", "filter jump overflow"));
    }
    let ghost expected = filter_program(types@, false, snap_length);
    let mut i: usize = 0;
    while i < count
        invariant
            count == types@.len(),
            count <= 255,
            i <= count,
            expected == filter_program(types@, false, snap_length),
            program@ == expected.take(i + 1),
        decreases count - i,
    {
        program.push(
            ClassicBpfInstruction {
                code: BPF_JMP_JEQ_K,
                jump_true: (count - i) as u8,
                jump_false: 0,
                value: types[i] as u32,
            },
        );
        proof {
            assert(program@ =~= expected.take(i + 2));
        }
        i = i + 1;
    }
    program.push(ClassicBpfInstruction { code: BPF_RET_K, jump_true: 0, jump_false: 0, value: 0 });
    program.push(ClassicBpfInstruction { code: BPF_RET_K, jump_true: 0, jump_false: 0, value: snap });
    proof {
        assert(program@ =~= expected);
    }
    Ok(program)
}

/// Every capture filter the observation builds is a structurally valid
/// classic BPF program: its jumps land inside it and it ends in a return.
pub proof fn observation_filter_is_valid_bpf(
    types: Seq<u16>,
    control_plane: bool,
    snap_length: usize,
)
    requires
        types.len() <= 255,
    ensures
        valid_classic_bpf(filter_program(types, control_plane, snap_length)),
{
    let program = filter_program(types, control_plane, snap_length);
    assert(BPF_LD_H_ABS & 0x07 == 0) by (bit_vector);
    assert(BPF_RET_K & 0x07 == 6) by (bit_vector);
    assert(BPF_JMP_JEQ_K & 0x07 == 5) by (bit_vector);
    assert(BPF_JMP_JEQ_K & 0xf0 == 0x10) by (bit_vector);
    assert forall|i: int| 0 <= i < program.len() implies #[trigger] jump_stays_inside(program, i) by {
        if !control_plane && 1 <= i <= types.len() {
            assert(program[i].code == BPF_JMP_JEQ_K);
            assert(program[i].jump_true == types.len() - (i - 1));
        }
    }
}

proof fn lemma_insert_sorted(s: Seq<u16>, v: u16)
    requires
        strictly_ascending(s),
    ensures
        strictly_ascending(insert_sorted(s, v)),
        insert_sorted(s, v).len() <= s.len() + 1,
        forall|x: u16| #[trigger] insert_sorted(s, v).contains(x) <==> (s.contains(x) || x == v),
    decreases s.len(),
{
    if s.len() > 0 && s[0] < v {
        let rest = s.drop_first();
        assert(strictly_ascending(rest)) by {
            assert forall|i: int, j: int| 0 <= i < j < rest.len() implies rest[i] < rest[j] by {
                assert(rest[i] == s[i + 1] && rest[j] == s[j + 1]);
            }
        }
        lemma_insert_sorted(rest, v);
        let tail = insert_sorted(rest, v);
        let out = seq![s[0]] + tail;
        assert forall|x: u16| tail.contains(x) implies s[0] < x by {
            if rest.contains(x) {
                let k = choose|k: int| 0 <= k < rest.len() && rest[k] == x;
                assert(s[k + 1] == x);
            }
        }
        assert forall|i: int, j: int| 0 <= i < j < out.len() implies out[i] < out[j] by {
            if i == 0 {
                assert(tail.contains(out[j]));
            } else {
                assert(out[i] == tail[i - 1] && out[j] == tail[j - 1]);
            }
        }
        assert forall|x: u16| #[trigger] out.contains(x) <==> (s.contains(x) || x == v) by {
            if out.contains(x) {
                let k = choose|k: int| 0 <= k < out.len() && out[k] == x;
                if k > 0 {
                    assert(tail[k - 1] == x);
                    assert(tail.contains(x));
                    if rest.contains(x) {
                        let m = choose|m: int| 0 <= m < rest.len() && rest[m] == x;
                        assert(s[m + 1] == x);
                    }
                }
            }
            if s.contains(x) {
                let k = choose|k: int| 0 <= k < s.len() && s[k] == x;
                if k > 0 {
                    assert(rest[k - 1] == x);
                    assert(tail.contains(x));
                    let m = choose|m: int| 0 <= m < tail.len() && tail[m] == x;
                    assert(out[m + 1] == x);
                } else {
                    assert(out[0] == x);
                }
            }
            if x == v {
                assert(tail.contains(v));
                let m = choose|m: int| 0 <= m < tail.len() && tail[m] == v;
                assert(out[m + 1] == v);
            }
        }
    } else if s.len() > 0 && s[0] > v {
        let out = seq![v] + s;
        assert forall|i: int, j: int| 0 <= i < j < out.len() implies out[i] < out[j] by {
            if i > 0 {
                assert(out[i] == s[i - 1] && out[j] == s[j - 1]);
            } else {
                assert(out[j] == s[j - 1]);
            }
        }
        assert forall|x: u16| #[trigger] out.contains(x) <==> (s.contains(x) || x == v) by {
            if out.contains(x) {
                let k = choose|k: int| 0 <= k < out.len() && out[k] == x;
                if k > 0 {
                    assert(s[k - 1] == x);
                }
            }
            if s.contains(x) {
                let k = choose|k: int| 0 <= k < s.len() && s[k] == x;
                assert(out[k + 1] == x);
            }
            if x == v {
                assert(out[0] == v);
            }
        }
    } else if s.len() > 0 {
        assert(s.contains(v)) by {
            assert(s[0] == v);
        }
    } else {
        assert(seq![v][0] == v);
    }
}

/// The EtherTypes an admitted plan selects are strictly ascending, and the
/// filter built for them has at most six comparisons, so building it never
/// fails and the program is valid.
pub proof fn selected_types_make_a_valid_filter(protocols: Seq<String>, control_plane: bool, snap_length: usize)
    ensures
        strictly_ascending(selected_ether_types(protocols)),
        filter_types(selected_ether_types(protocols), control_plane).len() <= 6,
        valid_classic_bpf(
            filter_program(
                filter_types(selected_ether_types(protocols), control_plane),
                control_plane,
                snap_length,
            ),
        ),
{
    let types = selected_ether_types(protocols);
    assert(strictly_ascending(types));
    if !control_plane {
        lemma_insert_sorted(types, 0x8100);
        lemma_insert_sorted(insert_sorted(types, 0x8100), 0x88a8);
    }
    observation_filter_is_valid_bpf(filter_types(types, control_plane), control_plane, snap_length);
}

/// A big-endian 16-bit value.
pub open spec fn be16(high: u8, low: u8) -> u16 {
    (high * 256 + low) as u16
}

/// The link header of an Ethernet frame: addresses, the EtherType after at
/// most two VLAN tags, the VLAN identifiers, and where the network header
/// starts.
pub struct LinkHeader {
    pub destination_mac: Vec<u8>,
    pub source_mac: Vec<u8>,
    pub ether_type: u16,
    pub vlan_ids: Vec<u32>,
    pub offset: usize,
}

/// Whether an EtherType is an 802.1Q or 802.1ad VLAN tag.
pub open spec fn is_vlan_tag(ether_type: u16) -> bool {
    ether_type == 0x8100 || ether_type == 0x88a8
}

/// Walks the VLAN tags of a frame from `offset`: at most two complete tags,
/// each giving a 12-bit identifier and the next EtherType.
pub open spec fn vlan_walk(data: Seq<u8>, offset: int, ether_type: u16, vlans: Seq<u32>) -> (
    u16,
    Seq<u32>,
    int,
)
    decreases 2 - vlans.len(),
{
    if is_vlan_tag(ether_type) && vlans.len() < 2 && offset + 4 <= data.len() {
        vlan_walk(
            data,
            offset + 4,
            be16(data[offset + 2], data[offset + 3]),
            vlans.push((be16(data[offset], data[offset + 1]) & 0x0fff) as u32),
        )
    } else {
        (ether_type, vlans, offset)
    }
}

/// The link header the decoder reads from a frame.
pub open spec fn link_header(data: Seq<u8>) -> (Seq<u8>, Seq<u8>, u16, Seq<u32>, int) {
    let destination = if data.len() >= 6 {
        data.take(6)
    } else {
        Seq::empty()
    };
    let source = if data.len() >= 12 {
        data.subrange(6, 12)
    } else {
        Seq::empty()
    };
    let ether_type = if data.len() >= 14 {
        be16(data[12], data[13])
    } else {
        0
    };
    let (ether, vlans, offset) = vlan_walk(data, 14, ether_type, Seq::empty());
    (destination, source, ether, vlans, offset)
}

fn copy_range(data: &[u8], start: usize, end: usize) -> (r: Vec<u8>)
    requires
        start <= end <= data@.len(),
    ensures
        r@ == data@.subrange(start as int, end as int),
{
    let mut out: Vec<u8> = Vec::new();
    let mut i: usize = start;
    while i < end
        invariant
            start <= i <= end <= data@.len(),
            out@ == data@.subrange(start as int, i as int),
        decreases end - i,
    {
        out.push(data[i]);
        proof {
            assert(out@ =~= data@.subrange(start as int, i + 1));
        }
        i = i + 1;
    }
    out
}

/// Decodes the link header of a captured frame.
pub fn decode_link_header(data: &[u8]) -> (r: LinkHeader)
    ensures
        (r.destination_mac@, r.source_mac@, r.ether_type, r.vlan_ids@, r.offset as int)
            == link_header(data@),
{
    let destination_mac = if data.len() >= 6 {
        copy_range(data, 0, 6)
    } else {
        Vec::new()
    };
    let source_mac = if data.len() >= 12 {
        copy_range(data, 6, 12)
    } else {
        Vec::new()
    };
    let mut ether_type: u16 = if data.len() >= 14 {
        data[12] as u16 * 256 + data[13] as u16
    } else {
        0
    };
    let mut offset: usize = 14;
    let mut vlan_ids: Vec<u32> = Vec::new();
    proof {
        assert(destination_mac@ =~= link_header(data@).0);
    }
    while (ether_type == 0x8100 || ether_type == 0x88a8) && vlan_ids.len() < 2
        invariant_except_break
            vlan_walk(data@, offset as int, ether_type, vlan_ids@) == vlan_walk(
                data@,
                14,
                if data@.len() >= 14 {
                    be16(data@[12], data@[13])
                } else {
                    0
                },
                Seq::empty(),
            ),
        invariant
            14 <= offset <= 14 + 4 * vlan_ids@.len(),
            vlan_ids@.len() <= 2,
        ensures
            vlan_walk(data@, 14, if data@.len() >= 14 {
                be16(data@[12], data@[13])
            } else {
                0
            }, Seq::empty()) == (ether_type, vlan_ids@, offset as int),
        decreases 2 - vlan_ids@.len(),
    {
        if offset + 4 > data.len() {
            break;
        }
        let tag = (data[offset] as u16 * 256 + data[offset + 1] as u16) & 0x0fff;
        vlan_ids.push(tag as u32);
        ether_type = data[offset + 2] as u16 * 256 + data[offset + 3] as u16;
        offset = offset + 4;
    }
    LinkHeader { destination_mac, source_mac, ether_type, vlan_ids, offset }
}

/// The name of an IP protocol number as observed rows report it.
pub open spec fn ip_protocol_name(protocol: u8) -> Seq<char> {
    if protocol == 1 {
        "icmpv4"@
    } else if protocol == 6 {
        "tcp"@
    } else if protocol == 17 {
        "udp"@
    } else if protocol == 58 {
        "icmpv6"@
    } else {
        "ip"@
    }
}

/// The name of an IP protocol number as observed rows report it.
pub fn network_protocol_name(protocol: u8) -> (r: &'static str)
    ensures
        r@ == ip_protocol_name(protocol),
{
    match protocol {
        1 => "icmpv4",
        6 => "tcp",
        17 => "udp",
        58 => "icmpv6",
        _ => "ip",
    }
}

/// The passive protocols the metadata decoder recognises.
#[derive(Clone, Copy, Debug, PartialEq, Eq, Structural)]
pub enum PassiveProtocol {
    Arp,
    Ipv6NeighborDiscovery,
    Dhcpv4,
    Dhcpv6,
    Mdns,
    Llmnr,
    Nbns,
    Ssdp,
    WsDiscovery,
    RouterAdvertisement,
    RouterSolicitation,
    Ipv6Redirect,
    Lldp,
    Stp,
    Lacp,
    Vrrp,
    Igmp,
    Mld,
    Rip,
    Ospf,
    Other,
}

/// The reported name of a passive protocol.
pub open spec fn passive_name(protocol: PassiveProtocol) -> Seq<char> {
    match protocol {
        PassiveProtocol::Arp => "arp"@,
        PassiveProtocol::Ipv6NeighborDiscovery => "ndp"@,
        PassiveProtocol::Dhcpv4 => "dhcpv4"@,
        PassiveProtocol::Dhcpv6 => "dhcpv6"@,
        PassiveProtocol::Mdns => "mdns"@,
        PassiveProtocol::Llmnr => "llmnr"@,
        PassiveProtocol::Nbns => "nbns"@,
        PassiveProtocol::Ssdp => "ssdp"@,
        PassiveProtocol::WsDiscovery => "wsDiscovery"@,
        PassiveProtocol::RouterAdvertisement => "routerAdvertisement"@,
        PassiveProtocol::RouterSolicitation => "routerSolicitation"@,
        PassiveProtocol::Ipv6Redirect => "ipv6Redirect"@,
        PassiveProtocol::Lldp => "lldp"@,
        PassiveProtocol::Stp => "stp"@,
        PassiveProtocol::Lacp => "lacp"@,
        PassiveProtocol::Vrrp => "vrrp"@,
        PassiveProtocol::Igmp => "igmp"@,
        PassiveProtocol::Mld => "mld"@,
        PassiveProtocol::Rip => "rip"@,
        PassiveProtocol::Ospf => "ospf"@,
        PassiveProtocol::Other => "other"@,
    }
}

/// The reported name of a passive protocol.
pub fn passive_protocol_name(protocol: PassiveProtocol) -> (r: &'static str)
    ensures
        r@ == passive_name(protocol),
{
    match protocol {
        PassiveProtocol::Arp => "arp",
        PassiveProtocol::Ipv6NeighborDiscovery => "ndp",
        PassiveProtocol::Dhcpv4 => "dhcpv4",
        PassiveProtocol::Dhcpv6 => "dhcpv6",
        PassiveProtocol::Mdns => "mdns",
        PassiveProtocol::Llmnr => "llmnr",
        PassiveProtocol::Nbns => "nbns",
        PassiveProtocol::Ssdp => "ssdp",
        PassiveProtocol::WsDiscovery => "wsDiscovery",
        PassiveProtocol::RouterAdvertisement => "routerAdvertisement",
        PassiveProtocol::RouterSolicitation => "routerSolicitation",
        PassiveProtocol::Ipv6Redirect => "ipv6Redirect",
        PassiveProtocol::Lldp => "lldp",
        PassiveProtocol::Stp => "stp",
        PassiveProtocol::Lacp => "lacp",
        PassiveProtocol::Vrrp => "vrrp",
        PassiveProtocol::Igmp => "igmp",
        PassiveProtocol::Mld => "mld",
        PassiveProtocol::Rip => "rip",
        PassiveProtocol::Ospf => "ospf",
        PassiveProtocol::Other => "other",
    }
}

/// One metadata field of an observed frame.
#[derive(Clone, Debug, PartialEq, Eq)]
pub struct NativeObservationMetadataField {
    pub key: String,
    pub value: Vec<u8>,
}

/// One observed frame.
#[derive(Clone, Debug)]
pub struct NativeObservationRow {
    pub sequence: String,
    pub interface_index: u32,
    pub timestamp_nanoseconds: String,
    pub wall_time_milliseconds: Option<String>,
    pub original_length: u32,
    pub captured_length: u32,
    pub packet_type: u32,
    pub direction: String,
    pub protocol: String,
    pub source_mac: Vec<u8>,
    pub destination_mac: Vec<u8>,
    pub ether_type: u32,
    pub vlan_ids: Vec<u32>,
    pub source_address: Option<String>,
    pub destination_address: Option<String>,
    pub source_port: Option<u32>,
    pub destination_port: Option<u32>,
    pub metadata: Vec<NativeObservationMetadataField>,
    pub truncated: bool,
}

/// The running totals of an observation session.
#[derive(Clone, Copy, Debug, Default, PartialEq, Eq, Structural)]
pub struct ObservationCounters {
    pub inspected: u64,
    pub captured_bytes: u64,
    pub accepted: u64,
    pub dropped: u64,
    pub kernel_dropped: u64,
    pub retention_dropped: u64,
    pub filtered: u64,
    pub truncated: u64,
    pub metadata_bytes: usize,
}

/// An observation progress report, each counter spelled in base ten.
#[derive(Clone, Debug, Default)]
pub struct NativeObservationProgress {
    pub inspected: String,
    pub captured_bytes: String,
    pub accepted: String,
    pub dropped: String,
    pub kernel_dropped: String,
    pub retention_dropped: String,
    pub filtered: String,
    pub truncated: String,
}

/// A batch of retained rows with the session state and progress.
#[derive(Clone, Debug)]
pub struct NativeObservationBatch {
    pub state: String,
    pub rows: Vec<NativeObservationRow>,
    pub progress: NativeObservationProgress,
}

/// The result of one observation session.
#[derive(Clone, Debug)]
pub struct NativeObservationRun {
    pub schema_version: u32,
    pub state: String,
    pub interfaces: Vec<String>,
    pub protocols: Vec<String>,
    pub promiscuous: bool,
    pub include_outgoing: bool,
    pub progress: NativeObservationProgress,
}

/// Whether a report spells each counter in base ten.
pub open spec fn observation_reports(p: NativeObservationProgress, c: ObservationCounters) -> bool {
    &&& p.inspected@ == decimal(c.inspected as nat)
    &&& p.captured_bytes@ == decimal(c.captured_bytes as nat)
    &&& p.accepted@ == decimal(c.accepted as nat)
    &&& p.dropped@ == decimal(c.dropped as nat)
    &&& p.kernel_dropped@ == decimal(c.kernel_dropped as nat)
    &&& p.retention_dropped@ == decimal(c.retention_dropped as nat)
    &&& p.filtered@ == decimal(c.filtered as nat)
    &&& p.truncated@ == decimal(c.truncated as nat)
}

/// The progress report of a set of counters.
pub fn observation_progress(c: &ObservationCounters) -> (r: NativeObservationProgress)
    ensures
        observation_reports(r, *c),
{
    NativeObservationProgress {
        inspected: decimal_string(c.inspected),
        captured_bytes: decimal_string(c.captured_bytes),
        accepted: decimal_string(c.accepted),
        dropped: decimal_string(c.dropped),
        kernel_dropped: decimal_string(c.kernel_dropped),
        retention_dropped: decimal_string(c.retention_dropped),
        filtered: decimal_string(c.filtered),
        truncated: decimal_string(c.truncated),
    }
}

/// Whether a session may inspect another frame: not cancelled, and within
/// the inspected-frame and captured-byte budgets.
pub fn observation_budget_remaining(c: &ObservationCounters, cancelling: bool) -> (r: bool)
    ensures
        r == (!cancelling && c.inspected < MAX_INSPECTED_FRAMES && c.captured_bytes
            < MAX_CAPTURED_BYTES),
{
    !cancelling && c.inspected < MAX_INSPECTED_FRAMES && c.captured_bytes < MAX_CAPTURED_BYTES
}

/// The control-plane protocols a `controlPlane` group selects.
pub open spec fn control_plane_protocol(name: Seq<char>) -> bool {
    ||| name == "routerAdvertisement"@
    ||| name == "routerSolicitation"@
    ||| name == "ipv6Redirect"@
    ||| name == "lldp"@
    ||| name == "stp"@
    ||| name == "lacp"@
    ||| name == "vrrp"@
    ||| name == "igmp"@
    ||| name == "mld"@
    ||| name == "rip"@
    ||| name == "ospf"@
}

fn is_control_plane_protocol(name: &str) -> (r: bool)
    ensures
        r == control_plane_protocol(name@),
{
    str_eq(name, "routerAdvertisement") || str_eq(name, "routerSolicitation") || str_eq(
        name,
        "ipv6Redirect",
    ) || str_eq(name, "lldp") || str_eq(name, "stp") || str_eq(name, "lacp") || str_eq(
        name,
        "vrrp",
    ) || str_eq(name, "igmp") || str_eq(name, "mld") || str_eq(name, "rip") || str_eq(
        name,
        "ospf",
    )
}

/// A `usize` sum, saturating.
pub open spec fn usat(a: int, b: int) -> int {
    if a + b > usize::MAX {
        usize::MAX as int
    } else {
        a + b
    }
}

/// The bytes a row's fields are charged: every key and value.
pub open spec fn charged_fields(fields: Seq<NativeObservationMetadataField>) -> int
    decreases fields.len(),
{
    if fields.len() == 0 {
        0
    } else {
        usat(usat(charged_fields(fields.drop_last()), byte_len(fields.last().key@) as int), fields.last().value@.len() as int)
    }
}

/// The byte length of an optional text.
pub open spec fn optional_len(text: Option<String>) -> int {
    match text {
        Some(t) => byte_len(t@) as int,
        None => 0,
    }
}

/// The bytes a retained row is charged against the metadata budget: a fixed
/// 160, the address texts, and its fields.
pub open spec fn charged_bytes(row: NativeObservationRow) -> int {
    usat(
        usat(usat(160, optional_len(row.source_address)), optional_len(row.destination_address)),
        charged_fields(row.metadata@),
    )
}

fn optional_length(text: &Option<String>) -> (r: usize)
    ensures
        r == optional_len(*text),
{
    match text {
        Some(t) => string_len(t),
        None => 0,
    }
}

fn charged_row_bytes(row: &NativeObservationRow) -> (r: usize)
    ensures
        r == charged_bytes(*row),
{
    let mut fields: usize = 0;
    let mut i: usize = 0;
    proof {
        assert(row.metadata@.take(0) =~= Seq::<NativeObservationMetadataField>::empty());
    }
    while i < row.metadata.len()
        invariant
            i <= row.metadata@.len(),
            fields == charged_fields(row.metadata@.take(i as int)),
        decreases row.metadata@.len() - i,
    {
        proof {
            assert(row.metadata@.take(i + 1).drop_last() =~= row.metadata@.take(i as int));
        }
        let field = &row.metadata[i];
        fields = fields.saturating_add(string_len(&field.key)).saturating_add(field.value.len());
        i = i + 1;
    }
    proof {
        assert(row.metadata@.take(i as int) =~= row.metadata@);
    }
    let addresses = 160usize.saturating_add(optional_length(&row.source_address)).saturating_add(
        optional_length(&row.destination_address),
    );
    addresses.saturating_add(fields)
}

/// A `u64` counter increased by one, saturating.
pub open spec fn bump64(v: u64) -> u64 {
    v.saturating_add(1)
}

/// What happens to one captured frame.
#[derive(Clone, Copy, Debug, PartialEq, Eq, Structural)]
pub enum FrameDisposition {
    /// Not selected: paused, outgoing without consent, or an unselected type.
    Filtered,
    /// Selected, but over the result or metadata budget.
    RetentionDropped,
    /// Retained as the next row.
    Accepted,
}

/// Whether a frame's EtherType or protocol is selected by a plan.
pub open spec fn frame_selected(plan: ValidatedObservationPlan, row: NativeObservationRow) -> bool {
    let ether: u16 = if row.ether_type <= 0xffff {
        row.ether_type as u16
    } else {
        0
    };
    plan.ether_types@.contains(ether) || (plan.control_plane && control_plane_protocol(
        row.protocol@,
    ))
}

/// The disposition of a captured frame, and the counters after it.
pub open spec fn frame_step(
    c: ObservationCounters,
    plan: ValidatedObservationPlan,
    paused: bool,
    row: NativeObservationRow,
) -> (FrameDisposition, ObservationCounters) {
    let c = ObservationCounters {
        inspected: bump64(c.inspected),
        captured_bytes: c.captured_bytes.saturating_add(row.captured_length as u64),
        ..c
    };
    let filtered = ObservationCounters { filtered: bump64(c.filtered), ..c };
    if paused {
        (FrameDisposition::Filtered, filtered)
    } else if row.packet_type == PACKET_OUTGOING && !plan.include_outgoing {
        (FrameDisposition::Filtered, filtered)
    } else if !frame_selected(plan, row) {
        (FrameDisposition::Filtered, filtered)
    } else if c.accepted >= plan.max_results || usat(c.metadata_bytes as int, charged_bytes(row))
        > plan.max_metadata_bytes {
        (
            FrameDisposition::RetentionDropped,
            ObservationCounters {
                dropped: bump64(c.dropped),
                retention_dropped: bump64(c.retention_dropped),
                ..c
            },
        )
    } else {
        (
            FrameDisposition::Accepted,
            ObservationCounters {
                truncated: if row.truncated {
                    bump64(c.truncated)
                } else {
                    c.truncated
                },
                accepted: bump64(c.accepted),
                metadata_bytes: usat(c.metadata_bytes as int, charged_bytes(row)) as usize,
                ..c
            },
        )
    }
}

fn contains_type(types: &Vec<u16>, value: u16) -> (r: bool)
    ensures
        r == types@.contains(value),
{
    let mut i: usize = 0;
    while i < types.len()
        invariant
            i <= types@.len(),
            forall|k: int| 0 <= k < i ==> types@[k] != value,
        decreases types@.len() - i,
    {
        if types[i] == value {
            return true;
        }
        i = i + 1;
    }
    false
}

/// Counts one captured frame and decides whether it is retained; a retained
/// row gets the next sequence number.
pub fn observe_frame(
    counters: &mut ObservationCounters,
    plan: &ValidatedObservationPlan,
    paused: bool,
    row: &mut NativeObservationRow,
) -> (r: FrameDisposition)
    ensures
        (r, *final(counters)) == frame_step(*old(counters), *plan, paused, *old(row)),
        r == FrameDisposition::Accepted ==> final(row).sequence@ == decimal(
            old(counters).accepted as nat,
        ),
        final(row).metadata == old(row).metadata,
        final(row).protocol == old(row).protocol,
        final(row).truncated == old(row).truncated,
{
    counters.inspected = counters.inspected.saturating_add(1);
    counters.captured_bytes = counters.captured_bytes.saturating_add(row.captured_length as u64);
    if paused {
        counters.filtered = counters.filtered.saturating_add(1);
        return FrameDisposition::Filtered;
    }
    if row.packet_type == PACKET_OUTGOING as u32 && !plan.include_outgoing {
        counters.filtered = counters.filtered.saturating_add(1);
        return FrameDisposition::Filtered;
    }
    let ether: u16 = if row.ether_type <= 0xffff {
        row.ether_type as u16
    } else {
        0
    };
    let selected = contains_type(&plan.ether_types, ether) || (plan.control_plane
        && is_control_plane_protocol(row.protocol.as_str()));
    if !selected {
        counters.filtered = counters.filtered.saturating_add(1);
        return FrameDisposition::Filtered;
    }
    let estimated = charged_row_bytes(row);
    let accepted: usize = if counters.accepted > usize::MAX as u64 {
        usize::MAX
    } else {
        counters.accepted as usize
    };
    if accepted >= plan.max_results || counters.metadata_bytes.saturating_add(estimated)
        > plan.max_metadata_bytes {
        counters.dropped = counters.dropped.saturating_add(1);
        counters.retention_dropped = counters.retention_dropped.saturating_add(1);
        return FrameDisposition::RetentionDropped;
    }
    row.sequence = decimal_string(counters.accepted);
    if row.truncated {
        counters.truncated = counters.truncated.saturating_add(1);
    }
    counters.accepted = counters.accepted.saturating_add(1);
    counters.metadata_bytes = counters.metadata_bytes.saturating_add(estimated);
    FrameDisposition::Accepted
}

/// The counters once the kernel's drop count is known.
pub fn finish_observation_counters(counters: &mut ObservationCounters, kernel_dropped: u64)
    ensures
        *final(counters) == (ObservationCounters {
            kernel_dropped,
            dropped: old(counters).dropped.saturating_add(kernel_dropped),
            ..*old(counters)
        }),
{
    counters.kernel_dropped = kernel_dropped;
    counters.dropped = counters.dropped.saturating_add(kernel_dropped);
}

/// The states of an observation session.
#[derive(Clone, Copy, Debug, PartialEq, Eq, Structural)]
pub enum ObservationState {
    Running,
    Paused,
    Cancelling,
    Completed,
    Failed,
}

/// The reported name of an observation state.
pub open spec fn observation_state_name(state: ObservationState) -> Seq<char> {
    match state {
        ObservationState::Running => "running"@,
        ObservationState::Paused => "paused"@,
        ObservationState::Cancelling => "cancelling"@,
        ObservationState::Completed => "completed"@,
        ObservationState::Failed => "failed"@,
    }
}

/// The shared control of one observation session: its state, the retained
/// rows not yet handed out, the last published counters, and whether the
/// capture sockets opened.
pub struct ObservationControl {
    state: ObservationState,
    rows: VecDeque<NativeObservationRow>,
    counters: ObservationCounters,
    readiness: Option<Result<(), ScannerError>>,
}

/// The mathematical state of an [`ObservationControl`].
pub struct ObservationControlView {
    pub state: ObservationState,
    pub rows: Seq<NativeObservationRow>,
    pub counters: ObservationCounters,
    pub readiness: Option<Result<(), ScannerError>>,
}

impl ObservationControlView {
    /// The state after a readiness result arrives: it is kept only when none
    /// was settled before.
    pub open spec fn settled(self, result: Result<(), ScannerError>) -> ObservationControlView {
        ObservationControlView {
            readiness: if self.readiness is None {
                Some(result)
            } else {
                self.readiness
            },
            ..self
        }
    }
}

/// The first readiness settlement wins: from an unsettled control, settling
/// `first` and then `second` leaves `first` as the readiness, and nothing else
/// of the control changes.
pub proof fn first_settlement_wins(
    control: ObservationControlView,
    first: Result<(), ScannerError>,
    second: Result<(), ScannerError>,
)
    requires
        control.readiness is None,
    ensures
        control.settled(first).settled(second).readiness == Some(first),
        control.settled(first).settled(second).state == control.state,
        control.settled(first).settled(second).rows == control.rows,
        control.settled(first).settled(second).counters == control.counters,
{
}

impl View for ObservationControl {
    type V = ObservationControlView;

    closed spec fn view(&self) -> ObservationControlView {
        ObservationControlView {
            state: self.state,
            rows: self.rows@,
            counters: self.counters,
            readiness: self.readiness,
        }
    }
}

impl ObservationControl {
    /// A running session with nothing retained and readiness unsettled.
    pub fn new() -> (r: Self)
        ensures
            r@.state == ObservationState::Running,
            r@.rows.len() == 0,
            r@.readiness is None,
    {
        ObservationControl {
            state: ObservationState::Running,
            rows: VecDeque::new(),
            counters: ObservationCounters {
                inspected: 0,
                captured_bytes: 0,
                accepted: 0,
                dropped: 0,
                kernel_dropped: 0,
                retention_dropped: 0,
                filtered: 0,
                truncated: 0,
                metadata_bytes: 0,
            },
            readiness: None,
        }
    }

    /// Pauses a running session.
    pub fn pause(&mut self) -> (r: Result<(), ScannerError>)
        ensures
            old(self)@.state == ObservationState::Running ==> r is Ok && final(self)@ == (
            ObservationControlView { state: ObservationState::Paused, ..old(self)@ }),
            old(self)@.state != ObservationState::Running ==> final(self)@ == old(self)@
                && scan_fails_with(
                r,
                scan_failure(
                    ScanFailure::Lifecycle,
                    "pause observation"@,
                    "session is not running"@,
                ),
            ),
    {
        if self.state == ObservationState::Running {
            self.state = ObservationState::Paused;
            Ok(())
        } else {
            Err(ScannerError::lifecycle("pause observation", "session is not running"))
        }
    }

    /// Resumes a paused session.
    pub fn resume(&mut self) -> (r: Result<(), ScannerError>)
        ensures
            old(self)@.state == ObservationState::Paused ==> r is Ok && final(self)@ == (
            ObservationControlView { state: ObservationState::Running, ..old(self)@ }),
            old(self)@.state != ObservationState::Paused ==> final(self)@ == old(self)@
                && scan_fails_with(
                r,
                scan_failure(
                    ScanFailure::Lifecycle,
                    "resume observation"@,
                    "session is not paused"@,
                ),
            ),
    {
        if self.state == ObservationState::Paused {
            self.state = ObservationState::Running;
            Ok(())
        } else {
            Err(ScannerError::lifecycle("resume observation", "session is not paused"))
        }
    }

    /// Requests cancellation; a completed session stays completed.
    pub fn cancel(&mut self)
        ensures
            final(self)@ == (ObservationControlView {
                state: if old(self)@.state == ObservationState::Completed {
                    ObservationState::Completed
                } else {
                    ObservationState::Cancelling
                },
                ..old(self)@
            }),
    {
        if self.state != ObservationState::Completed {
            self.state = ObservationState::Cancelling;
        }
    }

    /// The reported name of the current state.
    pub fn state_name(&self) -> (r: &'static str)
        ensures
            r@ == observation_state_name(self@.state),
    {
        match self.state {
            ObservationState::Running => "running",
            ObservationState::Paused => "paused",
            ObservationState::Cancelling => "cancelling",
            ObservationState::Completed => "completed",
            ObservationState::Failed => "failed",
        }
    }

    /// Whether the session is paused.
    pub fn paused(&self) -> (r: bool)
        ensures
            r == (self@.state == ObservationState::Paused),
    {
        self.state == ObservationState::Paused
    }

    /// Whether cancellation was requested.
    pub fn cancelling(&self) -> (r: bool)
        ensures
            r == (self@.state == ObservationState::Cancelling),
    {
        self.state == ObservationState::Cancelling
    }

    /// Retains one accepted row.
    pub fn push_row(&mut self, row: NativeObservationRow)
        ensures
            final(self)@ == (ObservationControlView { rows: old(self)@.rows.push(row), ..old(self)@ }),
    {
        self.rows.push_back(row);
    }

    /// Publishes the latest counters.
    pub fn publish(&mut self, counters: &ObservationCounters)
        ensures
            final(self)@ == (ObservationControlView { counters: *counters, ..old(self)@ }),
    {
        self.counters = *counters;
    }

    /// Hands out up to `maximum` retained rows, oldest first, with the state
    /// and progress.
    pub fn batch(&mut self, maximum: usize) -> (r: NativeObservationBatch)
        ensures
            r.rows@ == old(self)@.rows.take(
                if maximum < old(self)@.rows.len() {
                    maximum as int
                } else {
                    old(self)@.rows.len() as int
                },
            ),
            final(self)@ == (ObservationControlView {
                rows: old(self)@.rows.skip(r.rows@.len() as int),
                ..old(self)@
            }),
            r.state@ == observation_state_name(old(self)@.state),
            observation_reports(r.progress, old(self)@.counters),
    {
        let ghost before = self.rows@;
        let count = if maximum < self.rows.len() {
            maximum
        } else {
            self.rows.len()
        };
        let mut rows: Vec<NativeObservationRow> = Vec::new();
        let mut i: usize = 0;
        proof {
            assert(before.skip(0) =~= before);
        }
        while i < count
            invariant
                i <= count,
                count <= before.len(),
                rows@ == before.take(i as int),
                self.rows@ == before.skip(i as int),
                self.state == old(self).state,
                self.counters == old(self).counters,
                self.readiness == old(self).readiness,
            decreases count - i,
        {
            match self.rows.pop_front() {
                Some(row) => rows.push(row),
                None => {},
            }
            proof {
                assert(rows@ =~= before.take(i + 1));
                assert(self.rows@ =~= before.skip(i + 1));
            }
            i = i + 1;
        }
        NativeObservationBatch {
            state: owned(self.state_name()),
            rows,
            progress: observation_progress(&self.counters),
        }
    }

    /// The last published counters as a progress report.
    pub fn progress(&self) -> (r: NativeObservationProgress)
        ensures
            observation_reports(r, self@.counters),
    {
        observation_progress(&self.counters)
    }

    /// Records whether the capture sockets opened; only the first result
    /// counts.
    pub fn settle_ready(&mut self, result: Result<(), ScannerError>)
        ensures
            final(self)@ == old(self)@.settled(result),
    {
        if self.readiness.is_none() {
            self.readiness = Some(result);
        }
    }

    /// Whether the capture sockets opened: `None` until that is settled
    /// (the caller waits for the settlement and asks again), then the first
    /// settled result.
    pub fn ready(&self) -> (r: &Option<Result<(), ScannerError>>)
        ensures
            *r == self@.readiness,
    {
        &self.readiness
    }

    /// Marks the session failed.
    pub fn fail(&mut self)
        ensures
            final(self)@ == (ObservationControlView { state: ObservationState::Failed, ..old(self)@ }),
    {
        self.state = ObservationState::Failed;
    }

    /// Marks the session completed.
    pub fn complete(&mut self)
        ensures
            final(self)@ == (ObservationControlView {
                state: ObservationState::Completed,
                ..old(self)@
            }),
    {
        self.state = ObservationState::Completed;
    }
}

/// What an IP header leaves reachable of the transport layer.
pub enum UpperLayer {
    /// A transport header and payload (`known` when the protocol is one the
    /// decoder recognises).
    Payload { protocol: u8, payload: Vec<u8>, unfragmented: bool, known: bool },
    /// Too little of the transport layer was captured.
    Insufficient { protocol: u8 },
    /// A later fragment, without the transport header.
    NonFirstFragment { protocol: u8 },
    /// Encrypted (ESP) or nothing next.
    Opaque,
}

/// The transport columns of an observed row.
pub struct TransportFields {
    pub protocol: String,
    pub source_address: Option<String>,
    pub destination_address: Option<String>,
    pub source_port: Option<u32>,
    pub destination_port: Option<u32>,
}

/// Packet status bits: the kernel validated the checksum, or left it to
/// offload.
pub const STATUS_CHECKSUM_VALID: u32 = 0x80;

pub const STATUS_CHECKSUM_NOT_READY: u32 = 0x8;

/// Whether a transport header may be trusted for its ports: a UDP header
/// whose length field fits the captured datagram, a TCP header whose data
/// offset fits, with a checksum the kernel vouched for, a zero UDP checksum
/// where IPv4 allows it, or a verified checksum.
pub open spec fn transport_trusted(
    protocol: u8,
    payload: Seq<u8>,
    kernel_checksum: bool,
    zero_udp_checksum_allowed: bool,
    checksum_valid: bool,
) -> bool {
    if protocol == 17 {
        payload.len() >= 8 && be16(payload[4], payload[5]) >= 8 && be16(payload[4], payload[5])
            <= payload.len() && (kernel_checksum || (zero_udp_checksum_allowed && be16(
            payload[6],
            payload[7],
        ) == 0) || checksum_valid)
    } else if protocol == 6 {
        payload.len() >= 20 && (payload[12] / 16) * 4 >= 20 && payload.len() >= (payload[12] / 16)
            * 4 && (kernel_checksum || checksum_valid)
    } else {
        true
    }
}

/// The ports an observed row reports: those of a trusted, unfragmented TCP
/// or UDP header.
pub open spec fn reported_ports(
    protocol: u8,
    payload: Seq<u8>,
    unfragmented: bool,
    trusted: bool,
) -> Option<(u32, u32)> {
    if (protocol == 6 || protocol == 17) && trusted && unfragmented && payload.len() >= 4 {
        Some((be16(payload[0], payload[1]) as u32, be16(payload[2], payload[3]) as u32))
    } else {
        None
    }
}

/// Whether `r` holds the transport columns of a row: the protocol name, the
/// addresses where the IP header was readable, and the reported ports.
/// `checksum_valid` is whether the transport checksum over the datagram
/// verified.
pub open spec fn transport_columns(
    upper: UpperLayer,
    source: Seq<char>,
    destination: Seq<char>,
    zero_udp_checksum_allowed: bool,
    checksum_status: u32,
    checksum_valid: bool,
    r: TransportFields,
) -> bool {
    let kernel = checksum_status & (STATUS_CHECKSUM_VALID | STATUS_CHECKSUM_NOT_READY) != 0;
    &&& r.source_address matches Some(s) && s@ == source
    &&& r.destination_address matches Some(d) && d@ == destination
    &&& match upper {
        UpperLayer::Payload { protocol, payload, unfragmented, known: _ } => {
            let ports = reported_ports(
                protocol,
                payload@,
                unfragmented,
                transport_trusted(
                    protocol,
                    payload@,
                    kernel,
                    zero_udp_checksum_allowed,
                    checksum_valid,
                ),
            );
            &&& r.protocol@ == ip_protocol_name(protocol)
            &&& r.source_port == (match ports {
                Some(p) => Some(p.0),
                None => None,
            })
            &&& r.destination_port == (match ports {
                Some(p) => Some(p.1),
                None => None,
            })
        },
        UpperLayer::Insufficient { protocol } => r.protocol@ == ip_protocol_name(protocol)
            && r.source_port is None && r.destination_port is None,
        UpperLayer::NonFirstFragment { protocol } => r.protocol@ == ip_protocol_name(protocol)
            && r.source_port is None && r.destination_port is None,
        UpperLayer::Opaque => r.protocol@ == "ip"@ && r.source_port is None
            && r.destination_port is None,
    }
}

fn read_be16(high: u8, low: u8) -> (r: u32)
    ensures
        r == be16(high, low),
{
    high as u32 * 256 + low as u32
}

/// The transport columns of an observed IP packet.
pub fn network_transport_fields(
    upper: &UpperLayer,
    source: String,
    destination: String,
    zero_udp_checksum_allowed: bool,
    checksum_status: u32,
    checksum_valid: bool,
) -> (r: TransportFields)
    ensures
        transport_columns(
            *upper,
            source@,
            destination@,
            zero_udp_checksum_allowed,
            checksum_status,
            checksum_valid,
            r,
        ),
{
    let (protocol, payload, unfragmented) = match upper {
        UpperLayer::Payload { protocol, payload, unfragmented, known: _ } => (
            *protocol,
            payload,
            *unfragmented,
        ),
        UpperLayer::Insufficient { protocol } => {
            return TransportFields {
                protocol: owned(network_protocol_name(*protocol)),
                source_address: Some(source),
                destination_address: Some(destination),
                source_port: None,
                destination_port: None,
            };
        },
        UpperLayer::NonFirstFragment { protocol } => {
            return TransportFields {
                protocol: owned(network_protocol_name(*protocol)),
                source_address: Some(source),
                destination_address: Some(destination),
                source_port: None,
                destination_port: None,
            };
        },
        UpperLayer::Opaque => {
            return TransportFields {
                protocol: owned("ip"),
                source_address: Some(source),
                destination_address: Some(destination),
                source_port: None,
                destination_port: None,
            };
        },
    };
    let kernel = checksum_status & (STATUS_CHECKSUM_VALID | STATUS_CHECKSUM_NOT_READY) != 0;
    let trusted = if protocol == 17 {
        if payload.len() < 8 {
            false
        } else {
            let length = read_be16(payload[4], payload[5]);
            let checksum = read_be16(payload[6], payload[7]);
            length >= 8 && (length as usize) <= payload.len() && (kernel || (
            zero_udp_checksum_allowed && checksum == 0) || checksum_valid)
        }
    } else if protocol == 6 {
        if payload.len() < 20 {
            false
        } else {
            let header_length: usize = (payload[12] / 16) as usize * 4;
            header_length >= 20 && payload.len() >= header_length && (kernel || checksum_valid)
        }
    } else {
        true
    };
    let ports_shown = (protocol == 6 || protocol == 17) && trusted && unfragmented
        && payload.len() >= 4;
    let (source_port, destination_port) = if ports_shown {
        (Some(read_be16(payload[0], payload[1])), Some(read_be16(payload[2], payload[3])))
    } else {
        (None, None)
    };
    TransportFields {
        protocol: owned(network_protocol_name(protocol)),
        source_address: Some(source),
        destination_address: Some(destination),
        source_port,
        destination_port,
    }
}

/// The name of an EtherType no decoder handles: `etherType-0x` and four
/// lowercase hexadecimal digits.
pub open spec fn ether_type_text(ether_type: u16) -> Seq<char> {
    "etherType-0x"@ + seq![
        hex_char((ether_type / 4096) as nat),
        hex_char(((ether_type / 256) % 16) as nat),
        hex_char(((ether_type / 16) % 16) as nat),
        hex_char((ether_type % 16) as nat),
    ]
}

/// Names an EtherType no decoder handles.
pub fn ether_type_name(ether_type: u16) -> (r: String)
    ensures
        r@ == ether_type_text(ether_type),
{
    let text = String::from_str("etherType-0x");
    let text = text.concat(hex_digit_text(ether_type / 4096));
    let text = text.concat(hex_digit_text((ether_type / 256) % 16));
    let text = text.concat(hex_digit_text((ether_type / 16) % 16));
    let text = text.concat(hex_digit_text(ether_type % 16));
    proof {
        reveal_strlit("etherType-0x");
    }
    assert(text@ =~= ether_type_text(ether_type));
    text
}

/// An IP header the packet decoder read: the addresses as text and what it
/// left of the transport layer.
pub struct DecodedIpHeader {
    pub source: String,
    pub destination: String,
    pub upper: UpperLayer,
}

/// Whether `r` holds the network columns of a frame with `ether_type`:
/// ARP by name; IPv4 and IPv6 by their transport columns where the header
/// decoded (a zero UDP checksum is allowed only over IPv4), else by family
/// name alone; any other EtherType by its number.
pub open spec fn network_columns(
    ether_type: u16,
    header: Option<DecodedIpHeader>,
    checksum_status: u32,
    checksum_valid: bool,
    r: TransportFields,
) -> bool {
    let bare = r.source_address is None && r.destination_address is None && r.source_port is None
        && r.destination_port is None;
    if ether_type == 0x0806 {
        r.protocol@ == "arp"@ && bare
    } else if ether_type == 0x0800 || ether_type == 0x86dd {
        match header {
            None => r.protocol@ == (if ether_type == 0x0800 {
                "ipv4"@
            } else {
                "ipv6"@
            }) && bare,
            Some(h) => transport_columns(
                h.upper,
                h.source@,
                h.destination@,
                ether_type == 0x0800,
                checksum_status,
                checksum_valid,
                r,
            ),
        }
    } else {
        r.protocol@ == ether_type_text(ether_type) && bare
    }
}

/// The network columns of a frame, from the IP header the packet decoder
/// read (nothing where it refused the header) and whether the transport
/// checksum verified.
pub fn decode_network(
    ether_type: u16,
    header: Option<DecodedIpHeader>,
    checksum_status: u32,
    checksum_valid: bool,
) -> (r: TransportFields)
    ensures
        network_columns(ether_type, header, checksum_status, checksum_valid, r),
{
    if ether_type == 0x0806 {
        return TransportFields {
            protocol: owned("arp"),
            source_address: None,
            destination_address: None,
            source_port: None,
            destination_port: None,
        };
    }
    if ether_type == 0x0800 || ether_type == 0x86dd {
        return match header {
            None => TransportFields {
                protocol: owned(
                    if ether_type == 0x0800 {
                        "ipv4"
                    } else {
                        "ipv6"
                    },
                ),
                source_address: None,
                destination_address: None,
                source_port: None,
                destination_port: None,
            },
            Some(h) => network_transport_fields(
                &h.upper,
                h.source,
                h.destination,
                ether_type == 0x0800,
                checksum_status,
                checksum_valid,
            ),
        };
    }
    TransportFields {
        protocol: ether_type_name(ether_type),
        source_address: None,
        destination_address: None,
        source_port: None,
        destination_port: None,
    }
}

/// What the passive metadata decoder made of a frame: the protocol it
/// recognised and the fields it read.
pub struct PassiveMetadata {
    pub protocol: PassiveProtocol,
    pub fields: Vec<NativeObservationMetadataField>,
}

/// A length as a 32-bit column, saturating.
pub open spec fn length_column(length: usize) -> u32 {
    if length > u32::MAX {
        u32::MAX
    } else {
        length as u32
    }
}

/// The field that records who checked a frame's transport checksum, if the
/// kernel did or left it to offload.
pub open spec fn checksum_field(checksum_status: u32) -> Option<(Seq<char>, Seq<u8>)> {
    if checksum_status & STATUS_CHECKSUM_VALID != 0 {
        Some(("transportChecksumStatus"@, encode_utf8("kernelValidated"@)))
    } else if checksum_status & STATUS_CHECKSUM_NOT_READY != 0 {
        Some(("transportChecksumStatus"@, encode_utf8("offloadPending"@)))
    } else {
        None
    }
}

/// The view of an observation metadata field.
pub open spec fn observation_field_view(field: NativeObservationMetadataField) -> (Seq<char>, Seq<u8>) {
    (field.key@, field.value@)
}

/// Whether `r` is the row of a frame: its link header and network columns,
/// the passive protocol's name where the metadata decoder recognised one,
/// the decoder's fields followed by the checksum field (none without
/// decoder metadata), the lengths saturated to 32 bits, its direction by
/// packet type, and truncated where the capture is shorter than the frame.
pub open spec fn observation_row_of(
    link: LinkHeader,
    network: TransportFields,
    passive: Option<PassiveMetadata>,
    checksum_status: u32,
    original_length: usize,
    captured_length: usize,
    interface_index: u32,
    packet_type: u8,
    timestamp: Seq<char>,
    wall_time: Option<Seq<char>>,
    r: NativeObservationRow,
) -> bool {
    &&& r.sequence@ == Seq::<char>::empty()
    &&& r.interface_index == interface_index
    &&& r.timestamp_nanoseconds@ == timestamp
    &&& match r.wall_time_milliseconds {
        Some(t) => wall_time == Some(t@),
        None => wall_time is None,
    }
    &&& r.original_length == length_column(original_length)
    &&& r.captured_length == length_column(captured_length)
    &&& r.packet_type == packet_type as u32
    &&& r.direction@ == if packet_type == PACKET_OUTGOING {
        "outgoing"@
    } else {
        "incoming"@
    }
    &&& r.protocol@ == match passive {
        Some(m) => if m.protocol != PassiveProtocol::Other {
            passive_name(m.protocol)
        } else {
            network.protocol@
        },
        None => network.protocol@,
    }
    &&& r.source_mac@ == link.source_mac@
    &&& r.destination_mac@ == link.destination_mac@
    &&& r.ether_type == link.ether_type as u32
    &&& r.vlan_ids@ == link.vlan_ids@
    &&& r.source_address == network.source_address
    &&& r.destination_address == network.destination_address
    &&& r.source_port == network.source_port
    &&& r.destination_port == network.destination_port
    &&& r.metadata@.map_values(|f: NativeObservationMetadataField| observation_field_view(f))
        == match passive {
        None => Seq::empty(),
        Some(m) => {
            let fields = m.fields@.map_values(
                |f: NativeObservationMetadataField| observation_field_view(f),
            );
            match checksum_field(checksum_status) {
                Some(extra) => fields.push(extra),
                None => fields,
            }
        },
    }
    &&& r.truncated == (original_length > captured_length)
}

fn length_value(length: usize) -> (r: u32)
    ensures
        r == length_column(length),
{
    if length > u32::MAX as usize {
        u32::MAX
    } else {
        length as u32
    }
}

/// Assembles the row of an observed frame from its link header, network
/// columns and passive metadata, the capture facts, and the times at which
/// it was seen.
pub fn observation_row(
    link: LinkHeader,
    network: TransportFields,
    passive: Option<PassiveMetadata>,
    checksum_status: u32,
    original_length: usize,
    captured_length: usize,
    interface_index: u32,
    packet_type: u8,
    timestamp: String,
    wall_time: Option<String>,
) -> (r: NativeObservationRow)
    ensures
        observation_row_of(
            link,
            network,
            passive,
            checksum_status,
            original_length,
            captured_length,
            interface_index,
            packet_type,
            timestamp@,
            match wall_time {
                Some(t) => Some(t@),
                None => None,
            },
            r,
        ),
{
    let ghost passive_in = passive;
    let (protocol, metadata) = match passive {
        None => {
            let fields: Vec<NativeObservationMetadataField> = Vec::new();
            proof {
                assert(fields@.map_values(|f: NativeObservationMetadataField| observation_field_view(f))
                    =~= Seq::empty());
            }
            (network.protocol, fields)
        },
        Some(m) => {
            let protocol = if m.protocol != PassiveProtocol::Other {
                owned(passive_protocol_name(m.protocol))
            } else {
                network.protocol
            };
            let mut fields = m.fields;
            let ghost before = fields@;
            if checksum_status & STATUS_CHECKSUM_VALID != 0 {
                fields.push(
                    NativeObservationMetadataField {
                        key: owned("transportChecksumStatus"),
                        value: bytes_of("kernelValidated"),
                    },
                );
            } else if checksum_status & STATUS_CHECKSUM_NOT_READY != 0 {
                fields.push(
                    NativeObservationMetadataField {
                        key: owned("transportChecksumStatus"),
                        value: bytes_of("offloadPending"),
                    },
                );
            }
            proof {
                assert(fields@.map_values(|f: NativeObservationMetadataField| observation_field_view(f))
                    =~= match checksum_field(checksum_status) {
                    Some(extra) => before.map_values(
                        |f: NativeObservationMetadataField| observation_field_view(f),
                    ).push(extra),
                    None => before.map_values(
                        |f: NativeObservationMetadataField| observation_field_view(f),
                    ),
                });
            }
            (protocol, fields)
        },
    };
    NativeObservationRow {
        sequence: String::new(),
        interface_index,
        timestamp_nanoseconds: timestamp,
        wall_time_milliseconds: wall_time,
        original_length: length_value(original_length),
        captured_length: length_value(captured_length),
        packet_type: packet_type as u32,
        direction: owned(
            if packet_type == PACKET_OUTGOING {
                "outgoing"
            } else {
                "incoming"
            },
        ),
        protocol,
        source_mac: link.source_mac,
        destination_mac: link.destination_mac,
        ether_type: link.ether_type as u32,
        vlan_ids: link.vlan_ids,
        source_address: network.source_address,
        destination_address: network.destination_address,
        source_port: network.source_port,
        destination_port: network.destination_port,
        metadata,
        truncated: original_length > captured_length,
    }
}

} // verus!

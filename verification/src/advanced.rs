//! Bounded opaque socket options, classic BPF program checks and packet-socket
//! controls, computed before the kernel sees them.
use vstd::prelude::*;

use crate::error::{fails_with, plain_error, ErrorKind, NativeError, Operation};

verus! {

/// The largest opaque socket-option value copied in either direction.
pub const MAX_RAW_OPTION_LENGTH: usize = 4096;

/// The longest accepted classic BPF program.
pub const MAX_CLASSIC_BPF_INSTRUCTIONS: usize = 4096;

#[derive(Clone, Copy, Debug, PartialEq, Eq, Structural)]
pub struct ClassicBpfInstruction {
    pub code: u16,
    pub jump_true: u8,
    pub jump_false: u8,
    pub value: u32,
}

#[derive(Clone, Copy, Debug, PartialEq, Eq, Structural)]
pub enum PacketMembershipKind {
    Promiscuous,
    AllMulticast,
    Multicast,
}

#[derive(Clone, Debug, PartialEq, Eq)]
pub struct PacketMembership {
    pub interface_index: u32,
    pub kind: PacketMembershipKind,
    pub address: Vec<u8>,
}

#[derive(Clone, Copy, Debug, PartialEq, Eq, Structural)]
pub struct PacketStatistics {
    pub packets: u32,
    pub drops: u32,
}

/// The fields of one Linux `packet_mreq`, ready to be copied into the kernel.
#[derive(Clone, Copy, Debug, PartialEq, Eq)]
pub struct PacketMembershipRequest {
    pub interface_index: i32,
    pub membership_type: u16,
    pub address_length: u16,
    pub address: [u8; 8],
}

/// Whether a `(level, name)` pair belongs to a typed, ownership-aware API and
/// so may not pass through the opaque option calls.
pub open spec fn is_reserved_option(level: i32, name: i32) -> bool {
    ||| level == 1 && (name == 26 || name == 50 || name == 27 || name == 44 || name == 25)
    ||| level == 263 && (name == 1 || name == 2 || name == 18 || name == 5 || name == 13 || name
        == 6 || name == 8)
    ||| level == 0 && (name == 3 || name == 15 || name == 19 || name == 10 || name == 2 || name
        == 1 || name == 8 || name == 12 || name == 13 || name == 11 || name == 33 || name == 34)
    ||| level == 41 && (name == 7 || name == 23 || name == 16 || name == 67 || name == 49 || name
        == 51 || name == 66 || name == 25 || name == 18 || name == 19 || name == 26)
    ||| level == 1 && (name == 12 || name == 36 || name == 8 || name == 7 || name == 6 || name
        == 35 || name == 40 || name == 46)
}

/// Reports whether the option pair is reserved for a typed API.
pub fn reserved_option(level: i32, name: i32) -> (r: bool)
    ensures
        r == is_reserved_option(level, name),
{
    (level == 1 && (name == 26 || name == 50 || name == 27 || name == 44 || name == 25)) || (level
        == 263 && (name == 1 || name == 2 || name == 18 || name == 5 || name == 13 || name == 6
        || name == 8)) || (level == 0 && (name == 3 || name == 15 || name == 19 || name == 10
        || name == 2 || name == 1 || name == 8 || name == 12 || name == 13 || name == 11 || name
        == 33 || name == 34)) || (level == 41 && (name == 7 || name == 23 || name == 16 || name
        == 67 || name == 49 || name == 51 || name == 66 || name == 25 || name == 18 || name == 19
        || name == 26)) || (level == 1 && (name == 12 || name == 36 || name == 8 || name == 7
        || name == 6 || name == 35 || name == 40 || name == 46))
}

/// Rejects negative or reserved option pairs for the opaque option calls.
pub fn validate_raw_option(level: i32, name: i32, operation: Operation) -> (r: Result<
    (),
    NativeError,
>)
    ensures
        (level < 0 || name < 0) ==> fails_with(
            r,
            plain_error(
                ErrorKind::InvalidArgument,
                "ERR_INVALID_ARGUMENT"@,
                operation,
                "socket option level and name must be nonnegative signed integers"@,
            ),
        ),
        (level >= 0 && name >= 0 && is_reserved_option(level, name)) ==> fails_with(
            r,
            plain_error(
                ErrorKind::Unsupported,
                "ERR_UNSUPPORTED"@,
                operation,
                "socket option is reserved for a typed ownership-aware API"@,
            ),
        ),
        (level >= 0 && name >= 0 && !is_reserved_option(level, name)) ==> r is Ok,
{
    if level < 0 || name < 0 {
        return Err(
            NativeError::invalid_argument(
                operation,
                "socket option level and name must be nonnegative signed integers",
            ),
        );
    }
    if reserved_option(level, name) {
        return Err(
            NativeError::unsupported(
                operation,
                "socket option is reserved for a typed ownership-aware API",
            ),
        );
    }
    Ok(())
}

/// The kernel length for an opaque option value of `length` bytes.
pub fn option_length(length: usize, operation: Operation) -> (r: Result<u32, NativeError>)
    ensures
        length <= MAX_RAW_OPTION_LENGTH ==> r == Ok::<u32, NativeError>(length as u32),
        length > MAX_RAW_OPTION_LENGTH ==> fails_with(
            r,
            plain_error(
                ErrorKind::InvalidArgument,
                "ERR_INVALID_ARGUMENT"@,
                operation,
                "socket option length exceeds 4096 bytes"@,
            ),
        ),
{
    if length > MAX_RAW_OPTION_LENGTH {
        return Err(NativeError::invalid_argument(operation, "socket option length exceeds 4096 bytes"));
    }
    Ok(length as u32)
}

/// Everything `get_raw_option` checks before its `getsockopt(2)`: the pair, a
/// nonzero maximum, and the bounded kernel length it will offer.
pub fn prepare_raw_option_read(level: i32, name: i32, maximum: usize) -> (r: Result<
    u32,
    NativeError,
>)
    ensures
        r is Ok <==> (level >= 0 && name >= 0 && !is_reserved_option(level, name) && 1 <= maximum
            <= MAX_RAW_OPTION_LENGTH),
        r matches Ok(length) ==> length == maximum,
        (level < 0 || name < 0) ==> fails_with(
            r,
            plain_error(
                ErrorKind::InvalidArgument,
                "ERR_INVALID_ARGUMENT"@,
                Operation::GetSocketOption,
                "socket option level and name must be nonnegative signed integers"@,
            ),
        ),
        (level >= 0 && name >= 0 && is_reserved_option(level, name)) ==> fails_with(
            r,
            plain_error(
                ErrorKind::Unsupported,
                "ERR_UNSUPPORTED"@,
                Operation::GetSocketOption,
                "socket option is reserved for a typed ownership-aware API"@,
            ),
        ),
        (level >= 0 && name >= 0 && !is_reserved_option(level, name) && maximum == 0) ==> fails_with(
            r,
            plain_error(
                ErrorKind::InvalidArgument,
                "ERR_INVALID_ARGUMENT"@,
                Operation::GetSocketOption,
                "maximum option length must be nonzero"@,
            ),
        ),
        (level >= 0 && name >= 0 && !is_reserved_option(level, name) && maximum
            > MAX_RAW_OPTION_LENGTH) ==> fails_with(
            r,
            plain_error(
                ErrorKind::InvalidArgument,
                "ERR_INVALID_ARGUMENT"@,
                Operation::GetSocketOption,
                "socket option length exceeds 4096 bytes"@,
            ),
        ),
{
    match validate_raw_option(level, name, Operation::GetSocketOption) {
        Ok(()) => {},
        Err(e) => {
            return Err(e);
        },
    }
    if maximum == 0 {
        return Err(
            NativeError::invalid_argument(
                Operation::GetSocketOption,
                "maximum option length must be nonzero",
            ),
        );
    }
    option_length(maximum, Operation::GetSocketOption)
}

/// Checks the length the kernel reported against the storage that was offered.
pub fn check_returned_option_length(returned: usize, maximum: usize) -> (r: Result<
    usize,
    NativeError,
>)
    ensures
        returned <= maximum ==> r == Ok::<usize, NativeError>(returned),
        returned > maximum ==> fails_with(
            r,
            plain_error(
                ErrorKind::Internal,
                "ERR_INTERNAL"@,
                Operation::GetSocketOption,
                "kernel option length exceeded supplied storage"@,
            ),
        ),
{
    if returned > maximum {
        return Err(
            NativeError::internal(
                Operation::GetSocketOption,
                "kernel option length exceeded supplied storage",
            ),
        );
    }
    Ok(returned)
}

/// Everything `set_raw_option` checks before its `setsockopt(2)`.
pub fn prepare_raw_option_write(level: i32, name: i32, length: usize) -> (r: Result<
    u32,
    NativeError,
>)
    ensures
        r is Ok <==> (level >= 0 && name >= 0 && !is_reserved_option(level, name) && length
            <= MAX_RAW_OPTION_LENGTH),
        r matches Ok(value) ==> value == length,
        r matches Err(e) ==> e@.operation == Operation::SetSocketOption,
{
    validate_raw_option(level, name, Operation::SetSocketOption)?;
    option_length(length, Operation::SetSocketOption)
}

/// The class bits of an instruction code.
pub open spec fn bpf_class(code: u16) -> u16 {
    code & 0x07
}

/// Whether instruction `i` is a jump whose targets stay inside the program.
pub open spec fn jump_stays_inside(program: Seq<ClassicBpfInstruction>, i: int) -> bool {
    let instruction = program[i];
    bpf_class(instruction.code) == 5 ==> if instruction.code & 0xf0 == 0 {
        i + 1 + instruction.value < program.len()
    } else {
        &&& i + 1 + instruction.jump_true < program.len()
        &&& i + 1 + instruction.jump_false < program.len()
    }
}

/// Whether a jump at `i` is absolute (`BPF_JA`) rather than conditional.
pub open spec fn is_absolute_jump(program: Seq<ClassicBpfInstruction>, i: int) -> bool {
    program[i].code & 0xf0 == 0
}

/// A structurally valid classic BPF program: 1 through 4096 instructions,
/// every jump target inside the program, and a final `RET`.
pub open spec fn valid_classic_bpf(program: Seq<ClassicBpfInstruction>) -> bool {
    &&& 1 <= program.len() <= MAX_CLASSIC_BPF_INSTRUCTIONS
    &&& forall|i: int| 0 <= i < program.len() ==> #[trigger] jump_stays_inside(program, i)
    &&& bpf_class(program.last().code) == 6
}

/// Checks a classic BPF program's structure before Linux verifies it.
pub fn validate_classic_bpf(program: &[ClassicBpfInstruction]) -> (r: Result<(), NativeError>)
    ensures
        r is Ok <==> valid_classic_bpf(program@),
        !(1 <= program@.len() <= MAX_CLASSIC_BPF_INSTRUCTIONS) ==> fails_with(
            r,
            plain_error(
                ErrorKind::InvalidArgument,
                "ERR_INVALID_ARGUMENT"@,
                Operation::AttachFilter,
                "classic BPF program must contain 1 through 4096 instructions"@,
            ),
        ),
        1 <= program@.len() <= MAX_CLASSIC_BPF_INSTRUCTIONS ==> forall|i: int|
            0 <= i < program@.len() && !jump_stays_inside(program@, i) && (forall|j: int|
                0 <= j < i ==> #[trigger] jump_stays_inside(program@, j)) ==> fails_with(
                r,
                plain_error(
                    ErrorKind::InvalidArgument,
                    "ERR_INVALID_ARGUMENT"@,
                    Operation::AttachFilter,
                    if is_absolute_jump(program@, i) {
                        "classic BPF absolute jump leaves the program"@
                    } else {
                        "classic BPF conditional jump leaves the program"@
                    },
                ),
            ),
        (1 <= program@.len() <= MAX_CLASSIC_BPF_INSTRUCTIONS && (forall|i: int|
            0 <= i < program@.len() ==> #[trigger] jump_stays_inside(program@, i)) && bpf_class(
            program@.last().code,
        ) != 6) ==> fails_with(
            r,
            plain_error(
                ErrorKind::InvalidArgument,
                "ERR_INVALID_ARGUMENT"@,
                Operation::AttachFilter,
                "classic BPF program must end with RET"@,
            ),
        ),
{
    let length = program.len();
    if length == 0 || length > MAX_CLASSIC_BPF_INSTRUCTIONS {
        return Err(
            NativeError::invalid_argument(
                Operation::AttachFilter,
                "classic BPF program must contain 1 through 4096 instructions",
            ),
        );
    }
    let mut index: usize = 0;
    while index < length
        invariant
            length == program@.len(),
            1 <= length <= MAX_CLASSIC_BPF_INSTRUCTIONS,
            index <= length,
            forall|j: int| 0 <= j < index ==> #[trigger] jump_stays_inside(program@, j),
        decreases length - index,
    {
        let instruction = program[index];
        let class = instruction.code & 0x07;
        if class == 0x05 {
            let operation = instruction.code & 0xf0;
            if operation == 0x00 {
                if instruction.value as u64 + index as u64 + 1 >= length as u64 {
                    assert(!jump_stays_inside(program@, index as int));
                    return Err(
                        NativeError::invalid_argument(
                            Operation::AttachFilter,
                            "classic BPF absolute jump leaves the program",
                        ),
                    );
                }
            } else {
                if index + 1 + instruction.jump_true as usize >= length || index + 1
                    + instruction.jump_false as usize >= length {
                    assert(!jump_stays_inside(program@, index as int));
                    return Err(
                        NativeError::invalid_argument(
                            Operation::AttachFilter,
                            "classic BPF conditional jump leaves the program",
                        ),
                    );
                }
            }
        }
        assert(jump_stays_inside(program@, index as int));
        index = index + 1;
    }
    if program[length - 1].code & 0x07 != 0x06 {
        return Err(
            NativeError::invalid_argument(
                Operation::AttachFilter,
                "classic BPF program must end with RET",
            ),
        );
    }
    Ok(())
}

/// Whether a packet membership names a usable interface and at most eight
/// address bytes.
pub open spec fn valid_membership(membership: PacketMembership) -> bool {
    &&& membership.interface_index != 0
    &&& membership.interface_index <= 0x7fff_ffff
    &&& membership.address@.len() <= 8
}

/// The Linux `PACKET_MR_*` value of a membership kind.
pub open spec fn membership_type(kind: PacketMembershipKind) -> u16 {
    match kind {
        PacketMembershipKind::Promiscuous => 1,
        PacketMembershipKind::AllMulticast => 2,
        PacketMembershipKind::Multicast => 0,
    }
}

/// Builds the `packet_mreq` fields for adding or dropping a membership.
pub fn packet_membership_request(membership: &PacketMembership) -> (r: Result<
    PacketMembershipRequest,
    NativeError,
>)
    ensures
        !valid_membership(*membership) ==> fails_with(
            r,
            plain_error(
                ErrorKind::InvalidArgument,
                "ERR_INVALID_ARGUMENT"@,
                Operation::PacketMembership,
                "invalid packet membership interface/address"@,
            ),
        ),
        valid_membership(*membership) ==> (r matches Ok(request) && {
            &&& request.interface_index == membership.interface_index as i32
            &&& request.membership_type == membership_type(membership.kind)
            &&& request.address_length == membership.address@.len()
            &&& forall|i: int|
                0 <= i < 8 ==> #[trigger] request.address@[i] == if i < membership.address@.len() {
                    membership.address@[i]
                } else {
                    0u8
                }
        }),
{
    if membership.interface_index == 0 || membership.interface_index > 0x7fff_ffff
        || membership.address.len() > 8 {
        return Err(
            NativeError::invalid_argument(
                Operation::PacketMembership,
                "invalid packet membership interface/address",
            ),
        );
    }
    let membership_type: u16 = match membership.kind {
        PacketMembershipKind::Promiscuous => 1,
        PacketMembershipKind::AllMulticast => 2,
        PacketMembershipKind::Multicast => 0,
    };
    let mut address = [0u8; 8];
    let length = membership.address.len();
    let mut i: usize = 0;
    while i < length
        invariant
            length == membership.address@.len(),
            length <= 8,
            i <= length,
            forall|j: int| 0 <= j < 8 ==> #[trigger] address@[j] == if j < i {
                membership.address@[j]
            } else {
                0u8
            },
        decreases length - i,
    {
        address[i] = membership.address[i];
        i = i + 1;
    }
    Ok(
        PacketMembershipRequest {
            interface_index: membership.interface_index as i32,
            membership_type,
            address_length: length as u16,
            address,
        },
    )
}

/// The `PACKET_FANOUT` integer for a group and a mode from 0 through 7.
pub fn packet_fanout_value(group: u16, mode: u16) -> (r: Result<i32, NativeError>)
    ensures
        mode <= 7 ==> (r matches Ok(value) && value == group + mode * 65536),
        mode > 7 ==> fails_with(
            r,
            plain_error(
                ErrorKind::InvalidArgument,
                "ERR_INVALID_ARGUMENT"@,
                Operation::SetSocketOption,
                "packet fanout mode must be from 0 through 7"@,
            ),
        ),
{
    if mode > 7 {
        return Err(
            NativeError::invalid_argument(
                Operation::SetSocketOption,
                "packet fanout mode must be from 0 through 7",
            ),
        );
    }
    let g = group as i32;
    let m = mode as i32;
    let value = g | (m << 16);
    assert(value == g + m * 65536) by (bit_vector)
        requires
            0 <= g < 65536,
            0 <= m <= 7,
            value == g | (m << 16),
    ;
    Ok(value)
}

/// Checks a caller's eBPF program descriptor before it is duplicated.
pub fn validate_ebpf_descriptor(caller_fd: i32) -> (r: Result<(), NativeError>)
    ensures
        caller_fd >= 0 ==> r is Ok,
        caller_fd < 0 ==> fails_with(
            r,
            plain_error(
                ErrorKind::InvalidArgument,
                "ERR_INVALID_ARGUMENT"@,
                Operation::AttachFilter,
                "eBPF fd must be nonnegative"@,
            ),
        ),
{
    if caller_fd < 0 {
        return Err(NativeError::invalid_argument(Operation::AttachFilter, "eBPF fd must be nonnegative"));
    }
    Ok(())
}

/// Linux's `PACKET_MR_MULTICAST` membership type.
pub const PACKET_MR_MULTICAST: u16 = 0;

/// Linux's `PACKET_MR_PROMISC` membership type.
pub const PACKET_MR_PROMISC: u16 = 1;

/// Linux's `PACKET_MR_ALLMULTI` membership type.
pub const PACKET_MR_ALLMULTI: u16 = 2;

/// A membership asks the kernel for what it names: the promiscuous type
/// exactly for promiscuous mode, the all-multicast type exactly for
/// all-multicast, and the multicast type exactly for one multicast group.
pub proof fn membership_asks_for_its_kind(kind: PacketMembershipKind)
    ensures
        membership_type(kind) == PACKET_MR_PROMISC <==> kind == PacketMembershipKind::Promiscuous,
        membership_type(kind) == PACKET_MR_ALLMULTI <==> kind == PacketMembershipKind::AllMulticast,
        membership_type(kind) == PACKET_MR_MULTICAST <==> kind == PacketMembershipKind::Multicast,
{
}

} // verus!

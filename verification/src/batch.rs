//! Validation and per-message assembly rules of `sendmmsg(2)` and
//! `recvmmsg(2)` batches.
use vstd::prelude::*;

use crate::error::{fails_with, plain_error, ErrorKind, NativeError, Operation};
use crate::message::{
    ReceivedIpv4Message, ReceivedIpv6Message, ReceivedMessageFlags, SocketAddressV4,
    SocketAddressV6,
};

verus! {

pub const MAX_BATCH_MESSAGES: usize = 64;

pub const MAX_BATCH_BYTES: usize = 1048576;

/// The capacity of the link-layer address in a `sockaddr_ll`.
pub const MAX_LINK_ADDRESS_LENGTH: usize = 8;

/// A link-layer (`AF_PACKET`) address.
#[derive(Clone, Debug, PartialEq, Eq)]
pub struct PacketAddress {
    pub interface_index: u32,
    pub protocol: u16,
    pub hardware_address: Vec<u8>,
}

/// Where one batch message goes.
#[derive(Clone, Debug)]
pub enum BatchDestination {
    Ipv4(SocketAddressV4),
    Ipv6(SocketAddressV6),
    Packet(PacketAddress),
}

/// One message of a send batch.
#[derive(Clone, Debug)]
pub struct BatchSendMessage {
    pub data: Vec<u8>,
    pub destination: BatchDestination,
}

/// One received link-layer message.
#[derive(Debug)]
pub struct ReceivedPacketMessage {
    pub data: Vec<u8>,
    pub source: PacketAddress,
    pub hardware_type: u16,
    pub packet_type: u8,
    pub data_length: usize,
    pub data_truncated: bool,
    pub control_truncated: bool,
    pub flags: ReceivedMessageFlags,
}

/// One message of a received batch.
#[derive(Debug)]
pub enum BatchReceivedMessage {
    Ipv4(ReceivedIpv4Message),
    Ipv6(ReceivedIpv6Message),
    Packet(ReceivedPacketMessage),
}

/// What a send batch achieved: the bytes of each completed message and the
/// number of messages asked for.
#[derive(Debug)]
pub struct BatchSendResult {
    pub lengths: Vec<usize>,
    pub requested: usize,
}

/// Whether a batch has an allowed message count and byte total.
pub open spec fn valid_count_and_bytes(count: int, bytes: int) -> bool {
    1 <= count <= MAX_BATCH_MESSAGES && 1 <= bytes <= MAX_BATCH_BYTES
}

/// Checks the message count and the byte total of a batch, the count first.
pub fn validate_count_and_bytes(count: usize, bytes: usize, operation: Operation) -> (r: Result<
    (),
    NativeError,
>)
    ensures
        r is Ok <==> valid_count_and_bytes(count as int, bytes as int),
        !(1 <= count <= MAX_BATCH_MESSAGES) ==> fails_with(
            r,
            plain_error(
                ErrorKind::InvalidArgument,
                "ERR_INVALID_ARGUMENT"@,
                operation,
                "batch must contain 1 through 64 messages"@,
            ),
        ),
        1 <= count <= MAX_BATCH_MESSAGES && !(1 <= bytes <= MAX_BATCH_BYTES) ==> fails_with(
            r,
            plain_error(
                ErrorKind::InvalidArgument,
                "ERR_INVALID_ARGUMENT"@,
                operation,
                "batch-owned bytes must be from 1 through 1048576"@,
            ),
        ),
{
    if count == 0 || count > MAX_BATCH_MESSAGES {
        return Err(
            NativeError::invalid_argument(operation, "batch must contain 1 through 64 messages"),
        );
    }
    if bytes == 0 || bytes > MAX_BATCH_BYTES {
        return Err(
            NativeError::invalid_argument(
                operation,
                "batch-owned bytes must be from 1 through 1048576",
            ),
        );
    }
    Ok(())
}

/// The socket family a destination belongs to: 4, 6, or 17 (`AF_PACKET`).
pub open spec fn destination_family(destination: BatchDestination) -> u8 {
    match destination {
        BatchDestination::Ipv4(_) => 4,
        BatchDestination::Ipv6(_) => 6,
        BatchDestination::Packet(_) => 17,
    }
}

/// Whether every destination of a batch shares the family of the first.
pub open spec fn same_family(messages: Seq<BatchSendMessage>) -> bool {
    forall|i: int|
        0 <= i < messages.len() ==> destination_family(#[trigger] messages[i].destination)
            == destination_family(messages[0].destination)
}

fn family_of(destination: &BatchDestination) -> (r: u8)
    ensures
        r == destination_family(*destination),
{
    match destination {
        BatchDestination::Ipv4(_) => 4,
        BatchDestination::Ipv6(_) => 6,
        BatchDestination::Packet(_) => 17,
    }
}

/// The one socket family of a non-empty, same-family batch.
pub fn batch_family(messages: &[BatchSendMessage]) -> (r: Result<u8, NativeError>)
    ensures
        messages@.len() == 0 ==> fails_with(
            r,
            plain_error(
                ErrorKind::InvalidArgument,
                "ERR_INVALID_ARGUMENT"@,
                Operation::SendBatch,
                "empty batch"@,
            ),
        ),
        messages@.len() > 0 && same_family(messages@) ==> r == Ok::<u8, NativeError>(
            destination_family(messages@[0].destination),
        ),
        messages@.len() > 0 && !same_family(messages@) ==> fails_with(
            r,
            plain_error(
                ErrorKind::InvalidArgument,
                "ERR_INVALID_ARGUMENT"@,
                Operation::SendBatch,
                "all batch destinations must use the socket family"@,
            ),
        ),
{
    if messages.len() == 0 {
        return Err(NativeError::invalid_argument(Operation::SendBatch, "empty batch"));
    }
    let family = family_of(&messages[0].destination);
    let mut i: usize = 0;
    while i < messages.len()
        invariant
            0 < messages@.len(),
            i <= messages@.len(),
            family == destination_family(messages@[0].destination),
            forall|j: int|
                0 <= j < i ==> destination_family(#[trigger] messages@[j].destination) == family,
        decreases messages@.len() - i,
    {
        if family_of(&messages[i].destination) != family {
            return Err(
                NativeError::invalid_argument(
                    Operation::SendBatch,
                    "all batch destinations must use the socket family",
                ),
            );
        }
        i = i + 1;
    }
    Ok(family)
}

/// The sum of the payload lengths of a batch.
pub open spec fn total_bytes(messages: Seq<BatchSendMessage>) -> int
    decreases messages.len(),
{
    if messages.len() == 0 {
        0
    } else {
        total_bytes(messages.drop_last()) + messages.last().data@.len()
    }
}

/// Whether every payload of a batch holds 1 through 65535 bytes.
pub open spec fn payloads_in_range(messages: Seq<BatchSendMessage>) -> bool {
    forall|i: int| 0 <= i < messages.len() ==> 1 <= #[trigger] messages[i].data@.len() <= 65535
}

proof fn lemma_total_bytes_monotone(messages: Seq<BatchSendMessage>, i: int)
    requires
        0 <= i <= messages.len(),
    ensures
        total_bytes(messages.take(i)) <= total_bytes(messages),
    decreases messages.len() - i,
{
    if i < messages.len() {
        assert(messages.take(i + 1).drop_last() =~= messages.take(i));
        lemma_total_bytes_monotone(messages, i + 1);
    } else {
        assert(messages.take(i) =~= messages);
    }
}

/// Validates a send batch before any system call: the byte total, the count,
/// each payload's size and one shared family, in that order. Returns the
/// family.
pub fn validate_send_batch(messages: &[BatchSendMessage]) -> (r: Result<u8, NativeError>)
    ensures
        total_bytes(messages@) > usize::MAX ==> fails_with(
            r,
            plain_error(
                ErrorKind::InvalidArgument,
                "ERR_INVALID_ARGUMENT"@,
                Operation::SendBatch,
                "batch byte count overflowed"@,
            ),
        ),
        total_bytes(messages@) <= usize::MAX && !(1 <= messages@.len() <= MAX_BATCH_MESSAGES)
            ==> fails_with(
            r,
            plain_error(
                ErrorKind::InvalidArgument,
                "ERR_INVALID_ARGUMENT"@,
                Operation::SendBatch,
                "batch must contain 1 through 64 messages"@,
            ),
        ),
        total_bytes(messages@) <= usize::MAX && 1 <= messages@.len() <= MAX_BATCH_MESSAGES && !(1
            <= total_bytes(messages@) <= MAX_BATCH_BYTES) ==> fails_with(
            r,
            plain_error(
                ErrorKind::InvalidArgument,
                "ERR_INVALID_ARGUMENT"@,
                Operation::SendBatch,
                "batch-owned bytes must be from 1 through 1048576"@,
            ),
        ),
        total_bytes(messages@) <= usize::MAX && valid_count_and_bytes(messages@.len() as int, total_bytes(messages@)) && !payloads_in_range(messages@) ==> fails_with(
            r,
            plain_error(
                ErrorKind::InvalidArgument,
                "ERR_INVALID_ARGUMENT"@,
                Operation::SendBatch,
                "each batch message must contain 1 through 65535 bytes"@,
            ),
        ),
        total_bytes(messages@) <= usize::MAX && valid_count_and_bytes(messages@.len() as int, total_bytes(messages@)) && payloads_in_range(messages@) && !same_family(messages@) ==> fails_with(
            r,
            plain_error(
                ErrorKind::InvalidArgument,
                "ERR_INVALID_ARGUMENT"@,
                Operation::SendBatch,
                "all batch destinations must use the socket family"@,
            ),
        ),
        r is Ok <==> (total_bytes(messages@) <= usize::MAX && valid_count_and_bytes(messages@.len() as int, total_bytes(messages@)) && payloads_in_range(messages@) && same_family(messages@)),
        r is Ok ==> r == Ok::<u8, NativeError>(destination_family(messages@[0].destination)),
{
    let mut total: usize = 0;
    let mut i: usize = 0;
    while i < messages.len()
        invariant
            i <= messages@.len(),
            total == total_bytes(messages@.take(i as int)),
        decreases messages@.len() - i,
    {
        proof {
            assert(messages@.take(i + 1).drop_last() =~= messages@.take(i as int));
        }
        match total.checked_add(messages[i].data.len()) {
            Some(next) => {
                total = next;
            },
            None => {
                proof {
                    lemma_total_bytes_monotone(messages@, i + 1);
                }
                return Err(
                    NativeError::invalid_argument(Operation::SendBatch, "batch byte count overflowed"),
                );
            },
        }
        i = i + 1;
    }
    proof {
        assert(messages@.take(messages@.len() as int) =~= messages@);
    }
    match validate_count_and_bytes(messages.len(), total, Operation::SendBatch) {
        Ok(()) => {},
        Err(e) => return Err(e),
    }
    let mut j: usize = 0;
    while j < messages.len()
        invariant
            j <= messages@.len(),
            total_bytes(messages@) == total,
            valid_count_and_bytes(messages@.len() as int, total as int),
            forall|k: int| 0 <= k < j ==> 1 <= #[trigger] messages@[k].data@.len() <= 65535,
        decreases messages@.len() - j,
    {
        let length = messages[j].data.len();
        if length == 0 || length > 65535 {
            return Err(
                NativeError::invalid_argument(
                    Operation::SendBatch,
                    "each batch message must contain 1 through 65535 bytes",
                ),
            );
        }
        j = j + 1;
    }
    batch_family(messages)
}

/// Validates a receive batch: the allocation product, the count and byte
/// total, then the per-message capacity.
pub fn validate_receive_batch(count: usize, data_capacity: usize) -> (r: Result<(), NativeError>)
    ensures
        count * data_capacity > usize::MAX ==> fails_with(
            r,
            plain_error(
                ErrorKind::InvalidArgument,
                "ERR_INVALID_ARGUMENT"@,
                Operation::ReceiveBatch,
                "batch allocation overflowed"@,
            ),
        ),
        r is Ok <==> (count * data_capacity <= usize::MAX && valid_count_and_bytes(count as int, count * data_capacity) && 1 <= data_capacity <= 65535),
        count * data_capacity <= usize::MAX && valid_count_and_bytes(count as int, count * data_capacity) && !(1 <= data_capacity <= 65535) ==> fails_with(
            r,
            plain_error(
                ErrorKind::InvalidArgument,
                "ERR_INVALID_ARGUMENT"@,
                Operation::ReceiveBatch,
                "data capacity must be from 1 through 65535"@,
            ),
        ),
{
    let bytes = match count.checked_mul(data_capacity) {
        Some(bytes) => bytes,
        None => {
            return Err(
                NativeError::invalid_argument(Operation::ReceiveBatch, "batch allocation overflowed"),
            );
        },
    };
    match validate_count_and_bytes(count, bytes, Operation::ReceiveBatch) {
        Ok(()) => {},
        Err(e) => return Err(e),
    }
    if data_capacity == 0 || data_capacity > 65535 {
        return Err(
            NativeError::invalid_argument(
                Operation::ReceiveBatch,
                "data capacity must be from 1 through 65535",
            ),
        );
    }
    Ok(())
}

/// The flags a batch receive reports: `MSG_EOR` and `MSG_OOB`; the error
/// queue is never read by a batch.
pub fn batch_received_flags(bits: i32) -> (r: ReceivedMessageFlags)
    ensures
        r == (ReceivedMessageFlags {
            end_of_record: bits & 0x80 != 0,
            out_of_band: bits & 0x1 != 0,
            error_queue: false,
        }),
{
    ReceivedMessageFlags {
        end_of_record: bits & 0x80 != 0,
        out_of_band: bits & 0x1 != 0,
        error_queue: false,
    }
}

/// The smallest source-address length the kernel must return for a family:
/// `sockaddr_in`, `sockaddr_in6` or `sockaddr_ll`.
pub open spec fn minimum_source_length(family: u8) -> Option<u32> {
    if family == 4 {
        Some(16)
    } else if family == 6 {
        Some(28)
    } else if family == 17 {
        Some(20)
    } else {
        None
    }
}

/// The address family the source of a family's message must carry.
pub open spec fn source_address_family(family: u8) -> u16 {
    if family == 4 {
        2
    } else if family == 6 {
        10
    } else {
        17
    }
}

/// Checks the source address the kernel returned for one batch message: a
/// known family, a long enough address, and the matching address family (and,
/// for packets, a non-negative interface index).
pub fn check_batch_source(
    family: u8,
    returned_length: u32,
    address_family: u16,
    interface_index: i32,
) -> (r: Result<(), NativeError>)
    ensures
        minimum_source_length(family) is None ==> fails_with(
            r,
            plain_error(
                ErrorKind::Internal,
                "ERR_INTERNAL"@,
                Operation::ReceiveBatch,
                "unknown batch socket family"@,
            ),
        ),
        minimum_source_length(family) matches Some(minimum) && returned_length < minimum
            ==> fails_with(
            r,
            plain_error(
                ErrorKind::MalformedControl,
                "ERR_MALFORMED_CONTROL"@,
                Operation::ReceiveBatch,
                "kernel returned a truncated batch source address"@,
            ),
        ),
        r is Ok <==> (minimum_source_length(family) matches Some(minimum) && returned_length
            >= minimum && address_family == source_address_family(family) && (family == 17
            ==> interface_index >= 0)),
        (minimum_source_length(family) matches Some(minimum) && returned_length >= minimum)
            && r is Err ==> r->Err_0@.kind == ErrorKind::Internal && r->Err_0@.operation
            == Operation::ReceiveBatch,
{
    let minimum: u32 = if family == 4 {
        16
    } else if family == 6 {
        28
    } else if family == 17 {
        20
    } else {
        return Err(NativeError::internal(Operation::ReceiveBatch, "unknown batch socket family"));
    };
    if returned_length < minimum {
        return Err(
            NativeError::malformed_control(
                Operation::ReceiveBatch,
                "kernel returned a truncated batch source address",
            ),
        );
    }
    if family == 4 {
        if address_family != 2 {
            return Err(
                NativeError::internal(
                    Operation::ReceiveBatch,
                    "kernel returned a non-IPv4 batch source",
                ),
            );
        }
    } else if family == 6 {
        if address_family != 10 {
            return Err(
                NativeError::internal(
                    Operation::ReceiveBatch,
                    "kernel returned a non-IPv6 batch source",
                ),
            );
        }
    } else if address_family != 17 || interface_index < 0 {
        return Err(
            NativeError::internal(
                Operation::ReceiveBatch,
                "kernel returned a malformed packet batch source",
            ),
        );
    }
    Ok(())
}

/// The link-layer source of a received packet, from the `sockaddr_ll` fields
/// in host order.
pub fn packet_source(
    interface_index: i32,
    protocol: u16,
    hardware: [u8; 8],
    hardware_length: u8,
) -> (r: Result<PacketAddress, NativeError>)
    requires
        interface_index >= 0,
    ensures
        hardware_length > MAX_LINK_ADDRESS_LENGTH ==> fails_with(
            r,
            plain_error(
                ErrorKind::MalformedControl,
                "ERR_MALFORMED_CONTROL"@,
                Operation::ReceiveBatch,
                "kernel packet batch source exceeded sockaddr_ll address capacity"@,
            ),
        ),
        hardware_length <= MAX_LINK_ADDRESS_LENGTH ==> (r matches Ok(address) && {
            &&& address.interface_index == interface_index
            &&& address.protocol == protocol
            &&& address.hardware_address@ == hardware@.take(hardware_length as int)
        }),
{
    if hardware_length as usize > MAX_LINK_ADDRESS_LENGTH {
        return Err(
            NativeError::malformed_control(
                Operation::ReceiveBatch,
                "kernel packet batch source exceeded sockaddr_ll address capacity",
            ),
        );
    }
    let mut hardware_address: Vec<u8> = Vec::new();
    let mut i: usize = 0;
    while i < hardware_length as usize
        invariant
            hardware_length <= 8,
            i <= hardware_length,
            hardware_address@ == hardware@.take(i as int),
        decreases hardware_length - i,
    {
        hardware_address.push(hardware[i]);
        proof {
            assert(hardware_address@ =~= hardware@.take(i + 1));
        }
        i = i + 1;
    }
    Ok(PacketAddress { interface_index: interface_index as u32, protocol, hardware_address })
}

} // verus!

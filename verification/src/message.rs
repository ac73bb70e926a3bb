//! One-message send and receive rules: capacity bounds, outbound ancillary
//! controls, and the typed decoding of inbound ancillary controls.
use vstd::prelude::*;

use crate::error::{fails_with, plain_error, ErrorKind, NativeError, NativeErrorView, Operation};

verus! {

pub const DEFAULT_CONTROL_CAPACITY: usize = 4096;

pub const MAX_CONTROL_CAPACITY: usize = 65536;

pub const MAX_MESSAGE_ALLOCATION: usize = 131072;

pub const MAX_CONTROL_MESSAGES: usize = 64;

#[derive(Clone, Copy, Debug, Default, PartialEq, Eq, Structural)]
pub struct SendMessageFlags {
    pub dont_route: bool,
}

#[derive(Clone, Copy, Debug, Default, PartialEq, Eq, Structural)]
pub struct ReceiveMessageFlags {
    pub peek: bool,
    pub error_queue: bool,
}

#[derive(Clone, Copy, Debug, Default, PartialEq, Eq, Structural)]
pub struct ReceivedMessageFlags {
    pub end_of_record: bool,
    pub out_of_band: bool,
    pub error_queue: bool,
}

/// An IPv4 socket address with its port in host order.
#[derive(Clone, Copy, Debug, PartialEq, Eq)]
pub struct SocketAddressV4 {
    pub address: [u8; 4],
    pub port: u16,
}

/// An IPv6 socket address with port and flow label in host order.
#[derive(Clone, Copy, Debug, PartialEq, Eq)]
pub struct SocketAddressV6 {
    pub address: [u8; 16],
    pub port: u16,
    pub flowinfo: u32,
    pub scope_id: u32,
}

/// One outbound ancillary control a caller may attach to a message.
#[derive(Clone, Copy, Debug, PartialEq, Eq)]
pub enum SendControlMessage {
    Ipv4PacketInfo { interface_index: u32, source_address: Option<[u8; 4]> },
    Ipv4Ttl(u8),
    Ipv6PacketInfo { interface_index: u32, source_address: Option<[u8; 16]> },
    Ipv6HopLimit(u8),
    Ipv6TrafficClass(u8),
}

/// The validated outbound controls: at most one of each kind.
#[derive(Clone, Copy, Debug, PartialEq, Eq)]
pub struct SendControlStorage {
    /// Interface index and the preferred source (all zero when unspecified).
    pub packet_info: Option<(i32, [u8; 4])>,
    pub ttl: Option<i32>,
    /// Preferred source (all zero when unspecified) and interface index.
    pub ipv6_packet_info: Option<([u8; 16], u32)>,
    pub ipv6_hop_limit: Option<i32>,
    pub ipv6_traffic_class: Option<i32>,
}

/// One inbound ancillary control as the kernel delivered it.
#[derive(Clone, Debug, PartialEq, Eq)]
pub enum KernelControlMessage {
    Ipv4PacketInfo { interface_index: i32, spec_destination: [u8; 4], destination: [u8; 4] },
    Ipv4Ttl(i32),
    Ipv4Tos(u8),
    TimestampNanoseconds { seconds: i64, nanoseconds: i64 },
    ReceiveQueueOverflow(u32),
    Ipv4ExtendedError {
        errno: u32,
        origin: u8,
        error_type: u8,
        error_code: u8,
        info: u32,
        data: u32,
        /// The offender's address family and address, when the kernel supplied one.
        offender: Option<(u16, [u8; 4])>,
    },
    Ipv6PacketInfo { destination: [u8; 16], interface_index: u32 },
    Ipv6HopLimit(i32),
    Ipv6TrafficClass(i32),
    Ipv6ExtendedError {
        errno: u32,
        origin: u8,
        error_type: u8,
        error_code: u8,
        info: u32,
        data: u32,
        /// The offender's address family and address, when the kernel supplied one.
        offender: Option<(u16, SocketAddressV6)>,
    },
    Unknown { level: i32, message_type: i32, data: Vec<u8> },
    /// Descriptors passed with `SCM_RIGHTS`; the caller has already closed them.
    DescriptorRights,
    /// Any other known control this socket family does not report.
    Unsupported,
}

/// One typed inbound ancillary control.
#[derive(Clone, Debug, PartialEq, Eq)]
pub enum ReceivedControlMessage {
    Ipv4PacketInfo { interface_index: u32, selected_address: [u8; 4], destination_address: [u8; 4] },
    Ipv4Ttl(u8),
    Ipv4TypeOfService(u8),
    TimestampNanoseconds { seconds: i64, nanoseconds: u32 },
    ReceiveQueueOverflow(u32),
    Ipv4ExtendedError {
        errno: u32,
        origin: u8,
        error_type: u8,
        error_code: u8,
        info: u32,
        data: u32,
        offender: Option<[u8; 4]>,
    },
    Ipv6PacketInfo { interface_index: u32, destination_address: [u8; 16] },
    Ipv6HopLimit(u8),
    Ipv6TrafficClass(u8),
    Ipv6ExtendedError {
        errno: u32,
        origin: u8,
        error_type: u8,
        error_code: u8,
        info: u32,
        data: u32,
        offender: Option<SocketAddressV6>,
    },
    Unknown { level: i32, message_type: i32, data: Vec<u8> },
}

/// Whether a receive buffer pair is within the per-message allocation limits.
pub open spec fn valid_capacities(data_capacity: usize, control_capacity: usize) -> bool {
    &&& 1 <= data_capacity <= 65535
    &&& control_capacity <= MAX_CONTROL_CAPACITY
    &&& data_capacity + control_capacity <= MAX_MESSAGE_ALLOCATION
}

/// Checks the data and control capacities of one receive.
pub fn validate_capacities(
    data_capacity: usize,
    control_capacity: usize,
    operation: Operation,
) -> (r: Result<(), NativeError>)
    ensures
        r is Ok <==> valid_capacities(data_capacity, control_capacity),
        !(1 <= data_capacity <= 65535) ==> fails_with(
            r,
            plain_error(
                ErrorKind::InvalidArgument,
                "ERR_INVALID_ARGUMENT"@,
                operation,
                "data capacity must be from 1 through 65535"@,
            ),
        ),
        (1 <= data_capacity <= 65535 && control_capacity > MAX_CONTROL_CAPACITY) ==> fails_with(
            r,
            plain_error(
                ErrorKind::InvalidArgument,
                "ERR_INVALID_ARGUMENT"@,
                operation,
                "control capacity must not exceed 65536"@,
            ),
        ),
        (1 <= data_capacity <= 65535 && control_capacity <= MAX_CONTROL_CAPACITY && data_capacity
            + control_capacity > MAX_MESSAGE_ALLOCATION) ==> fails_with(
            r,
            plain_error(
                ErrorKind::InvalidArgument,
                "ERR_INVALID_ARGUMENT"@,
                operation,
                "combined message allocation must not exceed 131072"@,
            ),
        ),
{
    if data_capacity == 0 || data_capacity > 65535 {
        return Err(
            NativeError::invalid_argument(operation, "data capacity must be from 1 through 65535"),
        );
    }
    if control_capacity > MAX_CONTROL_CAPACITY {
        return Err(NativeError::invalid_argument(operation, "control capacity must not exceed 65536"));
    }
    let combined = data_capacity + control_capacity;
    if combined > MAX_MESSAGE_ALLOCATION {
        return Err(
            NativeError::invalid_argument(
                operation,
                "combined message allocation must not exceed 131072",
            ),
        );
    }
    Ok(())
}

/// The empty outbound control set.
pub open spec fn empty_storage() -> SendControlStorage {
    SendControlStorage {
        packet_info: None,
        ttl: None,
        ipv6_packet_info: None,
        ipv6_hop_limit: None,
        ipv6_traffic_class: None,
    }
}

/// The error view for a repeated outbound control.
pub open spec fn duplicate_error(name: Seq<char>) -> NativeErrorView {
    plain_error(
        ErrorKind::InvalidArgument,
        "ERR_INVALID_ARGUMENT"@,
        Operation::SendMessage,
        "send control message "@ + name + " may appear at most once"@,
    )
}

/// Adds one outbound control to a storage, or the failure it causes.
pub open spec fn add_control(storage: SendControlStorage, message: SendControlMessage) -> Result<
    SendControlStorage,
    NativeErrorView,
> {
    match message {
        SendControlMessage::Ipv4PacketInfo { interface_index, source_address } => {
            if storage.packet_info is Some {
                Err(duplicate_error("ipv4PacketInfo"@))
            } else if interface_index > 0x7fff_ffff {
                Err(
                    plain_error(
                        ErrorKind::InvalidArgument,
                        "ERR_INVALID_ARGUMENT"@,
                        Operation::SendMessage,
                        "interface index must fit in a signed 32-bit integer"@,
                    ),
                )
            } else {
                Ok(
                    SendControlStorage {
                        packet_info: Some(
                            (
                                interface_index as i32,
                                match source_address {
                                    Some(address) => address,
                                    None => [0u8, 0, 0, 0],
                                },
                            ),
                        ),
                        ..storage
                    },
                )
            }
        },
        SendControlMessage::Ipv4Ttl(ttl) => {
            if storage.ttl is Some {
                Err(duplicate_error("ipv4Ttl"@))
            } else {
                Ok(SendControlStorage { ttl: Some(ttl as i32), ..storage })
            }
        },
        SendControlMessage::Ipv6PacketInfo { interface_index, source_address } => {
            if storage.ipv6_packet_info is Some {
                Err(duplicate_error("ipv6PacketInfo"@))
            } else {
                Ok(
                    SendControlStorage {
                        ipv6_packet_info: Some(
                            (
                                match source_address {
                                    Some(address) => address,
                                    None => [0u8, 0, 0, 0, 0, 0, 0, 0, 0, 0, 0, 0, 0, 0, 0, 0],
                                },
                                interface_index,
                            ),
                        ),
                        ..storage
                    },
                )
            }
        },
        SendControlMessage::Ipv6HopLimit(value) => {
            if storage.ipv6_hop_limit is Some {
                Err(duplicate_error("ipv6HopLimit"@))
            } else {
                Ok(SendControlStorage { ipv6_hop_limit: Some(value as i32), ..storage })
            }
        },
        SendControlMessage::Ipv6TrafficClass(value) => {
            if storage.ipv6_traffic_class is Some {
                Err(duplicate_error("ipv6TrafficClass"@))
            } else {
                Ok(SendControlStorage { ipv6_traffic_class: Some(value as i32), ..storage })
            }
        },
    }
}

/// The storage built from a sequence of controls, in order, stopping at the
/// first failure.
pub open spec fn storage_of(messages: Seq<SendControlMessage>) -> Result<
    SendControlStorage,
    NativeErrorView,
>
    decreases messages.len(),
{
    if messages.len() == 0 {
        Ok(empty_storage())
    } else {
        match storage_of(messages.drop_last()) {
            Ok(storage) => add_control(storage, messages.last()),
            Err(e) => Err(e),
        }
    }
}

proof fn lemma_storage_error_persists(
    messages: Seq<SendControlMessage>,
    i: int,
    e: NativeErrorView,
)
    requires
        0 <= i <= messages.len(),
        storage_of(messages.take(i)) == Err::<SendControlStorage, NativeErrorView>(e),
    ensures
        storage_of(messages) == Err::<SendControlStorage, NativeErrorView>(e),
    decreases messages.len() - i,
{
    if i < messages.len() {
        assert(messages.take(i + 1).drop_last() =~= messages.take(i));
        lemma_storage_error_persists(messages, i + 1, e);
    } else {
        assert(messages.take(i) =~= messages);
    }
}

fn duplicate_send_control(name: &str) -> (r: NativeError)
    ensures
        r@ == duplicate_error(name@),
{
    let message = String::from_str("send control message ");
    let message = message.concat(name);
    let message = message.concat(" may appear at most once");
    NativeError::invalid_argument(Operation::SendMessage, message.as_str())
}

impl SendControlStorage {
    /// Validates outbound controls: at most 64, each kind at most once, and a
    /// signed-32-bit IPv4 interface index.
    pub fn new(messages: &[SendControlMessage]) -> (r: Result<Self, NativeError>)
        ensures
            messages@.len() > MAX_CONTROL_MESSAGES ==> fails_with(
                r,
                plain_error(
                    ErrorKind::InvalidArgument,
                    "ERR_INVALID_ARGUMENT"@,
                    Operation::SendMessage,
                    "control message count must not exceed 64"@,
                ),
            ),
            messages@.len() <= MAX_CONTROL_MESSAGES ==> match storage_of(messages@) {
                Ok(storage) => r == Ok::<Self, NativeError>(storage),
                Err(e) => fails_with(r, e),
            },
    {
        if messages.len() > MAX_CONTROL_MESSAGES {
            return Err(
                NativeError::invalid_argument(
                    Operation::SendMessage,
                    "control message count must not exceed 64",
                ),
            );
        }
        let mut storage = SendControlStorage {
            packet_info: None,
            ttl: None,
            ipv6_packet_info: None,
            ipv6_hop_limit: None,
            ipv6_traffic_class: None,
        };
        let mut i: usize = 0;
        while i < messages.len()
            invariant
                i <= messages@.len(),
                messages@.len() <= MAX_CONTROL_MESSAGES,
                storage_of(messages@.take(i as int)) == Ok::<
                    SendControlStorage,
                    NativeErrorView,
                >(storage),
            decreases messages@.len() - i,
        {
            proof {
                assert(messages@.take(i + 1).drop_last() =~= messages@.take(i as int));
            }
            let message = messages[i];
            match message {
                SendControlMessage::Ipv4PacketInfo { interface_index, source_address } => {
                    if storage.packet_info.is_some() {
                        let e = duplicate_send_control("ipv4PacketInfo");
                        proof {
                            lemma_storage_error_persists(messages@, i + 1, e@);
                        }
                        return Err(e);
                    }
                    if interface_index > 0x7fff_ffff {
                        let e = NativeError::invalid_argument(
                            Operation::SendMessage,
                            "interface index must fit in a signed 32-bit integer",
                        );
                        proof {
                            lemma_storage_error_persists(messages@, i + 1, e@);
                        }
                        return Err(e);
                    }
                    let source = match source_address {
                        Some(address) => address,
                        None => [0u8, 0, 0, 0],
                    };
                    storage.packet_info = Some((interface_index as i32, source));
                },
                SendControlMessage::Ipv4Ttl(ttl) => {
                    if storage.ttl.is_some() {
                        let e = duplicate_send_control("ipv4Ttl");
                        proof {
                            lemma_storage_error_persists(messages@, i + 1, e@);
                        }
                        return Err(e);
                    }
                    storage.ttl = Some(ttl as i32);
                },
                SendControlMessage::Ipv6PacketInfo { interface_index, source_address } => {
                    if storage.ipv6_packet_info.is_some() {
                        let e = duplicate_send_control("ipv6PacketInfo");
                        proof {
                            lemma_storage_error_persists(messages@, i + 1, e@);
                        }
                        return Err(e);
                    }
                    let source = match source_address {
                        Some(address) => address,
                        None => [0u8, 0, 0, 0, 0, 0, 0, 0, 0, 0, 0, 0, 0, 0, 0, 0],
                    };
                    storage.ipv6_packet_info = Some((source, interface_index));
                },
                SendControlMessage::Ipv6HopLimit(value) => {
                    if storage.ipv6_hop_limit.is_some() {
                        let e = duplicate_send_control("ipv6HopLimit");
                        proof {
                            lemma_storage_error_persists(messages@, i + 1, e@);
                        }
                        return Err(e);
                    }
                    storage.ipv6_hop_limit = Some(value as i32);
                },
                SendControlMessage::Ipv6TrafficClass(value) => {
                    if storage.ipv6_traffic_class.is_some() {
                        let e = duplicate_send_control("ipv6TrafficClass");
                        proof {
                            lemma_storage_error_persists(messages@, i + 1, e@);
                        }
                        return Err(e);
                    }
                    storage.ipv6_traffic_class = Some(value as i32);
                },
            }
            i = i + 1;
        }
        proof {
            assert(messages@.take(messages@.len() as int) =~= messages@);
        }
        Ok(storage)
    }
}

/// The malformed-control error view with a given message.
pub open spec fn malformed(operation: Operation, message: Seq<char>) -> NativeErrorView {
    plain_error(ErrorKind::MalformedControl, "ERR_MALFORMED_CONTROL"@, operation, message)
}

/// The typed form of one inbound control, or the failure it causes.
pub open spec fn convert_one(message: KernelControlMessage, operation: Operation) -> Result<
    ReceivedControlMessage,
    NativeErrorView,
> {
    match message {
        KernelControlMessage::Ipv4PacketInfo { interface_index, spec_destination, destination } => {
            if interface_index < 0 {
                Err(malformed(operation, "kernel returned a negative interface index"@))
            } else {
                Ok(
                    ReceivedControlMessage::Ipv4PacketInfo {
                        interface_index: interface_index as u32,
                        selected_address: spec_destination,
                        destination_address: destination,
                    },
                )
            }
        },
        KernelControlMessage::Ipv4Ttl(ttl) => {
            if 0 <= ttl <= 255 {
                Ok(ReceivedControlMessage::Ipv4Ttl(ttl as u8))
            } else {
                Err(malformed(operation, "kernel returned an IPv4 TTL outside 0 through 255"@))
            }
        },
        KernelControlMessage::Ipv4Tos(tos) => Ok(ReceivedControlMessage::Ipv4TypeOfService(tos)),
        KernelControlMessage::TimestampNanoseconds { seconds, nanoseconds } => {
            if nanoseconds < 0 || nanoseconds > 0xffff_ffff {
                Err(malformed(operation, "kernel returned a negative timestamp nanosecond field"@))
            } else if nanoseconds >= 1_000_000_000 {
                Err(malformed(operation, "kernel returned an invalid timestamp nanosecond field"@))
            } else {
                Ok(
                    ReceivedControlMessage::TimestampNanoseconds {
                        seconds,
                        nanoseconds: nanoseconds as u32,
                    },
                )
            }
        },
        KernelControlMessage::ReceiveQueueOverflow(count) => Ok(
            ReceivedControlMessage::ReceiveQueueOverflow(count),
        ),
        KernelControlMessage::Ipv4ExtendedError {
            errno,
            origin,
            error_type,
            error_code,
            info,
            data,
            offender,
        } => Ok(
            ReceivedControlMessage::Ipv4ExtendedError {
                errno,
                origin,
                error_type,
                error_code,
                info,
                data,
                offender: match offender {
                    Some((family, address)) => if family == 2 {
                        Some(address)
                    } else {
                        None
                    },
                    None => None,
                },
            },
        ),
        KernelControlMessage::Ipv6PacketInfo { destination, interface_index } => Ok(
            ReceivedControlMessage::Ipv6PacketInfo {
                interface_index,
                destination_address: destination,
            },
        ),
        KernelControlMessage::Ipv6HopLimit(limit) => {
            if 0 <= limit <= 255 {
                Ok(ReceivedControlMessage::Ipv6HopLimit(limit as u8))
            } else {
                Err(
                    malformed(
                        operation,
                        "kernel returned an IPv6 hop limit outside 0 through 255"@,
                    ),
                )
            }
        },
        KernelControlMessage::Ipv6TrafficClass(class) => {
            if 0 <= class <= 255 {
                Ok(ReceivedControlMessage::Ipv6TrafficClass(class as u8))
            } else {
                Err(
                    malformed(
                        operation,
                        "kernel returned an IPv6 traffic class outside 0 through 255"@,
                    ),
                )
            }
        },
        KernelControlMessage::Ipv6ExtendedError {
            errno,
            origin,
            error_type,
            error_code,
            info,
            data,
            offender,
        } => Ok(
            ReceivedControlMessage::Ipv6ExtendedError {
                errno,
                origin,
                error_type,
                error_code,
                info,
                data,
                offender: match offender {
                    Some((family, address)) => if family == 10 {
                        Some(address)
                    } else {
                        None
                    },
                    None => None,
                },
            },
        ),
        KernelControlMessage::Unknown { level, message_type, data } => Ok(
            ReceivedControlMessage::Unknown { level, message_type, data },
        ),
        KernelControlMessage::DescriptorRights => Err(
            plain_error(
                ErrorKind::Unsupported,
                "ERR_UNSUPPORTED"@,
                operation,
                "SCM_RIGHTS is not supported on raw network sockets"@,
            ),
        ),
        KernelControlMessage::Unsupported => Err(
            plain_error(
                ErrorKind::Unsupported,
                "ERR_UNSUPPORTED"@,
                operation,
                "received a known ancillary message unsupported by IPv4 raw sockets"@,
            ),
        ),
    }
}

/// The typed controls of a received sequence, in order, stopping at the first
/// failure; more than 64 controls is itself a failure.
pub open spec fn convert_all(messages: Seq<KernelControlMessage>, operation: Operation) -> Result<
    Seq<ReceivedControlMessage>,
    NativeErrorView,
>
    decreases messages.len(),
{
    if messages.len() == 0 {
        Ok(Seq::empty())
    } else {
        match convert_all(messages.drop_last(), operation) {
            Ok(converted) => if converted.len() >= MAX_CONTROL_MESSAGES {
                Err(malformed(operation, "received more than 64 control messages"@))
            } else {
                match convert_one(messages.last(), operation) {
                    Ok(message) => Ok(converted.push(message)),
                    Err(e) => Err(e),
                }
            },
            Err(e) => Err(e),
        }
    }
}

proof fn lemma_conversion_error_persists(
    messages: Seq<KernelControlMessage>,
    operation: Operation,
    i: int,
    e: NativeErrorView,
)
    requires
        0 <= i <= messages.len(),
        convert_all(messages.take(i), operation) == Err::<Seq<ReceivedControlMessage>, NativeErrorView>(e),
    ensures
        convert_all(messages, operation) == Err::<Seq<ReceivedControlMessage>, NativeErrorView>(e),
    decreases messages.len() - i,
{
    if i < messages.len() {
        assert(messages.take(i + 1).drop_last() =~= messages.take(i));
        lemma_conversion_error_persists(messages, operation, i + 1, e);
    } else {
        assert(messages.take(i) =~= messages);
    }
}

fn convert_message(message: KernelControlMessage, operation: Operation) -> (r: Result<
    ReceivedControlMessage,
    NativeError,
>)
    ensures
        match convert_one(message, operation) {
            Ok(converted) => r == Ok::<ReceivedControlMessage, NativeError>(converted),
            Err(e) => fails_with(r, e),
        },
{
    match message {
        KernelControlMessage::Ipv4PacketInfo { interface_index, spec_destination, destination } => {
            if interface_index < 0 {
                return Err(
                    NativeError::malformed_control(
                        operation,
                        "kernel returned a negative interface index",
                    ),
                );
            }
            Ok(
                ReceivedControlMessage::Ipv4PacketInfo {
                    interface_index: interface_index as u32,
                    selected_address: spec_destination,
                    destination_address: destination,
                },
            )
        },
        KernelControlMessage::Ipv4Ttl(ttl) => {
            let ttl = ttl;
            if 0 <= ttl && ttl <= 255 {
                Ok(ReceivedControlMessage::Ipv4Ttl(ttl as u8))
            } else {
                Err(
                    NativeError::malformed_control(
                        operation,
                        "kernel returned an IPv4 TTL outside 0 through 255",
                    ),
                )
            }
        },
        KernelControlMessage::Ipv4Tos(tos) => Ok(ReceivedControlMessage::Ipv4TypeOfService(tos)),
        KernelControlMessage::TimestampNanoseconds { seconds, nanoseconds } => {
            let nanoseconds = nanoseconds;
            if nanoseconds < 0 || nanoseconds > 0xffff_ffff {
                return Err(
                    NativeError::malformed_control(
                        operation,
                        "kernel returned a negative timestamp nanosecond field",
                    ),
                );
            }
            if nanoseconds >= 1_000_000_000 {
                return Err(
                    NativeError::malformed_control(
                        operation,
                        "kernel returned an invalid timestamp nanosecond field",
                    ),
                );
            }
            Ok(
                ReceivedControlMessage::TimestampNanoseconds {
                    seconds: seconds,
                    nanoseconds: nanoseconds as u32,
                },
            )
        },
        KernelControlMessage::ReceiveQueueOverflow(count) => Ok(
            ReceivedControlMessage::ReceiveQueueOverflow(count),
        ),
        KernelControlMessage::Ipv4ExtendedError {
            errno,
            origin,
            error_type,
            error_code,
            info,
            data,
            offender,
        } => {
            let offender = match offender {
                Some((family, address)) => if family == 2 {
                    Some(address)
                } else {
                    None
                },
                None => None,
            };
            Ok(
                ReceivedControlMessage::Ipv4ExtendedError {
                    errno: errno,
                    origin: origin,
                    error_type: error_type,
                    error_code: error_code,
                    info: info,
                    data: data,
                    offender,
                },
            )
        },
        KernelControlMessage::Ipv6PacketInfo { destination, interface_index } => Ok(
            ReceivedControlMessage::Ipv6PacketInfo {
                interface_index: interface_index,
                destination_address: destination,
            },
        ),
        KernelControlMessage::Ipv6HopLimit(limit) => {
            let limit = limit;
            if 0 <= limit && limit <= 255 {
                Ok(ReceivedControlMessage::Ipv6HopLimit(limit as u8))
            } else {
                Err(
                    NativeError::malformed_control(
                        operation,
                        "kernel returned an IPv6 hop limit outside 0 through 255",
                    ),
                )
            }
        },
        KernelControlMessage::Ipv6TrafficClass(class) => {
            let class = class;
            if 0 <= class && class <= 255 {
                Ok(ReceivedControlMessage::Ipv6TrafficClass(class as u8))
            } else {
                Err(
                    NativeError::malformed_control(
                        operation,
                        "kernel returned an IPv6 traffic class outside 0 through 255",
                    ),
                )
            }
        },
        KernelControlMessage::Ipv6ExtendedError {
            errno,
            origin,
            error_type,
            error_code,
            info,
            data,
            offender,
        } => {
            let offender = match offender {
                Some((family, address)) => if family == 10 {
                    Some(address)
                } else {
                    None
                },
                None => None,
            };
            Ok(
                ReceivedControlMessage::Ipv6ExtendedError {
                    errno: errno,
                    origin: origin,
                    error_type: error_type,
                    error_code: error_code,
                    info: info,
                    data: data,
                    offender,
                },
            )
        },
        KernelControlMessage::Unknown { level, message_type, data } => {
            Ok(ReceivedControlMessage::Unknown { level, message_type, data })
        },
        KernelControlMessage::DescriptorRights => Err(
            NativeError::unsupported(
                operation,
                "SCM_RIGHTS is not supported on raw network sockets",
            ),
        ),
        KernelControlMessage::Unsupported => Err(
            NativeError::unsupported(
                operation,
                "received a known ancillary message unsupported by IPv4 raw sockets",
            ),
        ),
    }
}

/// Converts received ancillary controls to their typed form, in order.
pub fn convert_control_messages(
    messages: Vec<KernelControlMessage>,
    operation: Operation,
) -> (r: Result<Vec<ReceivedControlMessage>, NativeError>)
    ensures
        match convert_all(messages@, operation) {
            Ok(converted) => r matches Ok(out) && out@ == converted,
            Err(e) => fails_with(r, e),
        },
{
    let ghost received = messages@;
    let mut remaining = messages;
    let mut converted: Vec<ReceivedControlMessage> = Vec::new();
    let count = remaining.len();
    let mut i: usize = 0;
    while i < count
        invariant
            received == messages@,
            count == received.len(),
            i <= count,
            remaining@ == received.skip(i as int),
            convert_all(received.take(i as int), operation) == Ok::<
                Seq<ReceivedControlMessage>,
                NativeErrorView,
            >(converted@),
        decreases count - i,
    {
        proof {
            assert(received.take(i + 1).drop_last() =~= received.take(i as int));
            assert(received.take(i + 1).last() == received[i as int]);
        }
        if converted.len() >= MAX_CONTROL_MESSAGES {
            let e = NativeError::malformed_control(
                operation,
                "received more than 64 control messages",
            );
            proof {
                lemma_conversion_error_persists(received, operation, i + 1, e@);
            }
            return Err(e);
        }
        let message = remaining.remove(0);
        proof {
            assert(remaining@ =~= received.skip(i + 1));
        }
        match convert_message(message, operation) {
            Ok(value) => converted.push(value),
            Err(e) => {
                proof {
                    lemma_conversion_error_persists(received, operation, i + 1, e@);
                }
                return Err(e);
            },
        }
        i = i + 1;
    }
    proof {
        assert(received.take(count as int) =~= received);
    }
    Ok(converted)
}

/// The flags reported for a received message, from the kernel's flag bits
/// (`MSG_EOR`, `MSG_OOB`, `MSG_ERRQUEUE`).
pub open spec fn flags_of(bits: i32) -> ReceivedMessageFlags {
    ReceivedMessageFlags {
        end_of_record: bits & 0x80 != 0,
        out_of_band: bits & 0x1 != 0,
        error_queue: bits & 0x2000 != 0,
    }
}

/// The flags reported for a received message, from the kernel's flag bits.
pub fn received_message_flags(bits: i32) -> (r: ReceivedMessageFlags)
    ensures
        r == flags_of(bits),
{
    ReceivedMessageFlags {
        end_of_record: bits & 0x80 != 0,
        out_of_band: bits & 0x1 != 0,
        error_queue: bits & 0x2000 != 0,
    }
}

/// The number of received bytes kept in a buffer of the given capacity.
pub open spec fn kept_length(data_length: usize, data_capacity: usize) -> usize {
    if data_length < data_capacity {
        data_length
    } else {
        data_capacity
    }
}

/// Whether the kernel cut the control data short (`MSG_CTRUNC`).
pub open spec fn control_cut(bits: i32) -> bool {
    bits & 0x8 != 0
}

/// Whether the datagram did not fit the buffer (`MSG_TRUNC`, or a longer
/// reported length).
pub open spec fn data_cut(bits: i32, data_length: usize, data_capacity: usize) -> bool {
    bits & 0x20 != 0 || data_length > data_capacity
}

/// The typed controls a received message reports: none when the kernel cut
/// them short, else the converted controls.
pub open spec fn reported_controls(
    bits: i32,
    controls: Seq<KernelControlMessage>,
    operation: Operation,
) -> Result<Seq<ReceivedControlMessage>, NativeErrorView> {
    if control_cut(bits) {
        Ok(Seq::empty())
    } else {
        convert_all(controls, operation)
    }
}

/// One received IPv4 message with its typed controls.
#[derive(Debug, PartialEq, Eq)]
pub struct ReceivedIpv4Message {
    pub data: Vec<u8>,
    pub source_address: Option<[u8; 4]>,
    pub data_length: usize,
    pub data_truncated: bool,
    pub control_truncated: bool,
    pub flags: ReceivedMessageFlags,
    pub control: Vec<ReceivedControlMessage>,
}

/// One received IPv6 message with its typed controls.
#[derive(Debug, PartialEq, Eq)]
pub struct ReceivedIpv6Message {
    pub data: Vec<u8>,
    pub source_address: Option<SocketAddressV6>,
    pub data_length: usize,
    pub data_truncated: bool,
    pub control_truncated: bool,
    pub flags: ReceivedMessageFlags,
    pub control: Vec<ReceivedControlMessage>,
}

fn finish_receive(
    data: Vec<u8>,
    data_capacity: usize,
    data_length: usize,
    bits: i32,
    controls: Vec<KernelControlMessage>,
    operation: Operation,
) -> (r: Result<(Vec<u8>, Vec<ReceivedControlMessage>), NativeError>)
    requires
        data@.len() == data_capacity,
    ensures
        match reported_controls(bits, controls@, operation) {
            Ok(converted) => r matches Ok((kept, out)) && kept@ == data@.take(
                kept_length(data_length, data_capacity) as int,
            ) && out@ == converted,
            Err(e) => fails_with(r, e),
        },
{
    let control = if bits & 0x8 != 0 {
        Vec::new()
    } else {
        match convert_control_messages(controls, operation) {
            Ok(converted) => converted,
            Err(e) => return Err(e),
        }
    };
    let ghost received = data@;
    let mut data = data;
    let kept = if data_length < data_capacity {
        data_length
    } else {
        data_capacity
    };
    data.truncate(kept);
    proof {
        assert(data@ =~= received.take(kept as int));
    }
    Ok((data, control))
}

/// Assembles a received IPv4 message from what `recvmsg(2)` returned: the
/// buffer, the reported length, the kernel flag bits, the source and the raw
/// controls.
pub fn assemble_ipv4_message(
    data: Vec<u8>,
    data_capacity: usize,
    data_length: usize,
    bits: i32,
    source_address: Option<[u8; 4]>,
    controls: Vec<KernelControlMessage>,
    operation: Operation,
) -> (r: Result<ReceivedIpv4Message, NativeError>)
    requires
        data@.len() == data_capacity,
    ensures
        match reported_controls(bits, controls@, operation) {
            Ok(converted) => r matches Ok(message) && {
                &&& message.data@ == data@.take(kept_length(data_length, data_capacity) as int)
                &&& message.source_address == source_address
                &&& message.data_length == data_length
                &&& message.data_truncated == data_cut(bits, data_length, data_capacity)
                &&& message.control_truncated == control_cut(bits)
                &&& message.flags == flags_of(bits)
                &&& message.control@ == converted
            },
            Err(e) => fails_with(r, e),
        },
{
    match finish_receive(data, data_capacity, data_length, bits, controls, operation) {
        Ok((kept, control)) => Ok(
            ReceivedIpv4Message {
                data: kept,
                source_address,
                data_length,
                data_truncated: bits & 0x20 != 0 || data_length > data_capacity,
                control_truncated: bits & 0x8 != 0,
                flags: received_message_flags(bits),
                control,
            },
        ),
        Err(e) => Err(e),
    }
}

/// Assembles a received IPv6 message from what `recvmsg(2)` returned.
pub fn assemble_ipv6_message(
    data: Vec<u8>,
    data_capacity: usize,
    data_length: usize,
    bits: i32,
    source_address: Option<SocketAddressV6>,
    controls: Vec<KernelControlMessage>,
    operation: Operation,
) -> (r: Result<ReceivedIpv6Message, NativeError>)
    requires
        data@.len() == data_capacity,
    ensures
        match reported_controls(bits, controls@, operation) {
            Ok(converted) => r matches Ok(message) && {
                &&& message.data@ == data@.take(kept_length(data_length, data_capacity) as int)
                &&& message.source_address == source_address
                &&& message.data_length == data_length
                &&& message.data_truncated == data_cut(bits, data_length, data_capacity)
                &&& message.control_truncated == control_cut(bits)
                &&& message.flags == flags_of(bits)
                &&& message.control@ == converted
            },
            Err(e) => fails_with(r, e),
        },
{
    match finish_receive(data, data_capacity, data_length, bits, controls, operation) {
        Ok((kept, control)) => Ok(
            ReceivedIpv6Message {
                data: kept,
                source_address,
                data_length,
                data_truncated: bits & 0x20 != 0 || data_length > data_capacity,
                control_truncated: bits & 0x8 != 0,
                flags: received_message_flags(bits),
                control,
            },
        ),
        Err(e) => Err(e),
    }
}

/// The `recvmsg(2)` flag bits for one receive: always `MSG_TRUNC` and
/// `MSG_CMSG_CLOEXEC`, plus `MSG_PEEK` and `MSG_ERRQUEUE` on request.
pub fn receive_flag_bits(flags: ReceiveMessageFlags) -> (r: i32)
    ensures
        r == 0x4000_0020int + (if flags.peek { 0x2int } else { 0int }) + (if flags.error_queue {
            0x2000int
        } else {
            0int
        }),
{
    let mut bits: i32 = 0x4000_0020;
    if flags.peek {
        bits = bits + 0x2;
    }
    if flags.error_queue {
        bits = bits + 0x2000;
    }
    bits
}

/// The `sendmsg(2)` flag bits for one send: always `MSG_NOSIGNAL`, plus
/// `MSG_DONTROUTE` on request.
pub fn send_flag_bits(flags: SendMessageFlags) -> (r: i32)
    ensures
        r == 0x4000int + (if flags.dont_route { 0x4int } else { 0int }),
{
    if flags.dont_route {
        0x4004
    } else {
        0x4000
    }
}

/// The captured length and truncation flag of a received datagram.
pub fn received_data_length(
    data_length: usize,
    data_capacity: usize,
    kernel_truncated: bool,
) -> (r: (usize, bool))
    ensures
        r.0 == if data_length < data_capacity {
            data_length
        } else {
            data_capacity
        },
        r.1 == (kernel_truncated || data_length > data_capacity),
{
    let kept = if data_length < data_capacity {
        data_length
    } else {
        data_capacity
    };
    (kept, kernel_truncated || data_length > data_capacity)
}

/// Linux's `MSG_OOB` flag bit.
pub const MSG_OOB: i32 = 0x1;

/// Linux's `MSG_EOR` flag bit.
pub const MSG_EOR: i32 = 0x80;

/// Linux's `MSG_ERRQUEUE` flag bit.
pub const MSG_ERRQUEUE: i32 = 0x2000;

/// Each reported flag follows its own kernel bit and no other: setting the
/// bit sets the flag and clearing it clears the flag, whatever else the
/// kernel reported, and the other flags do not move.
pub proof fn received_flags_follow_their_bits(bits: i32)
    ensures
        flags_of(bits | MSG_ERRQUEUE).error_queue,
        !flags_of(bits & !MSG_ERRQUEUE).error_queue,
        flags_of(bits | MSG_EOR).end_of_record,
        !flags_of(bits & !MSG_EOR).end_of_record,
        flags_of(bits | MSG_OOB).out_of_band,
        !flags_of(bits & !MSG_OOB).out_of_band,
        flags_of(bits | MSG_ERRQUEUE).end_of_record == flags_of(bits).end_of_record,
        flags_of(bits | MSG_ERRQUEUE).out_of_band == flags_of(bits).out_of_band,
        flags_of(bits & !MSG_ERRQUEUE).end_of_record == flags_of(bits).end_of_record,
        flags_of(bits & !MSG_ERRQUEUE).out_of_band == flags_of(bits).out_of_band,
{
    assert((bits | 0x2000i32) & 0x2000i32 != 0) by (bit_vector);
    assert((bits & !0x2000i32) & 0x2000i32 == 0) by (bit_vector);
    assert((bits | 0x80i32) & 0x80i32 != 0) by (bit_vector);
    assert((bits & !0x80i32) & 0x80i32 == 0) by (bit_vector);
    assert((bits | 0x1i32) & 0x1i32 != 0) by (bit_vector);
    assert((bits & !0x1i32) & 0x1i32 == 0) by (bit_vector);
    assert(((bits | 0x2000i32) & 0x80i32 != 0) == (bits & 0x80i32 != 0)) by (bit_vector);
    assert(((bits | 0x2000i32) & 0x1i32 != 0) == (bits & 0x1i32 != 0)) by (bit_vector);
    assert(((bits & !0x2000i32) & 0x80i32 != 0) == (bits & 0x80i32 != 0)) by (bit_vector);
    assert(((bits & !0x2000i32) & 0x1i32 != 0) == (bits & 0x1i32 != 0)) by (bit_vector);
}

} // verus!

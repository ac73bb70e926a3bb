//! Typed Linux socket options: public names, value ranges, and the integer
//! encodings written to and read from the kernel.
use vstd::prelude::*;

use crate::error::{fails_with, plain_error, ErrorKind, NativeError, Operation};
use crate::text::{contains_nul, has_nul, str_eq, utf8};

verus! {

broadcast use vstd::string::group_string_axioms;

/// The largest socket buffer size a caller may request (16 MiB).
pub const MAX_SOCKET_BUFFER_SIZE: u32 = 16_777_216;

/// The longest Linux interface name, in bytes (`IFNAMSIZ - 1`).
pub const MAX_INTERFACE_NAME_BYTES: usize = 15;

#[derive(Clone, Copy, Debug, PartialEq, Eq, Structural)]
pub enum Ipv4SocketOption {
    Broadcast,
    IpTtl,
    IpTypeOfService,
    ReceiveBufferSize,
    SendBufferSize,
    ReceivePacketInfo,
    ReceiveTtl,
    ReceiveTypeOfService,
    ReceiveTimestampNanoseconds,
    ReceiveQueueOverflow,
    ReceiveErrors,
    HeaderIncluded,
    Freebind,
    Transparent,
    Priority,
    Mark,
    PathMtuDiscovery,
    MulticastTtl,
    MulticastLoop,
    BusyPollMicroseconds,
}

#[derive(Clone, Copy, Debug, PartialEq, Eq, Structural)]
pub enum Ipv6SocketOption {
    Ipv6Only,
    UnicastHops,
    TrafficClass,
    MulticastHops,
    ReceiveBufferSize,
    SendBufferSize,
    ReceivePacketInfo,
    ReceiveHopLimit,
    ReceiveTrafficClass,
    ReceiveTimestampNanoseconds,
    ReceiveQueueOverflow,
    ReceiveErrors,
    ChecksumOffset,
    Priority,
    Mark,
    PathMtuDiscovery,
    MulticastLoop,
    BusyPollMicroseconds,
}

/// One integer-valued `setsockopt(2)` write.
#[derive(Clone, Copy, Debug, PartialEq, Eq, Structural)]
pub struct IntegerOption {
    pub level: i32,
    pub name: i32,
    pub value: i32,
}

/// Converts a kernel integer that must be nonnegative.
pub fn checked_nonnegative(value: i32) -> (r: Result<u32, NativeError>)
    ensures
        value >= 0 ==> r == Ok::<u32, NativeError>(value as u32),
        value < 0 ==> fails_with(r, plain_error(
            ErrorKind::Internal,
            "ERR_INTERNAL"@,
            Operation::GetSocketOption,
            "kernel returned a negative IPv6 option"@,
        )),
{
    if value >= 0 {
        Ok(value as u32)
    } else {
        Err(NativeError::internal(Operation::GetSocketOption, "kernel returned a negative IPv6 option"))
    }
}

/// Checks one IPv4 or socket-level option value against its supported range.
pub fn validate_socket_option_value(option: Ipv4SocketOption, value: u32) -> (r: Result<
    (),
    NativeError,
>)
    ensures
        option.accepts(value) ==> r is Ok,
        !option.accepts(value) ==> fails_with(r, plain_error(
            ErrorKind::InvalidArgument,
            "ERR_INVALID_ARGUMENT"@,
            Operation::SetSocketOption,
            "socket option value is outside its supported range"@,
        )),
{
    match option.setting(value) {
        Ok(_) => Ok(()),
        Err(e) => Err(e),
    }
}

/// Whether a string is a valid Linux interface name: 1 through 15 bytes, none NUL.
pub open spec fn valid_interface_name(name: &str) -> bool {
    &&& utf8(name).len() >= 1
    &&& utf8(name).len() <= MAX_INTERFACE_NAME_BYTES
    &&& !has_nul(name)
}

/// Checks an interface name before any kernel lookup or binding.
pub fn validate_interface_name(name: &str, operation: Operation) -> (r: Result<(), NativeError>)
    ensures
        valid_interface_name(name) ==> r is Ok,
        !valid_interface_name(name) ==> fails_with(r, plain_error(
            ErrorKind::InvalidArgument,
            "ERR_INVALID_ARGUMENT"@,
            operation,
            "interface name must be 1 through IFNAMSIZ-1 non-NUL bytes"@,
        )),
{
    let length = name.as_bytes().len();
    if length == 0 || length > MAX_INTERFACE_NAME_BYTES || contains_nul(name) {
        return Err(
            NativeError::invalid_argument(
                operation,
                "interface name must be 1 through IFNAMSIZ-1 non-NUL bytes",
            ),
        );
    }
    Ok(())
}

/// Checks an interface index before a reverse name lookup.
pub fn validate_interface_index(index: u32) -> (r: Result<(), NativeError>)
    ensures
        index != 0 ==> r is Ok,
        index == 0 ==> fails_with(r, plain_error(
            ErrorKind::InvalidArgument,
            "ERR_INVALID_ARGUMENT"@,
            Operation::LookupInterface,
            "interface index must be nonzero"@,
        )),
{
    if index == 0 {
        return Err(
            NativeError::invalid_argument(
                Operation::LookupInterface,
                "interface index must be nonzero",
            ),
        );
    }
    Ok(())
}

/// Checks an IP protocol number for an IPv4 raw socket: 1 through 255.
pub fn validate_raw_ipv4_protocol(protocol: u8) -> (r: Result<(), NativeError>)
    ensures
        protocol != 0 ==> r is Ok,
        protocol == 0 ==> fails_with(r, plain_error(
            ErrorKind::InvalidArgument,
            "ERR_INVALID_ARGUMENT"@,
            Operation::ValidateRawIpv4Protocol,
            "protocol must be from 1 through 255"@,
        )),
{
    if protocol == 0 {
        return Err(
            NativeError::invalid_argument(
                Operation::ValidateRawIpv4Protocol,
                "protocol must be from 1 through 255",
            ),
        );
    }
    Ok(())
}

/// Checks an IP protocol number for an IPv6 raw socket: 1 through 255.
pub fn validate_raw_ipv6_protocol(protocol: u8) -> (r: Result<(), NativeError>)
    ensures
        protocol != 0 ==> r is Ok,
        protocol == 0 ==> fails_with(r, plain_error(
            ErrorKind::InvalidArgument,
            "ERR_INVALID_ARGUMENT"@,
            Operation::ValidateRawIpv6Protocol,
            "protocol must be from 1 through 255"@,
        )),
{
    if protocol == 0 {
        return Err(
            NativeError::invalid_argument(
                Operation::ValidateRawIpv6Protocol,
                "protocol must be from 1 through 255",
            ),
        );
    }
    Ok(())
}

/// Checks a packet-socket protocol number before socket creation.
pub fn validate_packet_protocol(protocol: u16) -> (r: Result<(), NativeError>)
    ensures
        protocol != 0 ==> r is Ok,
        protocol == 0 ==> fails_with(r, plain_error(
            ErrorKind::InvalidArgument,
            "ERR_INVALID_ARGUMENT"@,
            Operation::CreatePacketSocket,
            "packet protocol must be from 1 through 65535"@,
        )),
{
    if protocol == 0 {
        return Err(
            NativeError::invalid_argument(
                Operation::CreatePacketSocket,
                "packet protocol must be from 1 through 65535",
            ),
        );
    }
    Ok(())
}

impl Ipv4SocketOption {
    /// The stable public option name.
    pub open spec fn name(self) -> Seq<char> {
        match self {
            Ipv4SocketOption::Broadcast => "broadcast"@,
            Ipv4SocketOption::IpTtl => "ipTtl"@,
            Ipv4SocketOption::IpTypeOfService => "ipTypeOfService"@,
            Ipv4SocketOption::ReceiveBufferSize => "receiveBufferSize"@,
            Ipv4SocketOption::SendBufferSize => "sendBufferSize"@,
            Ipv4SocketOption::ReceivePacketInfo => "receivePacketInfo"@,
            Ipv4SocketOption::ReceiveTtl => "receiveTtl"@,
            Ipv4SocketOption::ReceiveTypeOfService => "receiveTypeOfService"@,
            Ipv4SocketOption::ReceiveTimestampNanoseconds => "receiveTimestampNanoseconds"@,
            Ipv4SocketOption::ReceiveQueueOverflow => "receiveQueueOverflow"@,
            Ipv4SocketOption::ReceiveErrors => "receiveErrors"@,
            Ipv4SocketOption::HeaderIncluded => "headerIncluded"@,
            Ipv4SocketOption::Freebind => "freebind"@,
            Ipv4SocketOption::Transparent => "transparent"@,
            Ipv4SocketOption::Priority => "priority"@,
            Ipv4SocketOption::Mark => "mark"@,
            Ipv4SocketOption::PathMtuDiscovery => "pathMtuDiscovery"@,
            Ipv4SocketOption::MulticastTtl => "multicastTtl"@,
            Ipv4SocketOption::MulticastLoop => "multicastLoop"@,
            Ipv4SocketOption::BusyPollMicroseconds => "busyPollMicroseconds"@,
        }
    }

    /// The option a public name selects, if any.
    pub open spec fn named(name: Seq<char>) -> Option<Ipv4SocketOption> {
        if name == "broadcast"@ {
            Some(Ipv4SocketOption::Broadcast)
        } else if name == "ipTtl"@ {
            Some(Ipv4SocketOption::IpTtl)
        } else if name == "ipTypeOfService"@ {
            Some(Ipv4SocketOption::IpTypeOfService)
        } else if name == "receiveBufferSize"@ {
            Some(Ipv4SocketOption::ReceiveBufferSize)
        } else if name == "sendBufferSize"@ {
            Some(Ipv4SocketOption::SendBufferSize)
        } else if name == "receivePacketInfo"@ {
            Some(Ipv4SocketOption::ReceivePacketInfo)
        } else if name == "receiveTtl"@ {
            Some(Ipv4SocketOption::ReceiveTtl)
        } else if name == "receiveTypeOfService"@ {
            Some(Ipv4SocketOption::ReceiveTypeOfService)
        } else if name == "receiveTimestampNanoseconds"@ {
            Some(Ipv4SocketOption::ReceiveTimestampNanoseconds)
        } else if name == "receiveQueueOverflow"@ {
            Some(Ipv4SocketOption::ReceiveQueueOverflow)
        } else if name == "receiveErrors"@ {
            Some(Ipv4SocketOption::ReceiveErrors)
        } else if name == "headerIncluded"@ {
            Some(Ipv4SocketOption::HeaderIncluded)
        } else if name == "freebind"@ {
            Some(Ipv4SocketOption::Freebind)
        } else if name == "transparent"@ {
            Some(Ipv4SocketOption::Transparent)
        } else if name == "priority"@ {
            Some(Ipv4SocketOption::Priority)
        } else if name == "mark"@ {
            Some(Ipv4SocketOption::Mark)
        } else if name == "pathMtuDiscovery"@ {
            Some(Ipv4SocketOption::PathMtuDiscovery)
        } else if name == "multicastTtl"@ {
            Some(Ipv4SocketOption::MulticastTtl)
        } else if name == "multicastLoop"@ {
            Some(Ipv4SocketOption::MulticastLoop)
        } else if name == "busyPollMicroseconds"@ {
            Some(Ipv4SocketOption::BusyPollMicroseconds)
        } else {
            None
        }
    }

    /// Parses one public IPv4 option name.
    pub fn parse(name: &str, operation: Operation) -> (r: Result<Self, NativeError>)
        ensures
            match Ipv4SocketOption::named(name@) {
                Some(option) => r == Ok::<Self, NativeError>(option),
                None => fails_with(r, plain_error(
                    ErrorKind::InvalidArgument,
                    "ERR_INVALID_ARGUMENT"@,
                    operation,
                    "unsupported raw socket option"@,
                )),
            },
    {
        if str_eq(name, "broadcast") {
            Ok(Ipv4SocketOption::Broadcast)
        } else if str_eq(name, "ipTtl") {
            Ok(Ipv4SocketOption::IpTtl)
        } else if str_eq(name, "ipTypeOfService") {
            Ok(Ipv4SocketOption::IpTypeOfService)
        } else if str_eq(name, "receiveBufferSize") {
            Ok(Ipv4SocketOption::ReceiveBufferSize)
        } else if str_eq(name, "sendBufferSize") {
            Ok(Ipv4SocketOption::SendBufferSize)
        } else if str_eq(name, "receivePacketInfo") {
            Ok(Ipv4SocketOption::ReceivePacketInfo)
        } else if str_eq(name, "receiveTtl") {
            Ok(Ipv4SocketOption::ReceiveTtl)
        } else if str_eq(name, "receiveTypeOfService") {
            Ok(Ipv4SocketOption::ReceiveTypeOfService)
        } else if str_eq(name, "receiveTimestampNanoseconds") {
            Ok(Ipv4SocketOption::ReceiveTimestampNanoseconds)
        } else if str_eq(name, "receiveQueueOverflow") {
            Ok(Ipv4SocketOption::ReceiveQueueOverflow)
        } else if str_eq(name, "receiveErrors") {
            Ok(Ipv4SocketOption::ReceiveErrors)
        } else if str_eq(name, "headerIncluded") {
            Ok(Ipv4SocketOption::HeaderIncluded)
        } else if str_eq(name, "freebind") {
            Ok(Ipv4SocketOption::Freebind)
        } else if str_eq(name, "transparent") {
            Ok(Ipv4SocketOption::Transparent)
        } else if str_eq(name, "priority") {
            Ok(Ipv4SocketOption::Priority)
        } else if str_eq(name, "mark") {
            Ok(Ipv4SocketOption::Mark)
        } else if str_eq(name, "pathMtuDiscovery") {
            Ok(Ipv4SocketOption::PathMtuDiscovery)
        } else if str_eq(name, "multicastTtl") {
            Ok(Ipv4SocketOption::MulticastTtl)
        } else if str_eq(name, "multicastLoop") {
            Ok(Ipv4SocketOption::MulticastLoop)
        } else if str_eq(name, "busyPollMicroseconds") {
            Ok(Ipv4SocketOption::BusyPollMicroseconds)
        } else {
            Err(NativeError::invalid_argument(operation, "unsupported raw socket option"))
        }
    }

    /// The Linux `(level, name)` pair the option reads and writes.
    pub open spec fn key(self) -> (i32, i32) {
        match self {
            Ipv4SocketOption::Broadcast => (1, 6),
            Ipv4SocketOption::IpTtl => (0, 2),
            Ipv4SocketOption::IpTypeOfService => (0, 1),
            Ipv4SocketOption::ReceiveBufferSize => (1, 8),
            Ipv4SocketOption::SendBufferSize => (1, 7),
            Ipv4SocketOption::ReceivePacketInfo => (0, 8),
            Ipv4SocketOption::ReceiveTtl => (0, 12),
            Ipv4SocketOption::ReceiveTypeOfService => (0, 13),
            Ipv4SocketOption::ReceiveTimestampNanoseconds => (1, 35),
            Ipv4SocketOption::ReceiveQueueOverflow => (1, 40),
            Ipv4SocketOption::ReceiveErrors => (0, 11),
            Ipv4SocketOption::HeaderIncluded => (0, 3),
            Ipv4SocketOption::Freebind => (0, 15),
            Ipv4SocketOption::Transparent => (0, 19),
            Ipv4SocketOption::Priority => (1, 12),
            Ipv4SocketOption::Mark => (1, 36),
            Ipv4SocketOption::PathMtuDiscovery => (0, 10),
            Ipv4SocketOption::MulticastTtl => (0, 33),
            Ipv4SocketOption::MulticastLoop => (0, 34),
            Ipv4SocketOption::BusyPollMicroseconds => (1, 46),
        }
    }

    /// Whether a value lies in the option's supported range.
    pub open spec fn accepts(self, value: u32) -> bool {
        match self {
            Ipv4SocketOption::Broadcast => value <= 1,
            Ipv4SocketOption::IpTtl => 1 <= value <= 255,
            Ipv4SocketOption::IpTypeOfService => value <= 255,
            Ipv4SocketOption::ReceiveBufferSize => 1 <= value <= MAX_SOCKET_BUFFER_SIZE,
            Ipv4SocketOption::SendBufferSize => 1 <= value <= MAX_SOCKET_BUFFER_SIZE,
            Ipv4SocketOption::ReceivePacketInfo => value <= 1,
            Ipv4SocketOption::ReceiveTtl => value <= 1,
            Ipv4SocketOption::ReceiveTypeOfService => value <= 1,
            Ipv4SocketOption::ReceiveTimestampNanoseconds => value <= 1,
            Ipv4SocketOption::ReceiveQueueOverflow => value <= 1,
            Ipv4SocketOption::ReceiveErrors => value <= 1,
            Ipv4SocketOption::HeaderIncluded => value <= 1,
            Ipv4SocketOption::Freebind => value <= 1,
            Ipv4SocketOption::Transparent => value <= 1,
            Ipv4SocketOption::Priority => value <= 0x7fff_ffff,
            Ipv4SocketOption::Mark => true,
            Ipv4SocketOption::PathMtuDiscovery => value <= 3,
            Ipv4SocketOption::MulticastTtl => value <= 255,
            Ipv4SocketOption::MulticastLoop => value <= 1,
            Ipv4SocketOption::BusyPollMicroseconds => value <= 1_000_000,
        }
    }

    /// The integer written for an accepted value.
    pub open spec fn encode(self, value: u32) -> i32 {
        match self {
            Ipv4SocketOption::Broadcast => if value != 0 { 1 } else { 0 },
            Ipv4SocketOption::IpTtl => value as i32,
            Ipv4SocketOption::IpTypeOfService => value as i32,
            Ipv4SocketOption::ReceiveBufferSize => value as i32,
            Ipv4SocketOption::SendBufferSize => value as i32,
            Ipv4SocketOption::ReceivePacketInfo => if value != 0 { 1 } else { 0 },
            Ipv4SocketOption::ReceiveTtl => if value != 0 { 1 } else { 0 },
            Ipv4SocketOption::ReceiveTypeOfService => if value != 0 { 1 } else { 0 },
            Ipv4SocketOption::ReceiveTimestampNanoseconds => if value != 0 { 1 } else { 0 },
            Ipv4SocketOption::ReceiveQueueOverflow => value as i32,
            Ipv4SocketOption::ReceiveErrors => if value != 0 { 1 } else { 0 },
            Ipv4SocketOption::HeaderIncluded => if value != 0 { 1 } else { 0 },
            Ipv4SocketOption::Freebind => if value != 0 { 1 } else { 0 },
            Ipv4SocketOption::Transparent => if value != 0 { 1 } else { 0 },
            Ipv4SocketOption::Priority => value as i32,
            Ipv4SocketOption::Mark => value as i32,
            Ipv4SocketOption::PathMtuDiscovery => value as i32,
            Ipv4SocketOption::MulticastTtl => value as i32,
            Ipv4SocketOption::MulticastLoop => if value != 0 { 1 } else { 0 },
            Ipv4SocketOption::BusyPollMicroseconds => value as i32,
        }
    }

    /// The reported value for the integer the kernel returned, or `None` when the
    /// kernel value is negative where only nonnegative values are meaningful.
    pub open spec fn decode(self, raw: i32) -> Option<u32> {
        match self {
            Ipv4SocketOption::Broadcast => Some(if raw != 0 { 1u32 } else { 0u32 }),
            Ipv4SocketOption::IpTtl => Some(raw as u32),
            Ipv4SocketOption::IpTypeOfService => Some((raw as u8) as u32),
            Ipv4SocketOption::ReceiveBufferSize => Some(raw as u32),
            Ipv4SocketOption::SendBufferSize => Some(raw as u32),
            Ipv4SocketOption::ReceivePacketInfo => Some(if raw != 0 { 1u32 } else { 0u32 }),
            Ipv4SocketOption::ReceiveTtl => Some(if raw != 0 { 1u32 } else { 0u32 }),
            Ipv4SocketOption::ReceiveTypeOfService => Some(if raw != 0 { 1u32 } else { 0u32 }),
            Ipv4SocketOption::ReceiveTimestampNanoseconds => Some(if raw != 0 { 1u32 } else { 0u32 }),
            Ipv4SocketOption::ReceiveQueueOverflow => if raw >= 0 { Some(raw as u32) } else { None },
            Ipv4SocketOption::ReceiveErrors => Some(if raw != 0 { 1u32 } else { 0u32 }),
            Ipv4SocketOption::HeaderIncluded => Some(if raw != 0 { 1u32 } else { 0u32 }),
            Ipv4SocketOption::Freebind => Some(if raw != 0 { 1u32 } else { 0u32 }),
            Ipv4SocketOption::Transparent => Some(if raw != 0 { 1u32 } else { 0u32 }),
            Ipv4SocketOption::Priority => if raw >= 0 { Some(raw as u32) } else { None },
            Ipv4SocketOption::Mark => Some(raw as u32),
            Ipv4SocketOption::PathMtuDiscovery => if raw >= 0 { Some(raw as u32) } else { None },
            Ipv4SocketOption::MulticastTtl => if raw >= 0 { Some(raw as u32) } else { None },
            Ipv4SocketOption::MulticastLoop => Some(if raw != 0 { 1u32 } else { 0u32 }),
            Ipv4SocketOption::BusyPollMicroseconds => if raw >= 0 { Some(raw as u32) } else { None },
        }
    }

}

impl Ipv6SocketOption {
    /// The stable public option name.
    pub open spec fn name(self) -> Seq<char> {
        match self {
            Ipv6SocketOption::Ipv6Only => "ipv6Only"@,
            Ipv6SocketOption::UnicastHops => "ipv6UnicastHops"@,
            Ipv6SocketOption::TrafficClass => "ipv6TrafficClass"@,
            Ipv6SocketOption::MulticastHops => "ipv6MulticastHops"@,
            Ipv6SocketOption::ReceiveBufferSize => "receiveBufferSize"@,
            Ipv6SocketOption::SendBufferSize => "sendBufferSize"@,
            Ipv6SocketOption::ReceivePacketInfo => "receivePacketInfo"@,
            Ipv6SocketOption::ReceiveHopLimit => "receiveHopLimit"@,
            Ipv6SocketOption::ReceiveTrafficClass => "receiveTrafficClass"@,
            Ipv6SocketOption::ReceiveTimestampNanoseconds => "receiveTimestampNanoseconds"@,
            Ipv6SocketOption::ReceiveQueueOverflow => "receiveQueueOverflow"@,
            Ipv6SocketOption::ReceiveErrors => "receiveErrors"@,
            Ipv6SocketOption::ChecksumOffset => "ipv6ChecksumOffset"@,
            Ipv6SocketOption::Priority => "priority"@,
            Ipv6SocketOption::Mark => "mark"@,
            Ipv6SocketOption::PathMtuDiscovery => "pathMtuDiscovery"@,
            Ipv6SocketOption::MulticastLoop => "multicastLoop"@,
            Ipv6SocketOption::BusyPollMicroseconds => "busyPollMicroseconds"@,
        }
    }

    /// The option a public name selects, if any.
    pub open spec fn named(name: Seq<char>) -> Option<Ipv6SocketOption> {
        if name == "ipv6Only"@ {
            Some(Ipv6SocketOption::Ipv6Only)
        } else if name == "ipv6UnicastHops"@ {
            Some(Ipv6SocketOption::UnicastHops)
        } else if name == "ipv6TrafficClass"@ {
            Some(Ipv6SocketOption::TrafficClass)
        } else if name == "ipv6MulticastHops"@ {
            Some(Ipv6SocketOption::MulticastHops)
        } else if name == "receiveBufferSize"@ {
            Some(Ipv6SocketOption::ReceiveBufferSize)
        } else if name == "sendBufferSize"@ {
            Some(Ipv6SocketOption::SendBufferSize)
        } else if name == "receivePacketInfo"@ {
            Some(Ipv6SocketOption::ReceivePacketInfo)
        } else if name == "receiveHopLimit"@ {
            Some(Ipv6SocketOption::ReceiveHopLimit)
        } else if name == "receiveTrafficClass"@ {
            Some(Ipv6SocketOption::ReceiveTrafficClass)
        } else if name == "receiveTimestampNanoseconds"@ {
            Some(Ipv6SocketOption::ReceiveTimestampNanoseconds)
        } else if name == "receiveQueueOverflow"@ {
            Some(Ipv6SocketOption::ReceiveQueueOverflow)
        } else if name == "receiveErrors"@ {
            Some(Ipv6SocketOption::ReceiveErrors)
        } else if name == "ipv6ChecksumOffset"@ {
            Some(Ipv6SocketOption::ChecksumOffset)
        } else if name == "priority"@ {
            Some(Ipv6SocketOption::Priority)
        } else if name == "mark"@ {
            Some(Ipv6SocketOption::Mark)
        } else if name == "pathMtuDiscovery"@ {
            Some(Ipv6SocketOption::PathMtuDiscovery)
        } else if name == "multicastLoop"@ {
            Some(Ipv6SocketOption::MulticastLoop)
        } else if name == "busyPollMicroseconds"@ {
            Some(Ipv6SocketOption::BusyPollMicroseconds)
        } else {
            None
        }
    }

    /// Parses one public IPv6 option name.
    pub fn parse(name: &str, operation: Operation) -> (r: Result<Self, NativeError>)
        ensures
            match Ipv6SocketOption::named(name@) {
                Some(option) => r == Ok::<Self, NativeError>(option),
                None => fails_with(r, plain_error(
                    ErrorKind::InvalidArgument,
                    "ERR_INVALID_ARGUMENT"@,
                    operation,
                    "unsupported IPv6 raw socket option"@,
                )),
            },
    {
        if str_eq(name, "ipv6Only") {
            Ok(Ipv6SocketOption::Ipv6Only)
        } else if str_eq(name, "ipv6UnicastHops") {
            Ok(Ipv6SocketOption::UnicastHops)
        } else if str_eq(name, "ipv6TrafficClass") {
            Ok(Ipv6SocketOption::TrafficClass)
        } else if str_eq(name, "ipv6MulticastHops") {
            Ok(Ipv6SocketOption::MulticastHops)
        } else if str_eq(name, "receiveBufferSize") {
            Ok(Ipv6SocketOption::ReceiveBufferSize)
        } else if str_eq(name, "sendBufferSize") {
            Ok(Ipv6SocketOption::SendBufferSize)
        } else if str_eq(name, "receivePacketInfo") {
            Ok(Ipv6SocketOption::ReceivePacketInfo)
        } else if str_eq(name, "receiveHopLimit") {
            Ok(Ipv6SocketOption::ReceiveHopLimit)
        } else if str_eq(name, "receiveTrafficClass") {
            Ok(Ipv6SocketOption::ReceiveTrafficClass)
        } else if str_eq(name, "receiveTimestampNanoseconds") {
            Ok(Ipv6SocketOption::ReceiveTimestampNanoseconds)
        } else if str_eq(name, "receiveQueueOverflow") {
            Ok(Ipv6SocketOption::ReceiveQueueOverflow)
        } else if str_eq(name, "receiveErrors") {
            Ok(Ipv6SocketOption::ReceiveErrors)
        } else if str_eq(name, "ipv6ChecksumOffset") {
            Ok(Ipv6SocketOption::ChecksumOffset)
        } else if str_eq(name, "priority") {
            Ok(Ipv6SocketOption::Priority)
        } else if str_eq(name, "mark") {
            Ok(Ipv6SocketOption::Mark)
        } else if str_eq(name, "pathMtuDiscovery") {
            Ok(Ipv6SocketOption::PathMtuDiscovery)
        } else if str_eq(name, "multicastLoop") {
            Ok(Ipv6SocketOption::MulticastLoop)
        } else if str_eq(name, "busyPollMicroseconds") {
            Ok(Ipv6SocketOption::BusyPollMicroseconds)
        } else {
            Err(NativeError::invalid_argument(operation, "unsupported IPv6 raw socket option"))
        }
    }

    /// The Linux `(level, name)` pair the option reads and writes.
    pub open spec fn key(self) -> (i32, i32) {
        match self {
            Ipv6SocketOption::Ipv6Only => (41, 26),
            Ipv6SocketOption::UnicastHops => (41, 16),
            Ipv6SocketOption::TrafficClass => (41, 67),
            Ipv6SocketOption::MulticastHops => (41, 18),
            Ipv6SocketOption::ReceiveBufferSize => (1, 8),
            Ipv6SocketOption::SendBufferSize => (1, 7),
            Ipv6SocketOption::ReceivePacketInfo => (41, 49),
            Ipv6SocketOption::ReceiveHopLimit => (41, 51),
            Ipv6SocketOption::ReceiveTrafficClass => (41, 66),
            Ipv6SocketOption::ReceiveTimestampNanoseconds => (1, 35),
            Ipv6SocketOption::ReceiveQueueOverflow => (1, 40),
            Ipv6SocketOption::ReceiveErrors => (41, 25),
            Ipv6SocketOption::ChecksumOffset => (41, 7),
            Ipv6SocketOption::Priority => (1, 12),
            Ipv6SocketOption::Mark => (1, 36),
            Ipv6SocketOption::PathMtuDiscovery => (41, 23),
            Ipv6SocketOption::MulticastLoop => (41, 19),
            Ipv6SocketOption::BusyPollMicroseconds => (1, 46),
        }
    }

    /// Whether a value lies in the option's supported range.
    pub open spec fn accepts(self, value: u32) -> bool {
        match self {
            Ipv6SocketOption::Ipv6Only => value <= 1,
            Ipv6SocketOption::UnicastHops => value <= 255,
            Ipv6SocketOption::TrafficClass => value <= 255,
            Ipv6SocketOption::MulticastHops => value <= 255,
            Ipv6SocketOption::ReceiveBufferSize => 1 <= value <= MAX_SOCKET_BUFFER_SIZE,
            Ipv6SocketOption::SendBufferSize => 1 <= value <= MAX_SOCKET_BUFFER_SIZE,
            Ipv6SocketOption::ReceivePacketInfo => value <= 1,
            Ipv6SocketOption::ReceiveHopLimit => value <= 1,
            Ipv6SocketOption::ReceiveTrafficClass => value <= 1,
            Ipv6SocketOption::ReceiveTimestampNanoseconds => value <= 1,
            Ipv6SocketOption::ReceiveQueueOverflow => value <= 1,
            Ipv6SocketOption::ReceiveErrors => value <= 1,
            Ipv6SocketOption::ChecksumOffset => value <= 65_535,
            Ipv6SocketOption::Priority => value <= 0x7fff_ffff,
            Ipv6SocketOption::Mark => true,
            Ipv6SocketOption::PathMtuDiscovery => value <= 3,
            Ipv6SocketOption::MulticastLoop => value <= 1,
            Ipv6SocketOption::BusyPollMicroseconds => value <= 1_000_000,
        }
    }

    /// The integer written for an accepted value.
    pub open spec fn encode(self, value: u32) -> i32 {
        match self {
            Ipv6SocketOption::Ipv6Only => if value != 0 { 1 } else { 0 },
            Ipv6SocketOption::UnicastHops => value as i32,
            Ipv6SocketOption::TrafficClass => value as i32,
            Ipv6SocketOption::MulticastHops => value as i32,
            Ipv6SocketOption::ReceiveBufferSize => value as i32,
            Ipv6SocketOption::SendBufferSize => value as i32,
            Ipv6SocketOption::ReceivePacketInfo => if value != 0 { 1 } else { 0 },
            Ipv6SocketOption::ReceiveHopLimit => if value != 0 { 1 } else { 0 },
            Ipv6SocketOption::ReceiveTrafficClass => if value != 0 { 1 } else { 0 },
            Ipv6SocketOption::ReceiveTimestampNanoseconds => if value != 0 { 1 } else { 0 },
            Ipv6SocketOption::ReceiveQueueOverflow => value as i32,
            Ipv6SocketOption::ReceiveErrors => if value != 0 { 1 } else { 0 },
            Ipv6SocketOption::ChecksumOffset => value as i32,
            Ipv6SocketOption::Priority => value as i32,
            Ipv6SocketOption::Mark => value as i32,
            Ipv6SocketOption::PathMtuDiscovery => value as i32,
            Ipv6SocketOption::MulticastLoop => if value != 0 { 1 } else { 0 },
            Ipv6SocketOption::BusyPollMicroseconds => value as i32,
        }
    }

    /// The reported value for the integer the kernel returned, or `None` when the
    /// kernel value is negative where only nonnegative values are meaningful.
    pub open spec fn decode(self, raw: i32) -> Option<u32> {
        match self {
            Ipv6SocketOption::Ipv6Only => Some(if raw != 0 { 1u32 } else { 0u32 }),
            Ipv6SocketOption::UnicastHops => if raw >= 0 { Some(raw as u32) } else { None },
            Ipv6SocketOption::TrafficClass => if raw >= 0 { Some(raw as u32) } else { None },
            Ipv6SocketOption::MulticastHops => if raw >= 0 { Some(raw as u32) } else { None },
            Ipv6SocketOption::ReceiveBufferSize => Some(raw as u32),
            Ipv6SocketOption::SendBufferSize => Some(raw as u32),
            Ipv6SocketOption::ReceivePacketInfo => Some(if raw != 0 { 1u32 } else { 0u32 }),
            Ipv6SocketOption::ReceiveHopLimit => Some(if raw != 0 { 1u32 } else { 0u32 }),
            Ipv6SocketOption::ReceiveTrafficClass => Some(if raw != 0 { 1u32 } else { 0u32 }),
            Ipv6SocketOption::ReceiveTimestampNanoseconds => Some(if raw != 0 { 1u32 } else { 0u32 }),
            Ipv6SocketOption::ReceiveQueueOverflow => if raw >= 0 { Some(raw as u32) } else { None },
            Ipv6SocketOption::ReceiveErrors => Some(if raw != 0 { 1u32 } else { 0u32 }),
            Ipv6SocketOption::ChecksumOffset => if raw >= 0 { Some(raw as u32) } else { None },
            Ipv6SocketOption::Priority => if raw >= 0 { Some(raw as u32) } else { None },
            Ipv6SocketOption::Mark => Some(raw as u32),
            Ipv6SocketOption::PathMtuDiscovery => if raw >= 0 { Some(raw as u32) } else { None },
            Ipv6SocketOption::MulticastLoop => Some(if raw != 0 { 1u32 } else { 0u32 }),
            Ipv6SocketOption::BusyPollMicroseconds => if raw >= 0 { Some(raw as u32) } else { None },
        }
    }

}

impl Ipv4SocketOption {
    /// Returns the Linux `(level, name)` pair of the option.
    pub fn level_and_name(self) -> (r: (i32, i32))
        ensures
            r == self.key(),
    {
        match self {
            Ipv4SocketOption::Broadcast => (1, 6),
            Ipv4SocketOption::IpTtl => (0, 2),
            Ipv4SocketOption::IpTypeOfService => (0, 1),
            Ipv4SocketOption::ReceiveBufferSize => (1, 8),
            Ipv4SocketOption::SendBufferSize => (1, 7),
            Ipv4SocketOption::ReceivePacketInfo => (0, 8),
            Ipv4SocketOption::ReceiveTtl => (0, 12),
            Ipv4SocketOption::ReceiveTypeOfService => (0, 13),
            Ipv4SocketOption::ReceiveTimestampNanoseconds => (1, 35),
            Ipv4SocketOption::ReceiveQueueOverflow => (1, 40),
            Ipv4SocketOption::ReceiveErrors => (0, 11),
            Ipv4SocketOption::HeaderIncluded => (0, 3),
            Ipv4SocketOption::Freebind => (0, 15),
            Ipv4SocketOption::Transparent => (0, 19),
            Ipv4SocketOption::Priority => (1, 12),
            Ipv4SocketOption::Mark => (1, 36),
            Ipv4SocketOption::PathMtuDiscovery => (0, 10),
            Ipv4SocketOption::MulticastTtl => (0, 33),
            Ipv4SocketOption::MulticastLoop => (0, 34),
            Ipv4SocketOption::BusyPollMicroseconds => (1, 46),
        }
    }

    fn accepts_value(self, value: u32) -> (r: bool)
        ensures
            r == self.accepts(value),
    {
        match self {
            Ipv4SocketOption::Broadcast => value <= 1,
            Ipv4SocketOption::IpTtl => 1 <= value && value <= 255,
            Ipv4SocketOption::IpTypeOfService => value <= 255,
            Ipv4SocketOption::ReceiveBufferSize => 1 <= value && value <= MAX_SOCKET_BUFFER_SIZE,
            Ipv4SocketOption::SendBufferSize => 1 <= value && value <= MAX_SOCKET_BUFFER_SIZE,
            Ipv4SocketOption::ReceivePacketInfo => value <= 1,
            Ipv4SocketOption::ReceiveTtl => value <= 1,
            Ipv4SocketOption::ReceiveTypeOfService => value <= 1,
            Ipv4SocketOption::ReceiveTimestampNanoseconds => value <= 1,
            Ipv4SocketOption::ReceiveQueueOverflow => value <= 1,
            Ipv4SocketOption::ReceiveErrors => value <= 1,
            Ipv4SocketOption::HeaderIncluded => value <= 1,
            Ipv4SocketOption::Freebind => value <= 1,
            Ipv4SocketOption::Transparent => value <= 1,
            Ipv4SocketOption::Priority => value <= 0x7fff_ffff,
            Ipv4SocketOption::Mark => true,
            Ipv4SocketOption::PathMtuDiscovery => value <= 3,
            Ipv4SocketOption::MulticastTtl => value <= 255,
            Ipv4SocketOption::MulticastLoop => value <= 1,
            Ipv4SocketOption::BusyPollMicroseconds => value <= 1_000_000,
        }
    }

    fn encode_value(self, value: u32) -> (r: i32)
        requires
            self.accepts(value),
        ensures
            r == self.encode(value),
    {
        match self {
            Ipv4SocketOption::Broadcast => if value != 0 { 1 } else { 0 },
            Ipv4SocketOption::IpTtl => value as i32,
            Ipv4SocketOption::IpTypeOfService => value as i32,
            Ipv4SocketOption::ReceiveBufferSize => value as i32,
            Ipv4SocketOption::SendBufferSize => value as i32,
            Ipv4SocketOption::ReceivePacketInfo => if value != 0 { 1 } else { 0 },
            Ipv4SocketOption::ReceiveTtl => if value != 0 { 1 } else { 0 },
            Ipv4SocketOption::ReceiveTypeOfService => if value != 0 { 1 } else { 0 },
            Ipv4SocketOption::ReceiveTimestampNanoseconds => if value != 0 { 1 } else { 0 },
            Ipv4SocketOption::ReceiveQueueOverflow => value as i32,
            Ipv4SocketOption::ReceiveErrors => if value != 0 { 1 } else { 0 },
            Ipv4SocketOption::HeaderIncluded => if value != 0 { 1 } else { 0 },
            Ipv4SocketOption::Freebind => if value != 0 { 1 } else { 0 },
            Ipv4SocketOption::Transparent => if value != 0 { 1 } else { 0 },
            Ipv4SocketOption::Priority => value as i32,
            Ipv4SocketOption::Mark => value as i32,
            Ipv4SocketOption::PathMtuDiscovery => value as i32,
            Ipv4SocketOption::MulticastTtl => value as i32,
            Ipv4SocketOption::MulticastLoop => if value != 0 { 1 } else { 0 },
            Ipv4SocketOption::BusyPollMicroseconds => value as i32,
        }
    }

    /// The value the option reports for one kernel integer.
    pub fn decode_value(self, raw: i32) -> (r: Result<u32, NativeError>)
        ensures
            match self.decode(raw) {
                Some(value) => r == Ok::<u32, NativeError>(value),
                None => r matches Err(e) && e@.kind == ErrorKind::Internal && e@.operation
                    == Operation::GetSocketOption && e@.errno is None,
            },
    {
        match self {
            Ipv4SocketOption::Broadcast => Ok(if raw != 0 { 1 } else { 0 }),
            Ipv4SocketOption::IpTtl => Ok(raw as u32),
            Ipv4SocketOption::IpTypeOfService => Ok((raw as u8) as u32),
            Ipv4SocketOption::ReceiveBufferSize => Ok(raw as u32),
            Ipv4SocketOption::SendBufferSize => Ok(raw as u32),
            Ipv4SocketOption::ReceivePacketInfo => Ok(if raw != 0 { 1 } else { 0 }),
            Ipv4SocketOption::ReceiveTtl => Ok(if raw != 0 { 1 } else { 0 }),
            Ipv4SocketOption::ReceiveTypeOfService => Ok(if raw != 0 { 1 } else { 0 }),
            Ipv4SocketOption::ReceiveTimestampNanoseconds => Ok(if raw != 0 { 1 } else { 0 }),
            Ipv4SocketOption::ReceiveQueueOverflow => if raw >= 0 {
                Ok(raw as u32)
            } else {
                Err(NativeError::internal(Operation::GetSocketOption, "kernel returned a negative queue-overflow option"))
            },
            Ipv4SocketOption::ReceiveErrors => Ok(if raw != 0 { 1 } else { 0 }),
            Ipv4SocketOption::HeaderIncluded => Ok(if raw != 0 { 1 } else { 0 }),
            Ipv4SocketOption::Freebind => Ok(if raw != 0 { 1 } else { 0 }),
            Ipv4SocketOption::Transparent => Ok(if raw != 0 { 1 } else { 0 }),
            Ipv4SocketOption::Priority => checked_nonnegative(raw),
            Ipv4SocketOption::Mark => Ok(raw as u32),
            Ipv4SocketOption::PathMtuDiscovery => checked_nonnegative(raw),
            Ipv4SocketOption::MulticastTtl => checked_nonnegative(raw),
            Ipv4SocketOption::MulticastLoop => Ok(if raw != 0 { 1 } else { 0 }),
            Ipv4SocketOption::BusyPollMicroseconds => checked_nonnegative(raw),
        }
    }

    /// The integer write that sets the option, after range validation.
    pub fn setting(self, value: u32) -> (r: Result<IntegerOption, NativeError>)
        ensures
            self.accepts(value) ==> r == Ok::<IntegerOption, NativeError>(IntegerOption {
                level: self.key().0,
                name: self.key().1,
                value: self.encode(value),
            }),
            !self.accepts(value) ==> fails_with(r, plain_error(
                ErrorKind::InvalidArgument,
                "ERR_INVALID_ARGUMENT"@,
                Operation::SetSocketOption,
                "socket option value is outside its supported range"@,
            )),
    {
        if !self.accepts_value(value) {
            return Err(NativeError::invalid_argument(Operation::SetSocketOption, "socket option value is outside its supported range"));
        }
        let (level, name) = self.level_and_name();
        Ok(IntegerOption { level, name, value: self.encode_value(value) })
    }
}

impl Ipv6SocketOption {
    /// Returns the Linux `(level, name)` pair of the option.
    pub fn level_and_name(self) -> (r: (i32, i32))
        ensures
            r == self.key(),
    {
        match self {
            Ipv6SocketOption::Ipv6Only => (41, 26),
            Ipv6SocketOption::UnicastHops => (41, 16),
            Ipv6SocketOption::TrafficClass => (41, 67),
            Ipv6SocketOption::MulticastHops => (41, 18),
            Ipv6SocketOption::ReceiveBufferSize => (1, 8),
            Ipv6SocketOption::SendBufferSize => (1, 7),
            Ipv6SocketOption::ReceivePacketInfo => (41, 49),
            Ipv6SocketOption::ReceiveHopLimit => (41, 51),
            Ipv6SocketOption::ReceiveTrafficClass => (41, 66),
            Ipv6SocketOption::ReceiveTimestampNanoseconds => (1, 35),
            Ipv6SocketOption::ReceiveQueueOverflow => (1, 40),
            Ipv6SocketOption::ReceiveErrors => (41, 25),
            Ipv6SocketOption::ChecksumOffset => (41, 7),
            Ipv6SocketOption::Priority => (1, 12),
            Ipv6SocketOption::Mark => (1, 36),
            Ipv6SocketOption::PathMtuDiscovery => (41, 23),
            Ipv6SocketOption::MulticastLoop => (41, 19),
            Ipv6SocketOption::BusyPollMicroseconds => (1, 46),
        }
    }

    fn accepts_value(self, value: u32) -> (r: bool)
        ensures
            r == self.accepts(value),
    {
        match self {
            Ipv6SocketOption::Ipv6Only => value <= 1,
            Ipv6SocketOption::UnicastHops => value <= 255,
            Ipv6SocketOption::TrafficClass => value <= 255,
            Ipv6SocketOption::MulticastHops => value <= 255,
            Ipv6SocketOption::ReceiveBufferSize => 1 <= value && value <= MAX_SOCKET_BUFFER_SIZE,
            Ipv6SocketOption::SendBufferSize => 1 <= value && value <= MAX_SOCKET_BUFFER_SIZE,
            Ipv6SocketOption::ReceivePacketInfo => value <= 1,
            Ipv6SocketOption::ReceiveHopLimit => value <= 1,
            Ipv6SocketOption::ReceiveTrafficClass => value <= 1,
            Ipv6SocketOption::ReceiveTimestampNanoseconds => value <= 1,
            Ipv6SocketOption::ReceiveQueueOverflow => value <= 1,
            Ipv6SocketOption::ReceiveErrors => value <= 1,
            Ipv6SocketOption::ChecksumOffset => value <= 65_535,
            Ipv6SocketOption::Priority => value <= 0x7fff_ffff,
            Ipv6SocketOption::Mark => true,
            Ipv6SocketOption::PathMtuDiscovery => value <= 3,
            Ipv6SocketOption::MulticastLoop => value <= 1,
            Ipv6SocketOption::BusyPollMicroseconds => value <= 1_000_000,
        }
    }

    fn encode_value(self, value: u32) -> (r: i32)
        requires
            self.accepts(value),
        ensures
            r == self.encode(value),
    {
        match self {
            Ipv6SocketOption::Ipv6Only => if value != 0 { 1 } else { 0 },
            Ipv6SocketOption::UnicastHops => value as i32,
            Ipv6SocketOption::TrafficClass => value as i32,
            Ipv6SocketOption::MulticastHops => value as i32,
            Ipv6SocketOption::ReceiveBufferSize => value as i32,
            Ipv6SocketOption::SendBufferSize => value as i32,
            Ipv6SocketOption::ReceivePacketInfo => if value != 0 { 1 } else { 0 },
            Ipv6SocketOption::ReceiveHopLimit => if value != 0 { 1 } else { 0 },
            Ipv6SocketOption::ReceiveTrafficClass => if value != 0 { 1 } else { 0 },
            Ipv6SocketOption::ReceiveTimestampNanoseconds => if value != 0 { 1 } else { 0 },
            Ipv6SocketOption::ReceiveQueueOverflow => value as i32,
            Ipv6SocketOption::ReceiveErrors => if value != 0 { 1 } else { 0 },
            Ipv6SocketOption::ChecksumOffset => value as i32,
            Ipv6SocketOption::Priority => value as i32,
            Ipv6SocketOption::Mark => value as i32,
            Ipv6SocketOption::PathMtuDiscovery => value as i32,
            Ipv6SocketOption::MulticastLoop => if value != 0 { 1 } else { 0 },
            Ipv6SocketOption::BusyPollMicroseconds => value as i32,
        }
    }

    /// The value the option reports for one kernel integer.
    pub fn decode_value(self, raw: i32) -> (r: Result<u32, NativeError>)
        ensures
            match self.decode(raw) {
                Some(value) => r == Ok::<u32, NativeError>(value),
                None => r matches Err(e) && e@.kind == ErrorKind::Internal && e@.operation
                    == Operation::GetSocketOption && e@.errno is None,
            },
    {
        match self {
            Ipv6SocketOption::Ipv6Only => Ok(if raw != 0 { 1 } else { 0 }),
            Ipv6SocketOption::UnicastHops => checked_nonnegative(raw),
            Ipv6SocketOption::TrafficClass => checked_nonnegative(raw),
            Ipv6SocketOption::MulticastHops => checked_nonnegative(raw),
            Ipv6SocketOption::ReceiveBufferSize => Ok(raw as u32),
            Ipv6SocketOption::SendBufferSize => Ok(raw as u32),
            Ipv6SocketOption::ReceivePacketInfo => Ok(if raw != 0 { 1 } else { 0 }),
            Ipv6SocketOption::ReceiveHopLimit => Ok(if raw != 0 { 1 } else { 0 }),
            Ipv6SocketOption::ReceiveTrafficClass => Ok(if raw != 0 { 1 } else { 0 }),
            Ipv6SocketOption::ReceiveTimestampNanoseconds => Ok(if raw != 0 { 1 } else { 0 }),
            Ipv6SocketOption::ReceiveQueueOverflow => checked_nonnegative(raw),
            Ipv6SocketOption::ReceiveErrors => Ok(if raw != 0 { 1 } else { 0 }),
            Ipv6SocketOption::ChecksumOffset => checked_nonnegative(raw),
            Ipv6SocketOption::Priority => checked_nonnegative(raw),
            Ipv6SocketOption::Mark => Ok(raw as u32),
            Ipv6SocketOption::PathMtuDiscovery => checked_nonnegative(raw),
            Ipv6SocketOption::MulticastLoop => Ok(if raw != 0 { 1 } else { 0 }),
            Ipv6SocketOption::BusyPollMicroseconds => checked_nonnegative(raw),
        }
    }

    /// The integer write that sets the option, after range validation.
    pub fn setting(self, value: u32) -> (r: Result<IntegerOption, NativeError>)
        ensures
            self.accepts(value) ==> r == Ok::<IntegerOption, NativeError>(IntegerOption {
                level: self.key().0,
                name: self.key().1,
                value: self.encode(value),
            }),
            !self.accepts(value) ==> fails_with(r, plain_error(
                ErrorKind::InvalidArgument,
                "ERR_INVALID_ARGUMENT"@,
                Operation::SetSocketOption,
                "IPv6 socket option value is outside its supported range"@,
            )),
    {
        if !self.accepts_value(value) {
            return Err(NativeError::invalid_argument(Operation::SetSocketOption, "IPv6 socket option value is outside its supported range"));
        }
        let (level, name) = self.level_and_name();
        Ok(IntegerOption { level, name, value: self.encode_value(value) })
    }
}

/// Every IPv4 option is selected again by its own public name.
pub proof fn ipv4_option_names_round_trip(option: Ipv4SocketOption)
    ensures
        Ipv4SocketOption::named(option.name()) == Some(option),
{
    match option {
        Ipv4SocketOption::Broadcast => {
            reveal_strlit("broadcast");
        },
        Ipv4SocketOption::IpTtl => {
            reveal_strlit("ipTtl");
            reveal_strlit("broadcast");
            assert("ipTtl"@.len() != "broadcast"@.len());
        },
        Ipv4SocketOption::IpTypeOfService => {
            reveal_strlit("ipTypeOfService");
            reveal_strlit("broadcast");
            assert("ipTypeOfService"@.len() != "broadcast"@.len());
            reveal_strlit("ipTtl");
            assert("ipTypeOfService"@.len() != "ipTtl"@.len());
        },
        Ipv4SocketOption::ReceiveBufferSize => {
            reveal_strlit("receiveBufferSize");
            reveal_strlit("broadcast");
            assert("receiveBufferSize"@.len() != "broadcast"@.len());
            reveal_strlit("ipTtl");
            assert("receiveBufferSize"@.len() != "ipTtl"@.len());
            reveal_strlit("ipTypeOfService");
            assert("receiveBufferSize"@.len() != "ipTypeOfService"@.len());
        },
        Ipv4SocketOption::SendBufferSize => {
            reveal_strlit("sendBufferSize");
            reveal_strlit("broadcast");
            assert("sendBufferSize"@.len() != "broadcast"@.len());
            reveal_strlit("ipTtl");
            assert("sendBufferSize"@.len() != "ipTtl"@.len());
            reveal_strlit("ipTypeOfService");
            assert("sendBufferSize"@.len() != "ipTypeOfService"@.len());
            reveal_strlit("receiveBufferSize");
            assert("sendBufferSize"@.len() != "receiveBufferSize"@.len());
        },
        Ipv4SocketOption::ReceivePacketInfo => {
            reveal_strlit("receivePacketInfo");
            reveal_strlit("broadcast");
            assert("receivePacketInfo"@.len() != "broadcast"@.len());
            reveal_strlit("ipTtl");
            assert("receivePacketInfo"@.len() != "ipTtl"@.len());
            reveal_strlit("ipTypeOfService");
            assert("receivePacketInfo"@.len() != "ipTypeOfService"@.len());
            reveal_strlit("receiveBufferSize");
            assert("receivePacketInfo"@[7] != "receiveBufferSize"@[7]);
            reveal_strlit("sendBufferSize");
            assert("receivePacketInfo"@.len() != "sendBufferSize"@.len());
        },
        Ipv4SocketOption::ReceiveTtl => {
            reveal_strlit("receiveTtl");
            reveal_strlit("broadcast");
            assert("receiveTtl"@.len() != "broadcast"@.len());
            reveal_strlit("ipTtl");
            assert("receiveTtl"@.len() != "ipTtl"@.len());
            reveal_strlit("ipTypeOfService");
            assert("receiveTtl"@.len() != "ipTypeOfService"@.len());
            reveal_strlit("receiveBufferSize");
            assert("receiveTtl"@.len() != "receiveBufferSize"@.len());
            reveal_strlit("sendBufferSize");
            assert("receiveTtl"@.len() != "sendBufferSize"@.len());
            reveal_strlit("receivePacketInfo");
            assert("receiveTtl"@.len() != "receivePacketInfo"@.len());
        },
        Ipv4SocketOption::ReceiveTypeOfService => {
            reveal_strlit("receiveTypeOfService");
            reveal_strlit("broadcast");
            assert("receiveTypeOfService"@.len() != "broadcast"@.len());
            reveal_strlit("ipTtl");
            assert("receiveTypeOfService"@.len() != "ipTtl"@.len());
            reveal_strlit("ipTypeOfService");
            assert("receiveTypeOfService"@.len() != "ipTypeOfService"@.len());
            reveal_strlit("receiveBufferSize");
            assert("receiveTypeOfService"@.len() != "receiveBufferSize"@.len());
            reveal_strlit("sendBufferSize");
            assert("receiveTypeOfService"@.len() != "sendBufferSize"@.len());
            reveal_strlit("receivePacketInfo");
            assert("receiveTypeOfService"@.len() != "receivePacketInfo"@.len());
            reveal_strlit("receiveTtl");
            assert("receiveTypeOfService"@.len() != "receiveTtl"@.len());
        },
        Ipv4SocketOption::ReceiveTimestampNanoseconds => {
            reveal_strlit("receiveTimestampNanoseconds");
            reveal_strlit("broadcast");
            assert("receiveTimestampNanoseconds"@.len() != "broadcast"@.len());
            reveal_strlit("ipTtl");
            assert("receiveTimestampNanoseconds"@.len() != "ipTtl"@.len());
            reveal_strlit("ipTypeOfService");
            assert("receiveTimestampNanoseconds"@.len() != "ipTypeOfService"@.len());
            reveal_strlit("receiveBufferSize");
            assert("receiveTimestampNanoseconds"@.len() != "receiveBufferSize"@.len());
            reveal_strlit("sendBufferSize");
            assert("receiveTimestampNanoseconds"@.len() != "sendBufferSize"@.len());
            reveal_strlit("receivePacketInfo");
            assert("receiveTimestampNanoseconds"@.len() != "receivePacketInfo"@.len());
            reveal_strlit("receiveTtl");
            assert("receiveTimestampNanoseconds"@.len() != "receiveTtl"@.len());
            reveal_strlit("receiveTypeOfService");
            assert("receiveTimestampNanoseconds"@.len() != "receiveTypeOfService"@.len());
        },
        Ipv4SocketOption::ReceiveQueueOverflow => {
            reveal_strlit("receiveQueueOverflow");
            reveal_strlit("broadcast");
            assert("receiveQueueOverflow"@.len() != "broadcast"@.len());
            reveal_strlit("ipTtl");
            assert("receiveQueueOverflow"@.len() != "ipTtl"@.len());
            reveal_strlit("ipTypeOfService");
            assert("receiveQueueOverflow"@.len() != "ipTypeOfService"@.len());
            reveal_strlit("receiveBufferSize");
            assert("receiveQueueOverflow"@.len() != "receiveBufferSize"@.len());
            reveal_strlit("sendBufferSize");
            assert("receiveQueueOverflow"@.len() != "sendBufferSize"@.len());
            reveal_strlit("receivePacketInfo");
            assert("receiveQueueOverflow"@.len() != "receivePacketInfo"@.len());
            reveal_strlit("receiveTtl");
            assert("receiveQueueOverflow"@.len() != "receiveTtl"@.len());
            reveal_strlit("receiveTypeOfService");
            assert("receiveQueueOverflow"@[7] != "receiveTypeOfService"@[7]);
            reveal_strlit("receiveTimestampNanoseconds");
            assert("receiveQueueOverflow"@.len() != "receiveTimestampNanoseconds"@.len());
        },
        Ipv4SocketOption::ReceiveErrors => {
            reveal_strlit("receiveErrors");
            reveal_strlit("broadcast");
            assert("receiveErrors"@.len() != "broadcast"@.len());
            reveal_strlit("ipTtl");
            assert("receiveErrors"@.len() != "ipTtl"@.len());
            reveal_strlit("ipTypeOfService");
            assert("receiveErrors"@.len() != "ipTypeOfService"@.len());
            reveal_strlit("receiveBufferSize");
            assert("receiveErrors"@.len() != "receiveBufferSize"@.len());
            reveal_strlit("sendBufferSize");
            assert("receiveErrors"@.len() != "sendBufferSize"@.len());
            reveal_strlit("receivePacketInfo");
            assert("receiveErrors"@.len() != "receivePacketInfo"@.len());
            reveal_strlit("receiveTtl");
            assert("receiveErrors"@.len() != "receiveTtl"@.len());
            reveal_strlit("receiveTypeOfService");
            assert("receiveErrors"@.len() != "receiveTypeOfService"@.len());
            reveal_strlit("receiveTimestampNanoseconds");
            assert("receiveErrors"@.len() != "receiveTimestampNanoseconds"@.len());
            reveal_strlit("receiveQueueOverflow");
            assert("receiveErrors"@.len() != "receiveQueueOverflow"@.len());
        },
        Ipv4SocketOption::HeaderIncluded => {
            reveal_strlit("headerIncluded");
            reveal_strlit("broadcast");
            assert("headerIncluded"@.len() != "broadcast"@.len());
            reveal_strlit("ipTtl");
            assert("headerIncluded"@.len() != "ipTtl"@.len());
            reveal_strlit("ipTypeOfService");
            assert("headerIncluded"@.len() != "ipTypeOfService"@.len());
            reveal_strlit("receiveBufferSize");
            assert("headerIncluded"@.len() != "receiveBufferSize"@.len());
            reveal_strlit("sendBufferSize");
            assert("headerIncluded"@[0] != "sendBufferSize"@[0]);
            reveal_strlit("receivePacketInfo");
            assert("headerIncluded"@.len() != "receivePacketInfo"@.len());
            reveal_strlit("receiveTtl");
            assert("headerIncluded"@.len() != "receiveTtl"@.len());
            reveal_strlit("receiveTypeOfService");
            assert("headerIncluded"@.len() != "receiveTypeOfService"@.len());
            reveal_strlit("receiveTimestampNanoseconds");
            assert("headerIncluded"@.len() != "receiveTimestampNanoseconds"@.len());
            reveal_strlit("receiveQueueOverflow");
            assert("headerIncluded"@.len() != "receiveQueueOverflow"@.len());
            reveal_strlit("receiveErrors");
            assert("headerIncluded"@.len() != "receiveErrors"@.len());
        },
        Ipv4SocketOption::Freebind => {
            reveal_strlit("freebind");
            reveal_strlit("broadcast");
            assert("freebind"@.len() != "broadcast"@.len());
            reveal_strlit("ipTtl");
            assert("freebind"@.len() != "ipTtl"@.len());
            reveal_strlit("ipTypeOfService");
            assert("freebind"@.len() != "ipTypeOfService"@.len());
            reveal_strlit("receiveBufferSize");
            assert("freebind"@.len() != "receiveBufferSize"@.len());
            reveal_strlit("sendBufferSize");
            assert("freebind"@.len() != "sendBufferSize"@.len());
            reveal_strlit("receivePacketInfo");
            assert("freebind"@.len() != "receivePacketInfo"@.len());
            reveal_strlit("receiveTtl");
            assert("freebind"@.len() != "receiveTtl"@.len());
            reveal_strlit("receiveTypeOfService");
            assert("freebind"@.len() != "receiveTypeOfService"@.len());
            reveal_strlit("receiveTimestampNanoseconds");
            assert("freebind"@.len() != "receiveTimestampNanoseconds"@.len());
            reveal_strlit("receiveQueueOverflow");
            assert("freebind"@.len() != "receiveQueueOverflow"@.len());
            reveal_strlit("receiveErrors");
            assert("freebind"@.len() != "receiveErrors"@.len());
            reveal_strlit("headerIncluded");
            assert("freebind"@.len() != "headerIncluded"@.len());
        },
        Ipv4SocketOption::Transparent => {
            reveal_strlit("transparent");
            reveal_strlit("broadcast");
            assert("transparent"@.len() != "broadcast"@.len());
            reveal_strlit("ipTtl");
            assert("transparent"@.len() != "ipTtl"@.len());
            reveal_strlit("ipTypeOfService");
            assert("transparent"@.len() != "ipTypeOfService"@.len());
            reveal_strlit("receiveBufferSize");
            assert("transparent"@.len() != "receiveBufferSize"@.len());
            reveal_strlit("sendBufferSize");
            assert("transparent"@.len() != "sendBufferSize"@.len());
            reveal_strlit("receivePacketInfo");
            assert("transparent"@.len() != "receivePacketInfo"@.len());
            reveal_strlit("receiveTtl");
            assert("transparent"@.len() != "receiveTtl"@.len());
            reveal_strlit("receiveTypeOfService");
            assert("transparent"@.len() != "receiveTypeOfService"@.len());
            reveal_strlit("receiveTimestampNanoseconds");
            assert("transparent"@.len() != "receiveTimestampNanoseconds"@.len());
            reveal_strlit("receiveQueueOverflow");
            assert("transparent"@.len() != "receiveQueueOverflow"@.len());
            reveal_strlit("receiveErrors");
            assert("transparent"@.len() != "receiveErrors"@.len());
            reveal_strlit("headerIncluded");
            assert("transparent"@.len() != "headerIncluded"@.len());
            reveal_strlit("freebind");
            assert("transparent"@.len() != "freebind"@.len());
        },
        Ipv4SocketOption::Priority => {
            reveal_strlit("priority");
            reveal_strlit("broadcast");
            assert("priority"@.len() != "broadcast"@.len());
            reveal_strlit("ipTtl");
            assert("priority"@.len() != "ipTtl"@.len());
            reveal_strlit("ipTypeOfService");
            assert("priority"@.len() != "ipTypeOfService"@.len());
            reveal_strlit("receiveBufferSize");
            assert("priority"@.len() != "receiveBufferSize"@.len());
            reveal_strlit("sendBufferSize");
            assert("priority"@.len() != "sendBufferSize"@.len());
            reveal_strlit("receivePacketInfo");
            assert("priority"@.len() != "receivePacketInfo"@.len());
            reveal_strlit("receiveTtl");
            assert("priority"@.len() != "receiveTtl"@.len());
            reveal_strlit("receiveTypeOfService");
            assert("priority"@.len() != "receiveTypeOfService"@.len());
            reveal_strlit("receiveTimestampNanoseconds");
            assert("priority"@.len() != "receiveTimestampNanoseconds"@.len());
            reveal_strlit("receiveQueueOverflow");
            assert("priority"@.len() != "receiveQueueOverflow"@.len());
            reveal_strlit("receiveErrors");
            assert("priority"@.len() != "receiveErrors"@.len());
            reveal_strlit("headerIncluded");
            assert("priority"@.len() != "headerIncluded"@.len());
            reveal_strlit("freebind");
            assert("priority"@[0] != "freebind"@[0]);
            reveal_strlit("transparent");
            assert("priority"@.len() != "transparent"@.len());
        },
        Ipv4SocketOption::Mark => {
            reveal_strlit("mark");
            reveal_strlit("broadcast");
            assert("mark"@.len() != "broadcast"@.len());
            reveal_strlit("ipTtl");
            assert("mark"@.len() != "ipTtl"@.len());
            reveal_strlit("ipTypeOfService");
            assert("mark"@.len() != "ipTypeOfService"@.len());
            reveal_strlit("receiveBufferSize");
            assert("mark"@.len() != "receiveBufferSize"@.len());
            reveal_strlit("sendBufferSize");
            assert("mark"@.len() != "sendBufferSize"@.len());
            reveal_strlit("receivePacketInfo");
            assert("mark"@.len() != "receivePacketInfo"@.len());
            reveal_strlit("receiveTtl");
            assert("mark"@.len() != "receiveTtl"@.len());
            reveal_strlit("receiveTypeOfService");
            assert("mark"@.len() != "receiveTypeOfService"@.len());
            reveal_strlit("receiveTimestampNanoseconds");
            assert("mark"@.len() != "receiveTimestampNanoseconds"@.len());
            reveal_strlit("receiveQueueOverflow");
            assert("mark"@.len() != "receiveQueueOverflow"@.len());
            reveal_strlit("receiveErrors");
            assert("mark"@.len() != "receiveErrors"@.len());
            reveal_strlit("headerIncluded");
            assert("mark"@.len() != "headerIncluded"@.len());
            reveal_strlit("freebind");
            assert("mark"@.len() != "freebind"@.len());
            reveal_strlit("transparent");
            assert("mark"@.len() != "transparent"@.len());
            reveal_strlit("priority");
            assert("mark"@.len() != "priority"@.len());
        },
        Ipv4SocketOption::PathMtuDiscovery => {
            reveal_strlit("pathMtuDiscovery");
            reveal_strlit("broadcast");
            assert("pathMtuDiscovery"@.len() != "broadcast"@.len());
            reveal_strlit("ipTtl");
            assert("pathMtuDiscovery"@.len() != "ipTtl"@.len());
            reveal_strlit("ipTypeOfService");
            assert("pathMtuDiscovery"@.len() != "ipTypeOfService"@.len());
            reveal_strlit("receiveBufferSize");
            assert("pathMtuDiscovery"@.len() != "receiveBufferSize"@.len());
            reveal_strlit("sendBufferSize");
            assert("pathMtuDiscovery"@.len() != "sendBufferSize"@.len());
            reveal_strlit("receivePacketInfo");
            assert("pathMtuDiscovery"@.len() != "receivePacketInfo"@.len());
            reveal_strlit("receiveTtl");
            assert("pathMtuDiscovery"@.len() != "receiveTtl"@.len());
            reveal_strlit("receiveTypeOfService");
            assert("pathMtuDiscovery"@.len() != "receiveTypeOfService"@.len());
            reveal_strlit("receiveTimestampNanoseconds");
            assert("pathMtuDiscovery"@.len() != "receiveTimestampNanoseconds"@.len());
            reveal_strlit("receiveQueueOverflow");
            assert("pathMtuDiscovery"@.len() != "receiveQueueOverflow"@.len());
            reveal_strlit("receiveErrors");
            assert("pathMtuDiscovery"@.len() != "receiveErrors"@.len());
            reveal_strlit("headerIncluded");
            assert("pathMtuDiscovery"@.len() != "headerIncluded"@.len());
            reveal_strlit("freebind");
            assert("pathMtuDiscovery"@.len() != "freebind"@.len());
            reveal_strlit("transparent");
            assert("pathMtuDiscovery"@.len() != "transparent"@.len());
            reveal_strlit("priority");
            assert("pathMtuDiscovery"@.len() != "priority"@.len());
            reveal_strlit("mark");
            assert("pathMtuDiscovery"@.len() != "mark"@.len());
        },
        Ipv4SocketOption::MulticastTtl => {
            reveal_strlit("multicastTtl");
            reveal_strlit("broadcast");
            assert("multicastTtl"@.len() != "broadcast"@.len());
            reveal_strlit("ipTtl");
            assert("multicastTtl"@.len() != "ipTtl"@.len());
            reveal_strlit("ipTypeOfService");
            assert("multicastTtl"@.len() != "ipTypeOfService"@.len());
            reveal_strlit("receiveBufferSize");
            assert("multicastTtl"@.len() != "receiveBufferSize"@.len());
            reveal_strlit("sendBufferSize");
            assert("multicastTtl"@.len() != "sendBufferSize"@.len());
            reveal_strlit("receivePacketInfo");
            assert("multicastTtl"@.len() != "receivePacketInfo"@.len());
            reveal_strlit("receiveTtl");
            assert("multicastTtl"@.len() != "receiveTtl"@.len());
            reveal_strlit("receiveTypeOfService");
            assert("multicastTtl"@.len() != "receiveTypeOfService"@.len());
            reveal_strlit("receiveTimestampNanoseconds");
            assert("multicastTtl"@.len() != "receiveTimestampNanoseconds"@.len());
            reveal_strlit("receiveQueueOverflow");
            assert("multicastTtl"@.len() != "receiveQueueOverflow"@.len());
            reveal_strlit("receiveErrors");
            assert("multicastTtl"@.len() != "receiveErrors"@.len());
            reveal_strlit("headerIncluded");
            assert("multicastTtl"@.len() != "headerIncluded"@.len());
            reveal_strlit("freebind");
            assert("multicastTtl"@.len() != "freebind"@.len());
            reveal_strlit("transparent");
            assert("multicastTtl"@.len() != "transparent"@.len());
            reveal_strlit("priority");
            assert("multicastTtl"@.len() != "priority"@.len());
            reveal_strlit("mark");
            assert("multicastTtl"@.len() != "mark"@.len());
            reveal_strlit("pathMtuDiscovery");
            assert("multicastTtl"@.len() != "pathMtuDiscovery"@.len());
        },
        Ipv4SocketOption::MulticastLoop => {
            reveal_strlit("multicastLoop");
            reveal_strlit("broadcast");
            assert("multicastLoop"@.len() != "broadcast"@.len());
            reveal_strlit("ipTtl");
            assert("multicastLoop"@.len() != "ipTtl"@.len());
            reveal_strlit("ipTypeOfService");
            assert("multicastLoop"@.len() != "ipTypeOfService"@.len());
            reveal_strlit("receiveBufferSize");
            assert("multicastLoop"@.len() != "receiveBufferSize"@.len());
            reveal_strlit("sendBufferSize");
            assert("multicastLoop"@.len() != "sendBufferSize"@.len());
            reveal_strlit("receivePacketInfo");
            assert("multicastLoop"@.len() != "receivePacketInfo"@.len());
            reveal_strlit("receiveTtl");
            assert("multicastLoop"@.len() != "receiveTtl"@.len());
            reveal_strlit("receiveTypeOfService");
            assert("multicastLoop"@.len() != "receiveTypeOfService"@.len());
            reveal_strlit("receiveTimestampNanoseconds");
            assert("multicastLoop"@.len() != "receiveTimestampNanoseconds"@.len());
            reveal_strlit("receiveQueueOverflow");
            assert("multicastLoop"@.len() != "receiveQueueOverflow"@.len());
            reveal_strlit("receiveErrors");
            assert("multicastLoop"@[0] != "receiveErrors"@[0]);
            reveal_strlit("headerIncluded");
            assert("multicastLoop"@.len() != "headerIncluded"@.len());
            reveal_strlit("freebind");
            assert("multicastLoop"@.len() != "freebind"@.len());
            reveal_strlit("transparent");
            assert("multicastLoop"@.len() != "transparent"@.len());
            reveal_strlit("priority");
            assert("multicastLoop"@.len() != "priority"@.len());
            reveal_strlit("mark");
            assert("multicastLoop"@.len() != "mark"@.len());
            reveal_strlit("pathMtuDiscovery");
            assert("multicastLoop"@.len() != "pathMtuDiscovery"@.len());
            reveal_strlit("multicastTtl");
            assert("multicastLoop"@.len() != "multicastTtl"@.len());
        },
        Ipv4SocketOption::BusyPollMicroseconds => {
            reveal_strlit("busyPollMicroseconds");
            reveal_strlit("broadcast");
            assert("busyPollMicroseconds"@.len() != "broadcast"@.len());
            reveal_strlit("ipTtl");
            assert("busyPollMicroseconds"@.len() != "ipTtl"@.len());
            reveal_strlit("ipTypeOfService");
            assert("busyPollMicroseconds"@.len() != "ipTypeOfService"@.len());
            reveal_strlit("receiveBufferSize");
            assert("busyPollMicroseconds"@.len() != "receiveBufferSize"@.len());
            reveal_strlit("sendBufferSize");
            assert("busyPollMicroseconds"@.len() != "sendBufferSize"@.len());
            reveal_strlit("receivePacketInfo");
            assert("busyPollMicroseconds"@.len() != "receivePacketInfo"@.len());
            reveal_strlit("receiveTtl");
            assert("busyPollMicroseconds"@.len() != "receiveTtl"@.len());
            reveal_strlit("receiveTypeOfService");
            assert("busyPollMicroseconds"@[0] != "receiveTypeOfService"@[0]);
            reveal_strlit("receiveTimestampNanoseconds");
            assert("busyPollMicroseconds"@.len() != "receiveTimestampNanoseconds"@.len());
            reveal_strlit("receiveQueueOverflow");
            assert("busyPollMicroseconds"@[0] != "receiveQueueOverflow"@[0]);
            reveal_strlit("receiveErrors");
            assert("busyPollMicroseconds"@.len() != "receiveErrors"@.len());
            reveal_strlit("headerIncluded");
            assert("busyPollMicroseconds"@.len() != "headerIncluded"@.len());
            reveal_strlit("freebind");
            assert("busyPollMicroseconds"@.len() != "freebind"@.len());
            reveal_strlit("transparent");
            assert("busyPollMicroseconds"@.len() != "transparent"@.len());
            reveal_strlit("priority");
            assert("busyPollMicroseconds"@.len() != "priority"@.len());
            reveal_strlit("mark");
            assert("busyPollMicroseconds"@.len() != "mark"@.len());
            reveal_strlit("pathMtuDiscovery");
            assert("busyPollMicroseconds"@.len() != "pathMtuDiscovery"@.len());
            reveal_strlit("multicastTtl");
            assert("busyPollMicroseconds"@.len() != "multicastTtl"@.len());
            reveal_strlit("multicastLoop");
            assert("busyPollMicroseconds"@.len() != "multicastLoop"@.len());
        },
    }
}

/// Every IPv6 option is selected again by its own public name.
pub proof fn ipv6_option_names_round_trip(option: Ipv6SocketOption)
    ensures
        Ipv6SocketOption::named(option.name()) == Some(option),
{
    match option {
        Ipv6SocketOption::Ipv6Only => {
            reveal_strlit("ipv6Only");
        },
        Ipv6SocketOption::UnicastHops => {
            reveal_strlit("ipv6UnicastHops");
            reveal_strlit("ipv6Only");
            assert("ipv6UnicastHops"@.len() != "ipv6Only"@.len());
        },
        Ipv6SocketOption::TrafficClass => {
            reveal_strlit("ipv6TrafficClass");
            reveal_strlit("ipv6Only");
            assert("ipv6TrafficClass"@.len() != "ipv6Only"@.len());
            reveal_strlit("ipv6UnicastHops");
            assert("ipv6TrafficClass"@.len() != "ipv6UnicastHops"@.len());
        },
        Ipv6SocketOption::MulticastHops => {
            reveal_strlit("ipv6MulticastHops");
            reveal_strlit("ipv6Only");
            assert("ipv6MulticastHops"@.len() != "ipv6Only"@.len());
            reveal_strlit("ipv6UnicastHops");
            assert("ipv6MulticastHops"@.len() != "ipv6UnicastHops"@.len());
            reveal_strlit("ipv6TrafficClass");
            assert("ipv6MulticastHops"@.len() != "ipv6TrafficClass"@.len());
        },
        Ipv6SocketOption::ReceiveBufferSize => {
            reveal_strlit("receiveBufferSize");
            reveal_strlit("ipv6Only");
            assert("receiveBufferSize"@.len() != "ipv6Only"@.len());
            reveal_strlit("ipv6UnicastHops");
            assert("receiveBufferSize"@.len() != "ipv6UnicastHops"@.len());
            reveal_strlit("ipv6TrafficClass");
            assert("receiveBufferSize"@.len() != "ipv6TrafficClass"@.len());
            reveal_strlit("ipv6MulticastHops");
            assert("receiveBufferSize"@[0] != "ipv6MulticastHops"@[0]);
        },
        Ipv6SocketOption::SendBufferSize => {
            reveal_strlit("sendBufferSize");
            reveal_strlit("ipv6Only");
            assert("sendBufferSize"@.len() != "ipv6Only"@.len());
            reveal_strlit("ipv6UnicastHops");
            assert("sendBufferSize"@.len() != "ipv6UnicastHops"@.len());
            reveal_strlit("ipv6TrafficClass");
            assert("sendBufferSize"@.len() != "ipv6TrafficClass"@.len());
            reveal_strlit("ipv6MulticastHops");
            assert("sendBufferSize"@.len() != "ipv6MulticastHops"@.len());
            reveal_strlit("receiveBufferSize");
            assert("sendBufferSize"@.len() != "receiveBufferSize"@.len());
        },
        Ipv6SocketOption::ReceivePacketInfo => {
            reveal_strlit("receivePacketInfo");
            reveal_strlit("ipv6Only");
            assert("receivePacketInfo"@.len() != "ipv6Only"@.len());
            reveal_strlit("ipv6UnicastHops");
            assert("receivePacketInfo"@.len() != "ipv6UnicastHops"@.len());
            reveal_strlit("ipv6TrafficClass");
            assert("receivePacketInfo"@.len() != "ipv6TrafficClass"@.len());
            reveal_strlit("ipv6MulticastHops");
            assert("receivePacketInfo"@[0] != "ipv6MulticastHops"@[0]);
            reveal_strlit("receiveBufferSize");
            assert("receivePacketInfo"@[7] != "receiveBufferSize"@[7]);
            reveal_strlit("sendBufferSize");
            assert("receivePacketInfo"@.len() != "sendBufferSize"@.len());
        },
        Ipv6SocketOption::ReceiveHopLimit => {
            reveal_strlit("receiveHopLimit");
            reveal_strlit("ipv6Only");
            assert("receiveHopLimit"@.len() != "ipv6Only"@.len());
            reveal_strlit("ipv6UnicastHops");
            assert("receiveHopLimit"@[0] != "ipv6UnicastHops"@[0]);
            reveal_strlit("ipv6TrafficClass");
            assert("receiveHopLimit"@.len() != "ipv6TrafficClass"@.len());
            reveal_strlit("ipv6MulticastHops");
            assert("receiveHopLimit"@.len() != "ipv6MulticastHops"@.len());
            reveal_strlit("receiveBufferSize");
            assert("receiveHopLimit"@.len() != "receiveBufferSize"@.len());
            reveal_strlit("sendBufferSize");
            assert("receiveHopLimit"@.len() != "sendBufferSize"@.len());
            reveal_strlit("receivePacketInfo");
            assert("receiveHopLimit"@.len() != "receivePacketInfo"@.len());
        },
        Ipv6SocketOption::ReceiveTrafficClass => {
            reveal_strlit("receiveTrafficClass");
            reveal_strlit("ipv6Only");
            assert("receiveTrafficClass"@.len() != "ipv6Only"@.len());
            reveal_strlit("ipv6UnicastHops");
            assert("receiveTrafficClass"@.len() != "ipv6UnicastHops"@.len());
            reveal_strlit("ipv6TrafficClass");
            assert("receiveTrafficClass"@.len() != "ipv6TrafficClass"@.len());
            reveal_strlit("ipv6MulticastHops");
            assert("receiveTrafficClass"@.len() != "ipv6MulticastHops"@.len());
            reveal_strlit("receiveBufferSize");
            assert("receiveTrafficClass"@.len() != "receiveBufferSize"@.len());
            reveal_strlit("sendBufferSize");
            assert("receiveTrafficClass"@.len() != "sendBufferSize"@.len());
            reveal_strlit("receivePacketInfo");
            assert("receiveTrafficClass"@.len() != "receivePacketInfo"@.len());
            reveal_strlit("receiveHopLimit");
            assert("receiveTrafficClass"@.len() != "receiveHopLimit"@.len());
        },
        Ipv6SocketOption::ReceiveTimestampNanoseconds => {
            reveal_strlit("receiveTimestampNanoseconds");
            reveal_strlit("ipv6Only");
            assert("receiveTimestampNanoseconds"@.len() != "ipv6Only"@.len());
            reveal_strlit("ipv6UnicastHops");
            assert("receiveTimestampNanoseconds"@.len() != "ipv6UnicastHops"@.len());
            reveal_strlit("ipv6TrafficClass");
            assert("receiveTimestampNanoseconds"@.len() != "ipv6TrafficClass"@.len());
            reveal_strlit("ipv6MulticastHops");
            assert("receiveTimestampNanoseconds"@.len() != "ipv6MulticastHops"@.len());
            reveal_strlit("receiveBufferSize");
            assert("receiveTimestampNanoseconds"@.len() != "receiveBufferSize"@.len());
            reveal_strlit("sendBufferSize");
            assert("receiveTimestampNanoseconds"@.len() != "sendBufferSize"@.len());
            reveal_strlit("receivePacketInfo");
            assert("receiveTimestampNanoseconds"@.len() != "receivePacketInfo"@.len());
            reveal_strlit("receiveHopLimit");
            assert("receiveTimestampNanoseconds"@.len() != "receiveHopLimit"@.len());
            reveal_strlit("receiveTrafficClass");
            assert("receiveTimestampNanoseconds"@.len() != "receiveTrafficClass"@.len());
        },
        Ipv6SocketOption::ReceiveQueueOverflow => {
            reveal_strlit("receiveQueueOverflow");
            reveal_strlit("ipv6Only");
            assert("receiveQueueOverflow"@.len() != "ipv6Only"@.len());
            reveal_strlit("ipv6UnicastHops");
            assert("receiveQueueOverflow"@.len() != "ipv6UnicastHops"@.len());
            reveal_strlit("ipv6TrafficClass");
            assert("receiveQueueOverflow"@.len() != "ipv6TrafficClass"@.len());
            reveal_strlit("ipv6MulticastHops");
            assert("receiveQueueOverflow"@.len() != "ipv6MulticastHops"@.len());
            reveal_strlit("receiveBufferSize");
            assert("receiveQueueOverflow"@.len() != "receiveBufferSize"@.len());
            reveal_strlit("sendBufferSize");
            assert("receiveQueueOverflow"@.len() != "sendBufferSize"@.len());
            reveal_strlit("receivePacketInfo");
            assert("receiveQueueOverflow"@.len() != "receivePacketInfo"@.len());
            reveal_strlit("receiveHopLimit");
            assert("receiveQueueOverflow"@.len() != "receiveHopLimit"@.len());
            reveal_strlit("receiveTrafficClass");
            assert("receiveQueueOverflow"@.len() != "receiveTrafficClass"@.len());
            reveal_strlit("receiveTimestampNanoseconds");
            assert("receiveQueueOverflow"@.len() != "receiveTimestampNanoseconds"@.len());
        },
        Ipv6SocketOption::ReceiveErrors => {
            reveal_strlit("receiveErrors");
            reveal_strlit("ipv6Only");
            assert("receiveErrors"@.len() != "ipv6Only"@.len());
            reveal_strlit("ipv6UnicastHops");
            assert("receiveErrors"@.len() != "ipv6UnicastHops"@.len());
            reveal_strlit("ipv6TrafficClass");
            assert("receiveErrors"@.len() != "ipv6TrafficClass"@.len());
            reveal_strlit("ipv6MulticastHops");
            assert("receiveErrors"@.len() != "ipv6MulticastHops"@.len());
            reveal_strlit("receiveBufferSize");
            assert("receiveErrors"@.len() != "receiveBufferSize"@.len());
            reveal_strlit("sendBufferSize");
            assert("receiveErrors"@.len() != "sendBufferSize"@.len());
            reveal_strlit("receivePacketInfo");
            assert("receiveErrors"@.len() != "receivePacketInfo"@.len());
            reveal_strlit("receiveHopLimit");
            assert("receiveErrors"@.len() != "receiveHopLimit"@.len());
            reveal_strlit("receiveTrafficClass");
            assert("receiveErrors"@.len() != "receiveTrafficClass"@.len());
            reveal_strlit("receiveTimestampNanoseconds");
            assert("receiveErrors"@.len() != "receiveTimestampNanoseconds"@.len());
            reveal_strlit("receiveQueueOverflow");
            assert("receiveErrors"@.len() != "receiveQueueOverflow"@.len());
        },
        Ipv6SocketOption::ChecksumOffset => {
            reveal_strlit("ipv6ChecksumOffset");
            reveal_strlit("ipv6Only");
            assert("ipv6ChecksumOffset"@.len() != "ipv6Only"@.len());
            reveal_strlit("ipv6UnicastHops");
            assert("ipv6ChecksumOffset"@.len() != "ipv6UnicastHops"@.len());
            reveal_strlit("ipv6TrafficClass");
            assert("ipv6ChecksumOffset"@.len() != "ipv6TrafficClass"@.len());
            reveal_strlit("ipv6MulticastHops");
            assert("ipv6ChecksumOffset"@.len() != "ipv6MulticastHops"@.len());
            reveal_strlit("receiveBufferSize");
            assert("ipv6ChecksumOffset"@.len() != "receiveBufferSize"@.len());
            reveal_strlit("sendBufferSize");
            assert("ipv6ChecksumOffset"@.len() != "sendBufferSize"@.len());
            reveal_strlit("receivePacketInfo");
            assert("ipv6ChecksumOffset"@.len() != "receivePacketInfo"@.len());
            reveal_strlit("receiveHopLimit");
            assert("ipv6ChecksumOffset"@.len() != "receiveHopLimit"@.len());
            reveal_strlit("receiveTrafficClass");
            assert("ipv6ChecksumOffset"@.len() != "receiveTrafficClass"@.len());
            reveal_strlit("receiveTimestampNanoseconds");
            assert("ipv6ChecksumOffset"@.len() != "receiveTimestampNanoseconds"@.len());
            reveal_strlit("receiveQueueOverflow");
            assert("ipv6ChecksumOffset"@.len() != "receiveQueueOverflow"@.len());
            reveal_strlit("receiveErrors");
            assert("ipv6ChecksumOffset"@.len() != "receiveErrors"@.len());
        },
        Ipv6SocketOption::Priority => {
            reveal_strlit("priority");
            reveal_strlit("ipv6Only");
            assert("priority"@[0] != "ipv6Only"@[0]);
            reveal_strlit("ipv6UnicastHops");
            assert("priority"@.len() != "ipv6UnicastHops"@.len());
            reveal_strlit("ipv6TrafficClass");
            assert("priority"@.len() != "ipv6TrafficClass"@.len());
            reveal_strlit("ipv6MulticastHops");
            assert("priority"@.len() != "ipv6MulticastHops"@.len());
            reveal_strlit("receiveBufferSize");
            assert("priority"@.len() != "receiveBufferSize"@.len());
            reveal_strlit("sendBufferSize");
            assert("priority"@.len() != "sendBufferSize"@.len());
            reveal_strlit("receivePacketInfo");
            assert("priority"@.len() != "receivePacketInfo"@.len());
            reveal_strlit("receiveHopLimit");
            assert("priority"@.len() != "receiveHopLimit"@.len());
            reveal_strlit("receiveTrafficClass");
            assert("priority"@.len() != "receiveTrafficClass"@.len());
            reveal_strlit("receiveTimestampNanoseconds");
            assert("priority"@.len() != "receiveTimestampNanoseconds"@.len());
            reveal_strlit("receiveQueueOverflow");
            assert("priority"@.len() != "receiveQueueOverflow"@.len());
            reveal_strlit("receiveErrors");
            assert("priority"@.len() != "receiveErrors"@.len());
            reveal_strlit("ipv6ChecksumOffset");
            assert("priority"@.len() != "ipv6ChecksumOffset"@.len());
        },
        Ipv6SocketOption::Mark => {
            reveal_strlit("mark");
            reveal_strlit("ipv6Only");
            assert("mark"@.len() != "ipv6Only"@.len());
            reveal_strlit("ipv6UnicastHops");
            assert("mark"@.len() != "ipv6UnicastHops"@.len());
            reveal_strlit("ipv6TrafficClass");
            assert("mark"@.len() != "ipv6TrafficClass"@.len());
            reveal_strlit("ipv6MulticastHops");
            assert("mark"@.len() != "ipv6MulticastHops"@.len());
            reveal_strlit("receiveBufferSize");
            assert("mark"@.len() != "receiveBufferSize"@.len());
            reveal_strlit("sendBufferSize");
            assert("mark"@.len() != "sendBufferSize"@.len());
            reveal_strlit("receivePacketInfo");
            assert("mark"@.len() != "receivePacketInfo"@.len());
            reveal_strlit("receiveHopLimit");
            assert("mark"@.len() != "receiveHopLimit"@.len());
            reveal_strlit("receiveTrafficClass");
            assert("mark"@.len() != "receiveTrafficClass"@.len());
            reveal_strlit("receiveTimestampNanoseconds");
            assert("mark"@.len() != "receiveTimestampNanoseconds"@.len());
            reveal_strlit("receiveQueueOverflow");
            assert("mark"@.len() != "receiveQueueOverflow"@.len());
            reveal_strlit("receiveErrors");
            assert("mark"@.len() != "receiveErrors"@.len());
            reveal_strlit("ipv6ChecksumOffset");
            assert("mark"@.len() != "ipv6ChecksumOffset"@.len());
            reveal_strlit("priority");
            assert("mark"@.len() != "priority"@.len());
        },
        Ipv6SocketOption::PathMtuDiscovery => {
            reveal_strlit("pathMtuDiscovery");
            reveal_strlit("ipv6Only");
            assert("pathMtuDiscovery"@.len() != "ipv6Only"@.len());
            reveal_strlit("ipv6UnicastHops");
            assert("pathMtuDiscovery"@.len() != "ipv6UnicastHops"@.len());
            reveal_strlit("ipv6TrafficClass");
            assert("pathMtuDiscovery"@[0] != "ipv6TrafficClass"@[0]);
            reveal_strlit("ipv6MulticastHops");
            assert("pathMtuDiscovery"@.len() != "ipv6MulticastHops"@.len());
            reveal_strlit("receiveBufferSize");
            assert("pathMtuDiscovery"@.len() != "receiveBufferSize"@.len());
            reveal_strlit("sendBufferSize");
            assert("pathMtuDiscovery"@.len() != "sendBufferSize"@.len());
            reveal_strlit("receivePacketInfo");
            assert("pathMtuDiscovery"@.len() != "receivePacketInfo"@.len());
            reveal_strlit("receiveHopLimit");
            assert("pathMtuDiscovery"@.len() != "receiveHopLimit"@.len());
            reveal_strlit("receiveTrafficClass");
            assert("pathMtuDiscovery"@.len() != "receiveTrafficClass"@.len());
            reveal_strlit("receiveTimestampNanoseconds");
            assert("pathMtuDiscovery"@.len() != "receiveTimestampNanoseconds"@.len());
            reveal_strlit("receiveQueueOverflow");
            assert("pathMtuDiscovery"@.len() != "receiveQueueOverflow"@.len());
            reveal_strlit("receiveErrors");
            assert("pathMtuDiscovery"@.len() != "receiveErrors"@.len());
            reveal_strlit("ipv6ChecksumOffset");
            assert("pathMtuDiscovery"@.len() != "ipv6ChecksumOffset"@.len());
            reveal_strlit("priority");
            assert("pathMtuDiscovery"@.len() != "priority"@.len());
            reveal_strlit("mark");
            assert("pathMtuDiscovery"@.len() != "mark"@.len());
        },
        Ipv6SocketOption::MulticastLoop => {
            reveal_strlit("multicastLoop");
            reveal_strlit("ipv6Only");
            assert("multicastLoop"@.len() != "ipv6Only"@.len());
            reveal_strlit("ipv6UnicastHops");
            assert("multicastLoop"@.len() != "ipv6UnicastHops"@.len());
            reveal_strlit("ipv6TrafficClass");
            assert("multicastLoop"@.len() != "ipv6TrafficClass"@.len());
            reveal_strlit("ipv6MulticastHops");
            assert("multicastLoop"@.len() != "ipv6MulticastHops"@.len());
            reveal_strlit("receiveBufferSize");
            assert("multicastLoop"@.len() != "receiveBufferSize"@.len());
            reveal_strlit("sendBufferSize");
            assert("multicastLoop"@.len() != "sendBufferSize"@.len());
            reveal_strlit("receivePacketInfo");
            assert("multicastLoop"@.len() != "receivePacketInfo"@.len());
            reveal_strlit("receiveHopLimit");
            assert("multicastLoop"@.len() != "receiveHopLimit"@.len());
            reveal_strlit("receiveTrafficClass");
            assert("multicastLoop"@.len() != "receiveTrafficClass"@.len());
            reveal_strlit("receiveTimestampNanoseconds");
            assert("multicastLoop"@.len() != "receiveTimestampNanoseconds"@.len());
            reveal_strlit("receiveQueueOverflow");
            assert("multicastLoop"@.len() != "receiveQueueOverflow"@.len());
            reveal_strlit("receiveErrors");
            assert("multicastLoop"@[0] != "receiveErrors"@[0]);
            reveal_strlit("ipv6ChecksumOffset");
            assert("multicastLoop"@.len() != "ipv6ChecksumOffset"@.len());
            reveal_strlit("priority");
            assert("multicastLoop"@.len() != "priority"@.len());
            reveal_strlit("mark");
            assert("multicastLoop"@.len() != "mark"@.len());
            reveal_strlit("pathMtuDiscovery");
            assert("multicastLoop"@.len() != "pathMtuDiscovery"@.len());
        },
        Ipv6SocketOption::BusyPollMicroseconds => {
            reveal_strlit("busyPollMicroseconds");
            reveal_strlit("ipv6Only");
            assert("busyPollMicroseconds"@.len() != "ipv6Only"@.len());
            reveal_strlit("ipv6UnicastHops");
            assert("busyPollMicroseconds"@.len() != "ipv6UnicastHops"@.len());
            reveal_strlit("ipv6TrafficClass");
            assert("busyPollMicroseconds"@.len() != "ipv6TrafficClass"@.len());
            reveal_strlit("ipv6MulticastHops");
            assert("busyPollMicroseconds"@.len() != "ipv6MulticastHops"@.len());
            reveal_strlit("receiveBufferSize");
            assert("busyPollMicroseconds"@.len() != "receiveBufferSize"@.len());
            reveal_strlit("sendBufferSize");
            assert("busyPollMicroseconds"@.len() != "sendBufferSize"@.len());
            reveal_strlit("receivePacketInfo");
            assert("busyPollMicroseconds"@.len() != "receivePacketInfo"@.len());
            reveal_strlit("receiveHopLimit");
            assert("busyPollMicroseconds"@.len() != "receiveHopLimit"@.len());
            reveal_strlit("receiveTrafficClass");
            assert("busyPollMicroseconds"@.len() != "receiveTrafficClass"@.len());
            reveal_strlit("receiveTimestampNanoseconds");
            assert("busyPollMicroseconds"@.len() != "receiveTimestampNanoseconds"@.len());
            reveal_strlit("receiveQueueOverflow");
            assert("busyPollMicroseconds"@[0] != "receiveQueueOverflow"@[0]);
            reveal_strlit("receiveErrors");
            assert("busyPollMicroseconds"@.len() != "receiveErrors"@.len());
            reveal_strlit("ipv6ChecksumOffset");
            assert("busyPollMicroseconds"@.len() != "ipv6ChecksumOffset"@.len());
            reveal_strlit("priority");
            assert("busyPollMicroseconds"@.len() != "priority"@.len());
            reveal_strlit("mark");
            assert("busyPollMicroseconds"@.len() != "mark"@.len());
            reveal_strlit("pathMtuDiscovery");
            assert("busyPollMicroseconds"@.len() != "pathMtuDiscovery"@.len());
            reveal_strlit("multicastLoop");
            assert("busyPollMicroseconds"@.len() != "multicastLoop"@.len());
        },
    }
}

/// A value an IPv4 option accepts is reported back unchanged from the
/// integer written for it.
pub proof fn ipv4_setting_reads_back(option: Ipv4SocketOption, value: u32)
    requires
        option.accepts(value),
    ensures
        option.decode(option.encode(value)) == Some(value),
{
    assert((value as i32) as u32 == value) by (bit_vector);
    assert(value <= 255 ==> ((value as i32) as u8) as u32 == value) by (bit_vector);
}

/// A value an IPv6 option accepts is reported back unchanged from the
/// integer written for it.
pub proof fn ipv6_setting_reads_back(option: Ipv6SocketOption, value: u32)
    requires
        option.accepts(value),
    ensures
        option.decode(option.encode(value)) == Some(value),
{
    assert((value as i32) as u32 == value) by (bit_vector);
}

} // verus!

//! Structured native socket errors: stable category, operation and Linux errno.
use vstd::prelude::*;

use rustix::io::Errno;

use crate::text::owned;

verus! {

/// Stable categories for errors produced by the native socket core.
#[derive(Clone, Copy, Debug, PartialEq, Eq, Structural)]
pub enum ErrorKind {
    Aborted,
    Internal,
    InvalidArgument,
    MalformedControl,
    QueueFull,
    ReactorClosed,
    SocketClosed,
    System,
    Unsupported,
}

impl ErrorKind {
    /// The stable Node-facing name.
    pub open spec fn name(self) -> Seq<char> {
        match self {
            ErrorKind::Aborted => "aborted"@,
            ErrorKind::Internal => "internal"@,
            ErrorKind::InvalidArgument => "invalidArgument"@,
            ErrorKind::MalformedControl => "malformedControl"@,
            ErrorKind::QueueFull => "queueFull"@,
            ErrorKind::ReactorClosed => "reactorClosed"@,
            ErrorKind::SocketClosed => "socketClosed"@,
            ErrorKind::System => "system"@,
            ErrorKind::Unsupported => "unsupported"@,
        }
    }

    /// The stable machine-readable code errors of this kind carry.
    pub open spec fn code(self) -> Seq<char> {
        match self {
            ErrorKind::Aborted => "ERR_ABORTED"@,
            ErrorKind::Internal => "ERR_INTERNAL"@,
            ErrorKind::InvalidArgument => "ERR_INVALID_ARGUMENT"@,
            ErrorKind::MalformedControl => "ERR_MALFORMED_CONTROL"@,
            ErrorKind::QueueFull => "ERR_QUEUE_FULL"@,
            ErrorKind::ReactorClosed => "ERR_REACTOR_CLOSED"@,
            ErrorKind::SocketClosed => "ERR_SOCKET_CLOSED"@,
            ErrorKind::System => "ERR_SYSTEM"@,
            ErrorKind::Unsupported => "ERR_UNSUPPORTED"@,
        }
    }

    /// Returns the stable Node-facing name.
    pub fn as_str(self) -> (r: &'static str)
        ensures
            r@ == self.name(),
    {
        match self {
            ErrorKind::Aborted => "aborted",
            ErrorKind::Internal => "internal",
            ErrorKind::InvalidArgument => "invalidArgument",
            ErrorKind::MalformedControl => "malformedControl",
            ErrorKind::QueueFull => "queueFull",
            ErrorKind::ReactorClosed => "reactorClosed",
            ErrorKind::SocketClosed => "socketClosed",
            ErrorKind::System => "system",
            ErrorKind::Unsupported => "unsupported",
        }
    }
}


/// Identifies the native operation that failed.
#[derive(Clone, Copy, Debug, PartialEq, Eq, Structural)]
pub enum Operation {
    AcquireOperation,
    AttachFilter,
    Bind,
    Cancel,
    CloseSocket,
    CreateRawIpv4Socket,
    CreateRawIpv6Socket,
    CreatePacketSocket,
    Connect,
    ConfigurePacketRing,
    Disconnect,
    GetLocalAddress,
    GetStatistics,
    LookupInterface,
    PacketMembership,
    GetSocketOption,
    Receive,
    ReceiveBatch,
    ReceiveRingFrame,
    ReceiveMessage,
    RegisterSocket,
    Send,
    SendBatch,
    SendMessage,
    SetSocketOption,
    StartReactor,
    ValidateBufferRange,
    ValidatePacketBufferLength,
    ValidateRawIpv4Protocol,
    ValidateRawIpv6Protocol,
}

impl Operation {
    /// The stable Node-facing name.
    pub open spec fn name(self) -> Seq<char> {
        match self {
            Operation::AcquireOperation => "acquireOperation"@,
            Operation::AttachFilter => "attachFilter"@,
            Operation::Bind => "bind"@,
            Operation::Cancel => "cancel"@,
            Operation::CloseSocket => "close"@,
            Operation::CreateRawIpv4Socket => "createRawIpv4Socket"@,
            Operation::CreateRawIpv6Socket => "createRawIpv6Socket"@,
            Operation::CreatePacketSocket => "createPacketSocket"@,
            Operation::Connect => "connect"@,
            Operation::ConfigurePacketRing => "configurePacketRing"@,
            Operation::Disconnect => "disconnect"@,
            Operation::GetLocalAddress => "localAddress"@,
            Operation::GetStatistics => "packetStatistics"@,
            Operation::LookupInterface => "lookupInterface"@,
            Operation::PacketMembership => "packetMembership"@,
            Operation::GetSocketOption => "getOption"@,
            Operation::Receive => "receive"@,
            Operation::ReceiveBatch => "receiveBatch"@,
            Operation::ReceiveRingFrame => "receiveRingFrame"@,
            Operation::ReceiveMessage => "receiveMessage"@,
            Operation::RegisterSocket => "registerSocket"@,
            Operation::Send => "send"@,
            Operation::SendBatch => "sendBatch"@,
            Operation::SendMessage => "sendMessage"@,
            Operation::SetSocketOption => "setOption"@,
            Operation::StartReactor => "startReactor"@,
            Operation::ValidateBufferRange => "validateBufferRange"@,
            Operation::ValidatePacketBufferLength => "validatePacketBufferLength"@,
            Operation::ValidateRawIpv4Protocol => "validateRawIpv4Protocol"@,
            Operation::ValidateRawIpv6Protocol => "validateRawIpv6Protocol"@,
        }
    }

    /// Returns the stable Node-facing name.
    pub fn as_str(self) -> (r: &'static str)
        ensures
            r@ == self.name(),
    {
        match self {
            Operation::AcquireOperation => "acquireOperation",
            Operation::AttachFilter => "attachFilter",
            Operation::Bind => "bind",
            Operation::Cancel => "cancel",
            Operation::CloseSocket => "close",
            Operation::CreateRawIpv4Socket => "createRawIpv4Socket",
            Operation::CreateRawIpv6Socket => "createRawIpv6Socket",
            Operation::CreatePacketSocket => "createPacketSocket",
            Operation::Connect => "connect",
            Operation::ConfigurePacketRing => "configurePacketRing",
            Operation::Disconnect => "disconnect",
            Operation::GetLocalAddress => "localAddress",
            Operation::GetStatistics => "packetStatistics",
            Operation::LookupInterface => "lookupInterface",
            Operation::PacketMembership => "packetMembership",
            Operation::GetSocketOption => "getOption",
            Operation::Receive => "receive",
            Operation::ReceiveBatch => "receiveBatch",
            Operation::ReceiveRingFrame => "receiveRingFrame",
            Operation::ReceiveMessage => "receiveMessage",
            Operation::RegisterSocket => "registerSocket",
            Operation::Send => "send",
            Operation::SendBatch => "sendBatch",
            Operation::SendMessage => "sendMessage",
            Operation::SetSocketOption => "setOption",
            Operation::StartReactor => "startReactor",
            Operation::ValidateBufferRange => "validateBufferRange",
            Operation::ValidatePacketBufferLength => "validatePacketBufferLength",
            Operation::ValidateRawIpv4Protocol => "validateRawIpv4Protocol",
            Operation::ValidateRawIpv6Protocol => "validateRawIpv6Protocol",
        }
    }
}


/// Each kind has a code of its own: two kinds share a code only when they are
/// the same kind, so the code an error carries names its kind.
pub proof fn codes_identify_kinds(a: ErrorKind, b: ErrorKind)
    ensures
        a.code() == b.code() <==> a == b,
{
    reveal_strlit("ERR_ABORTED");
    reveal_strlit("ERR_INTERNAL");
    reveal_strlit("ERR_INVALID_ARGUMENT");
    reveal_strlit("ERR_MALFORMED_CONTROL");
    reveal_strlit("ERR_QUEUE_FULL");
    reveal_strlit("ERR_REACTOR_CLOSED");
    reveal_strlit("ERR_SOCKET_CLOSED");
    reveal_strlit("ERR_SYSTEM");
    reveal_strlit("ERR_UNSUPPORTED");
    if a != b {
        assert(a.code()[4] != b.code()[4] || a.code()[5] != b.code()[5] || a.code().len()
            != b.code().len());
    }
}

/// The mathematical content of a [`NativeError`].
pub struct NativeErrorView {
    pub kind: ErrorKind,
    pub code: Seq<char>,
    pub operation: Operation,
    pub errno: Option<i32>,
    pub errno_name: Option<Seq<char>>,
    pub message: Seq<char>,
}

/// A structured error that preserves category, operation, and Linux errno.
#[derive(Clone, Debug, PartialEq, Eq)]
pub struct NativeError {
    identity: ErrorIdentity,
    operation: Operation,
    message: String,
}

/// What an error is, apart from where it happened and its text: its kind,
/// code, errno and errno name, kept together and always consistent.
#[derive(Clone, Copy, Debug, PartialEq, Eq)]
struct ErrorIdentity {
    kind: ErrorKind,
    code: &'static str,
    errno: Option<i32>,
    errno_name: Option<&'static str>,
}

/// The view of an optional static name.
pub open spec fn opt_str_view(value: Option<&'static str>) -> Option<Seq<char>> {
    match value {
        Some(text) => Some(text@),
        None => None,
    }
}

impl View for NativeError {
    type V = NativeErrorView;

    closed spec fn view(&self) -> NativeErrorView {
        NativeErrorView {
            kind: self.identity.kind,
            code: self.identity.code@,
            operation: self.operation,
            errno: self.identity.errno,
            errno_name: opt_str_view(self.identity.errno_name),
            message: self.message@,
        }
    }
}

/// The view of an error without an errno, as every checked failure has.
pub open spec fn plain_error(
    kind: ErrorKind,
    code: Seq<char>,
    operation: Operation,
    message: Seq<char>,
) -> NativeErrorView {
    NativeErrorView { kind, code, operation, errno: None, errno_name: None, message }
}

impl NativeErrorView {
    /// Whether an error is well formed: its code is its kind's, it carries
    /// an errno exactly when it is a system failure, and the errno's name is
    /// the one this library reports for that errno.
    pub open spec fn is_well_formed(self) -> bool {
        &&& self.code == self.kind.code()
        &&& (self.errno is Some <==> self.kind == ErrorKind::System)
        &&& match self.errno {
            Some(value) => self.errno_name == linux_errno_name(value),
            None => self.errno_name is None,
        }
    }
}

impl ErrorIdentity {
    /// Every error this library makes is well formed.
    #[verifier::type_invariant]
    spec fn keeps_well_formed(self) -> bool {
        &&& self.code@ == self.kind.code()
        &&& (self.errno is Some <==> self.kind == ErrorKind::System)
        &&& match self.errno {
            Some(value) => opt_str_view(self.errno_name) == linux_errno_name(value),
            None => self.errno_name is None,
        }
    }
}

/// What a well-formed error tells of itself: its code names its kind, an
/// errno is present exactly for system failures, and an errno name only
/// with an errno.
pub proof fn well_formed_errors_follow_their_kind(e: NativeErrorView)
    requires
        e.is_well_formed(),
    ensures
        e.code == e.kind.code(),
        e.errno is Some <==> e.kind == ErrorKind::System,
        e.errno_name is Some ==> e.errno is Some,
{
}

/// Whether a result is the error with the given view.
pub open spec fn fails_with<T>(r: Result<T, NativeError>, expected: NativeErrorView) -> bool {
    r matches Err(e) && e@ == expected
}

/// The symbolic name this library reports for a Linux errno value.
pub open spec fn linux_errno_name(value: i32) -> Option<Seq<char>> {
    if value == 13 {
        Some("EACCES"@)
    } else if value == 97 {
        Some("EAFNOSUPPORT"@)
    } else if value == 22 {
        Some("EINVAL"@)
    } else if value == 5 {
        Some("EIO"@)
    } else if value == 24 {
        Some("EMFILE"@)
    } else if value == 23 {
        Some("ENFILE"@)
    } else if value == 105 {
        Some("ENOBUFS"@)
    } else if value == 1 {
        Some("EPERM"@)
    } else if value == 93 {
        Some("EPROTONOSUPPORT"@)
    } else {
        None
    }
}

fn errno_name_of(value: i32) -> (r: Option<&'static str>)
    ensures
        opt_str_view(r) == linux_errno_name(value),
{
    if value == 13 {
        Some("EACCES")
    } else if value == 97 {
        Some("EAFNOSUPPORT")
    } else if value == 22 {
        Some("EINVAL")
    } else if value == 5 {
        Some("EIO")
    } else if value == 24 {
        Some("EMFILE")
    } else if value == 23 {
        Some("ENFILE")
    } else if value == 105 {
        Some("ENOBUFS")
    } else if value == 1 {
        Some("EPERM")
    } else if value == 93 {
        Some("EPROTONOSUPPORT")
    } else {
        None
    }
}

/// rustix's errno value, carried through opaquely.
#[verifier::external_type_specification]
#[verifier::external_body]
pub struct ExternalErrno(Errno);

/// The positive Linux error code an `Errno` holds, as `Errno::raw_os_error`
/// reports it; it depends on the value alone.
pub uninterp spec fn os_error_of(errno: Errno) -> i32;

/// The error code `Errno::raw_os_error` reports.
///
/// rustix stores Linux error codes negated in a `u16` limited to
/// `0xf001..=0xffff`, so the positive code lies in `1..=4095`. The contract
/// names the code `os_error_of(errno)`: the same `Errno` always gives the same
/// code.
#[verifier::external_body]
fn errno_raw_os_error(errno: Errno) -> (r: i32)
    ensures
        r == os_error_of(errno),
        1 <= r <= 4095,
{
    errno.raw_os_error()
}

/// The human-readable text `Errno`'s `Display` writes.
///
/// rustix formats through `std::io::Error`, whose text comes from the C
/// library and its locale, so nothing is claimed of the result.
#[verifier::external_body]
fn errno_display(errno: Errno) -> String {
    errno.to_string()
}

impl NativeError {
    /// Creates an operation cancellation failure.
    pub fn aborted(operation: Operation) -> (r: Self)
        ensures
            r@.code == r@.kind.code(),
            r@ == plain_error(
                ErrorKind::Aborted,
                "ERR_ABORTED"@,
                operation,
                "the operation was aborted"@,
            ),
    {
        Self {
            identity: ErrorIdentity {
                kind: ErrorKind::Aborted,
                code: "ERR_ABORTED",
                errno: None,
                errno_name: None,
            },
            operation,
            message: owned("the operation was aborted"),
        }
    }

    /// Creates a checked-argument failure.
    pub fn invalid_argument(operation: Operation, message: &str) -> (r: Self)
        ensures
            r@.code == r@.kind.code(),
            r@ == plain_error(ErrorKind::InvalidArgument, "ERR_INVALID_ARGUMENT"@, operation, message@),
    {
        Self {
            identity: ErrorIdentity {
                kind: ErrorKind::InvalidArgument,
                code: "ERR_INVALID_ARGUMENT",
                errno: None,
                errno_name: None,
            },
            operation,
            message: owned(message),
        }
    }

    /// Creates an operation-on-closed-socket failure.
    pub fn socket_closed() -> (r: Self)
        ensures
            r@.code == r@.kind.code(),
            r@ == plain_error(
                ErrorKind::SocketClosed,
                "ERR_SOCKET_CLOSED"@,
                Operation::AcquireOperation,
                "the socket is closing or closed"@,
            ),
    {
        Self {
            identity: ErrorIdentity {
                kind: ErrorKind::SocketClosed,
                code: "ERR_SOCKET_CLOSED",
                errno: None,
                errno_name: None,
            },
            operation: Operation::AcquireOperation,
            message: owned("the socket is closing or closed"),
        }
    }

    /// Creates a bounded-queue or resource-limit failure.
    pub fn queue_full(operation: Operation, message: &str) -> (r: Self)
        ensures
            r@.code == r@.kind.code(),
            r@ == plain_error(ErrorKind::QueueFull, "ERR_QUEUE_FULL"@, operation, message@),
    {
        Self {
            identity: ErrorIdentity {
                kind: ErrorKind::QueueFull,
                code: "ERR_QUEUE_FULL",
                errno: None,
                errno_name: None,
            },
            operation,
            message: owned(message),
        }
    }

    /// Creates a reactor-shutdown failure.
    pub fn reactor_closed(operation: Operation) -> (r: Self)
        ensures
            r@.code == r@.kind.code(),
            r@ == plain_error(
                ErrorKind::ReactorClosed,
                "ERR_REACTOR_CLOSED"@,
                operation,
                "the native I/O reactor is shutting down"@,
            ),
    {
        Self {
            identity: ErrorIdentity {
                kind: ErrorKind::ReactorClosed,
                code: "ERR_REACTOR_CLOSED",
                errno: None,
                errno_name: None,
            },
            operation,
            message: owned("the native I/O reactor is shutting down"),
        }
    }

    /// Creates an internal resource or invariant failure without an errno.
    pub fn internal(operation: Operation, message: &str) -> (r: Self)
        ensures
            r@.code == r@.kind.code(),
            r@ == plain_error(ErrorKind::Internal, "ERR_INTERNAL"@, operation, message@),
    {
        Self {
            identity: ErrorIdentity {
                kind: ErrorKind::Internal,
                code: "ERR_INTERNAL",
                errno: None,
                errno_name: None,
            },
            operation,
            message: owned(message),
        }
    }

    /// Creates a malformed ancillary-data failure.
    pub fn malformed_control(operation: Operation, message: &str) -> (r: Self)
        ensures
            r@.code == r@.kind.code(),
            r@ == plain_error(
                ErrorKind::MalformedControl,
                "ERR_MALFORMED_CONTROL"@,
                operation,
                message@,
            ),
    {
        Self {
            identity: ErrorIdentity {
                kind: ErrorKind::MalformedControl,
                code: "ERR_MALFORMED_CONTROL",
                errno: None,
                errno_name: None,
            },
            operation,
            message: owned(message),
        }
    }

    /// Creates a known unsupported feature or combination failure.
    pub fn unsupported(operation: Operation, message: &str) -> (r: Self)
        ensures
            r@.code == r@.kind.code(),
            r@ == plain_error(ErrorKind::Unsupported, "ERR_UNSUPPORTED"@, operation, message@),
    {
        Self {
            identity: ErrorIdentity {
                kind: ErrorKind::Unsupported,
                code: "ERR_UNSUPPORTED",
                errno: None,
                errno_name: None,
            },
            operation,
            message: owned(message),
        }
    }

    /// Creates a Linux syscall failure from a raw errno value and its text.
    pub fn from_errno_value(operation: Operation, value: i32, message: &str) -> (r: Self)
        ensures
            r@.code == r@.kind.code(),
            r@ == (NativeErrorView {
                kind: ErrorKind::System,
                code: "ERR_SYSTEM"@,
                operation,
                errno: Some(value),
                errno_name: linux_errno_name(value),
                message: message@,
            }),
    {
        Self {
            identity: ErrorIdentity {
                kind: ErrorKind::System,
                code: "ERR_SYSTEM",
                errno: Some(value),
                errno_name: errno_name_of(value),
            },
            operation,
            message: owned(message),
        }
    }

    /// Creates a Linux syscall failure without discarding errno.
    ///
    /// The errno is the one `Errno::raw_os_error` gives for the argument and
    /// its name is `linux_errno_name` of it; the message is the errno's
    /// display text, which the C library's locale decides, so the contract
    /// leaves it open.
    pub fn system(operation: Operation, errno: Errno) -> (r: Self)
        ensures
            r@.code == r@.kind.code(),
            r@.kind == ErrorKind::System,
            r@.code == "ERR_SYSTEM"@,
            r@.operation == operation,
            r@.errno == Some(os_error_of(errno)),
            1 <= os_error_of(errno) <= 4095,
            r@.errno_name == linux_errno_name(os_error_of(errno)),
    {
        let value = errno_raw_os_error(errno);
        let message = errno_display(errno);
        Self::from_errno_value(operation, value, message.as_str())
    }

    pub fn kind(&self) -> (r: ErrorKind)
        ensures
            r == self@.kind,
            self@.is_well_formed(),
    {
        proof {
            use_type_invariant(&self.identity);
        }
        self.identity.kind
    }

    pub fn code(&self) -> (r: &'static str)
        ensures
            r@ == self@.code,
            self@.is_well_formed(),
    {
        proof {
            use_type_invariant(&self.identity);
        }
        self.identity.code
    }

    pub fn operation(&self) -> (r: Operation)
        ensures
            r == self@.operation,
            self@.is_well_formed(),
    {
        proof {
            use_type_invariant(&self.identity);
        }
        self.operation
    }

    pub fn errno(&self) -> (r: Option<i32>)
        ensures
            r == self@.errno,
            self@.is_well_formed(),
    {
        proof {
            use_type_invariant(&self.identity);
        }
        self.identity.errno
    }

    pub fn errno_name(&self) -> (r: Option<&'static str>)
        ensures
            opt_str_view(r) == self@.errno_name,
            self@.is_well_formed(),
    {
        proof {
            use_type_invariant(&self.identity);
        }
        self.identity.errno_name
    }

    pub fn message(&self) -> (r: &str)
        ensures
            r@ == self@.message,
            self@.is_well_formed(),
    {
        proof {
            use_type_invariant(&self.identity);
        }
        self.message.as_str()
    }

    /// The same error, attributed to another operation.
    pub fn with_operation(&self, operation: Operation) -> (r: Self)
        ensures
            r@ == (NativeErrorView { operation, ..self@ }),
    {
        proof {
            use_type_invariant(&self.identity);
        }
        Self {
            identity: self.identity,
            operation,
            message: self.message.clone(),
        }
    }

    /// The display text: the operation name, ` failed: ` and the message.
    pub fn to_string(&self) -> (r: String)
        ensures
            r@ == self@.operation.name() + " failed: "@ + self@.message,
    {
        let text = String::from_str(self.operation.as_str());
        let text = text.concat(" failed: ");
        text.concat(self.message.as_str())
    }
}

} // verus!

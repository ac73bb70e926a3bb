use nodenet_native::advanced::prepare_raw_option_read;
use nodenet_native::error::{ErrorKind, NativeError, Operation};
use nodenet_native::observation::ObservationControl;
use nodenet_native::options::{validate_raw_ipv4_protocol, validate_raw_ipv6_protocol};
use nodenet_native::scan_error::ScannerError;
use nodenet_native::service::response_complete;
use rustix::io::Errno;

fn expected_code(kind: ErrorKind) -> &'static str {
    match kind {
        ErrorKind::Aborted => "ERR_ABORTED",
        ErrorKind::Internal => "ERR_INTERNAL",
        ErrorKind::InvalidArgument => "ERR_INVALID_ARGUMENT",
        ErrorKind::MalformedControl => "ERR_MALFORMED_CONTROL",
        ErrorKind::QueueFull => "ERR_QUEUE_FULL",
        ErrorKind::ReactorClosed => "ERR_REACTOR_CLOSED",
        ErrorKind::SocketClosed => "ERR_SOCKET_CLOSED",
        ErrorKind::System => "ERR_SYSTEM",
        ErrorKind::Unsupported => "ERR_UNSUPPORTED",
    }
}

#[test]
fn every_constructor_carries_the_code_of_its_kind() {
    let errors = vec![
        NativeError::aborted(Operation::Send),
        NativeError::invalid_argument(Operation::Send, "bad"),
        NativeError::socket_closed(),
        NativeError::queue_full(Operation::Send, "full"),
        NativeError::reactor_closed(Operation::Send),
        NativeError::internal(Operation::Send, "broken"),
        NativeError::malformed_control(Operation::Send, "short"),
        NativeError::unsupported(Operation::Send, "no"),
        NativeError::from_errno_value(Operation::Send, 13, "Permission denied"),
        NativeError::system(Operation::Send, Errno::PERM),
    ];
    let mut codes: Vec<&'static str> = Vec::new();
    for error in &errors {
        assert_eq!(error.code(), expected_code(error.kind()));
        let moved = error.with_operation(Operation::Receive);
        assert_eq!(moved.code(), expected_code(moved.kind()));
        assert_eq!(moved.operation(), Operation::Receive);
        if !codes.contains(&error.code()) {
            codes.push(error.code());
        }
    }
    assert_eq!(codes.len(), 9);
}

#[test]
fn system_error_reports_the_code_of_its_errno() {
    let access = NativeError::system(Operation::Bind, Errno::ACCESS);
    assert_eq!(access.errno(), Some(13));
    assert_eq!(access.errno_name(), Some("EACCES"));
    let missing = NativeError::system(Operation::Bind, Errno::NOENT);
    assert_eq!(missing.errno(), Some(2));
    assert_eq!(missing.errno_name(), None);
    assert_eq!(missing.kind(), ErrorKind::System);
}

#[test]
fn raw_option_read_preparation_names_each_refusal() {
    assert_eq!(prepare_raw_option_read(1, 3, 4), Ok(4));
    assert_eq!(prepare_raw_option_read(1, 3, 4096), Ok(4096));

    let reserved = prepare_raw_option_read(1, 26, 16).unwrap_err();
    assert_eq!(reserved.kind(), ErrorKind::Unsupported);
    assert_eq!(reserved.operation(), Operation::GetSocketOption);
    assert_eq!(reserved.message(), "socket option is reserved for a typed ownership-aware API");

    let too_long = prepare_raw_option_read(1, 3, 4097).unwrap_err();
    assert_eq!(too_long.kind(), ErrorKind::InvalidArgument);
    assert_eq!(too_long.message(), "socket option length exceeds 4096 bytes");

    let empty = prepare_raw_option_read(1, 3, 0).unwrap_err();
    assert_eq!(empty.kind(), ErrorKind::InvalidArgument);
    assert_eq!(empty.message(), "maximum option length must be nonzero");

    let negative = prepare_raw_option_read(-1, 3, 4).unwrap_err();
    assert_eq!(negative.kind(), ErrorKind::InvalidArgument);
    assert_eq!(
        negative.message(),
        "socket option level and name must be nonnegative signed integers"
    );
}

#[test]
fn raw_socket_protocols_run_from_one_through_255() {
    assert!(validate_raw_ipv4_protocol(1).is_ok());
    assert!(validate_raw_ipv4_protocol(255).is_ok());
    let zero = validate_raw_ipv4_protocol(0).unwrap_err();
    assert_eq!(zero.kind(), ErrorKind::InvalidArgument);
    assert_eq!(zero.operation(), Operation::ValidateRawIpv4Protocol);
    assert_eq!(zero.message(), "protocol must be from 1 through 255");

    assert!(validate_raw_ipv6_protocol(58).is_ok());
    let zero = validate_raw_ipv6_protocol(0).unwrap_err();
    assert_eq!(zero.operation(), Operation::ValidateRawIpv6Protocol);
}

#[test]
fn first_readiness_settlement_wins() {
    let mut control = ObservationControl::new();
    assert_eq!(control.ready(), &None);
    control.settle_ready(Ok(()));
    control.settle_ready(Err(ScannerError::internal("openCapture", "late failure")));
    assert_eq!(control.ready(), &Some(Ok(())));

    let mut failing = ObservationControl::new();
    let failure = ScannerError::internal("openCapture", "no socket");
    failing.settle_ready(Err(failure.clone()));
    failing.settle_ready(Ok(()));
    assert_eq!(failing.ready(), &Some(Err(failure)));
}

#[test]
fn resumed_line_scan_matches_a_fresh_scan() {
    let prefix = b"SSH-2.0-Open";
    let whole = b"SSH-2.0-OpenSSH\r\n";
    let mut offset = 0usize;
    assert!(!response_complete("ssh-identification", prefix, &mut offset));
    assert_eq!(offset, prefix.len());
    assert!(response_complete("ssh-identification", whole, &mut offset));
    assert_eq!(offset, whole.len());

    let mut fresh = 0usize;
    assert!(response_complete("ssh-identification", whole, &mut fresh));
    assert_eq!(fresh, whole.len());
}

#[test]
fn resumed_http_scan_finds_a_straddling_blank_line() {
    let prefix = b"HTTP/1.0 200 OK\r\n\r";
    let whole = b"HTTP/1.0 200 OK\r\n\r\nbody";
    let mut offset = 0usize;
    assert!(!response_complete("http-head", prefix, &mut offset));
    assert_eq!(offset, prefix.len());
    assert!(response_complete("http-head", whole, &mut offset));
    assert_eq!(offset, whole.len());

    let partial = b"HTTP/1.0 200 OK\r\nServer: x\r\n";
    let mut offset = 0usize;
    assert!(!response_complete("http-head", partial, &mut offset));
    let mut fresh = 0usize;
    assert!(!response_complete("http-head", partial, &mut fresh));
    assert_eq!(offset, fresh);
}

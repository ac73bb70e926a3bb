use nodenet_native::advanced::{
    packet_fanout_value, validate_classic_bpf, validate_raw_option, ClassicBpfInstruction,
};
use nodenet_native::batch::{validate_count_and_bytes, MAX_BATCH_BYTES, MAX_BATCH_MESSAGES};
use nodenet_native::error::{ErrorKind, NativeError, Operation};
use nodenet_native::message::{
    convert_control_messages, validate_capacities, KernelControlMessage, ReceivedControlMessage,
    SendControlMessage, SendControlStorage, MAX_CONTROL_CAPACITY,
};
use nodenet_native::options::{
    checked_nonnegative, validate_socket_option_value, Ipv4SocketOption, Ipv6SocketOption,
};
use rustix::io::Errno;

#[test]
fn batch_bounds_are_independent_and_checked() {
    assert!(validate_count_and_bytes(1, 1, Operation::SendBatch).is_ok());
    assert!(
        validate_count_and_bytes(MAX_BATCH_MESSAGES, MAX_BATCH_BYTES, Operation::ReceiveBatch)
            .is_ok()
    );
    assert!(validate_count_and_bytes(0, 1, Operation::SendBatch).is_err());
    assert!(validate_count_and_bytes(MAX_BATCH_MESSAGES + 1, 1, Operation::SendBatch).is_err());
    assert!(validate_count_and_bytes(1, MAX_BATCH_BYTES + 1, Operation::ReceiveBatch).is_err());
}

#[test]
fn system_error_preserves_linux_context() {
    let error = NativeError::system(Operation::CreateRawIpv4Socket, Errno::PERM);

    assert_eq!(error.kind(), ErrorKind::System);
    assert_eq!(error.code(), "ERR_SYSTEM");
    assert_eq!(error.operation(), Operation::CreateRawIpv4Socket);
    assert_eq!(error.errno(), Some(Errno::PERM.raw_os_error()));
    assert_eq!(error.errno_name(), Some("EPERM"));
    assert!(!error.message().is_empty());
    assert!(error.to_string().starts_with("createRawIpv4Socket failed:"));
}

#[test]
fn argument_error_has_no_errno() {
    let error =
        NativeError::invalid_argument(Operation::ValidateRawIpv4Protocol, "protocol is invalid");

    assert_eq!(error.kind(), ErrorKind::InvalidArgument);
    assert_eq!(error.code(), "ERR_INVALID_ARGUMENT");
    assert_eq!(error.errno(), None);
    assert_eq!(error.errno_name(), None);
}

#[test]
fn validates_combined_message_capacities() {
    assert!(validate_capacities(65_535, MAX_CONTROL_CAPACITY, Operation::ReceiveMessage).is_ok());
    assert!(validate_capacities(0, 0, Operation::ReceiveMessage).is_err());
    assert!(validate_capacities(65_536, 0, Operation::ReceiveMessage).is_err());
    assert!(validate_capacities(1, MAX_CONTROL_CAPACITY + 1, Operation::ReceiveMessage).is_err());
}

#[test]
fn rejects_duplicate_outbound_control_messages() {
    let messages = [SendControlMessage::Ipv4Ttl(1), SendControlMessage::Ipv4Ttl(2)];
    assert!(SendControlStorage::new(&messages).is_err());
}

#[test]
fn converts_known_and_unknown_control_messages() {
    let messages = vec![
        KernelControlMessage::Ipv4Ttl(64),
        KernelControlMessage::Ipv4Tos(0xb8),
        KernelControlMessage::TimestampNanoseconds { seconds: 123, nanoseconds: 456 },
        KernelControlMessage::ReceiveQueueOverflow(7),
        KernelControlMessage::Unknown { level: 222, message_type: 333, data: vec![1, 2, 3] },
    ];
    let converted = convert_control_messages(messages, Operation::ReceiveMessage).unwrap();
    assert_eq!(converted[0], ReceivedControlMessage::Ipv4Ttl(64));
    assert_eq!(converted[1], ReceivedControlMessage::Ipv4TypeOfService(0xb8));
    assert_eq!(
        converted[2],
        ReceivedControlMessage::TimestampNanoseconds { seconds: 123, nanoseconds: 456 }
    );
    assert_eq!(converted[3], ReceivedControlMessage::ReceiveQueueOverflow(7));
    assert_eq!(
        converted[4],
        ReceivedControlMessage::Unknown { level: 222, message_type: 333, data: vec![1, 2, 3] }
    );
}

#[test]
fn converts_ipv6_control_messages_without_fabricating_headers() {
    let mut localhost = [0u8; 16];
    localhost[15] = 1;
    let converted = convert_control_messages(
        vec![
            KernelControlMessage::Ipv6PacketInfo { destination: localhost, interface_index: 1 },
            KernelControlMessage::Ipv6HopLimit(64),
            KernelControlMessage::Ipv6TrafficClass(0xb8),
        ],
        Operation::ReceiveMessage,
    )
    .unwrap();
    assert_eq!(
        converted[0],
        ReceivedControlMessage::Ipv6PacketInfo { interface_index: 1, destination_address: localhost }
    );
    assert_eq!(converted[1], ReceivedControlMessage::Ipv6HopLimit(64));
    assert_eq!(converted[2], ReceivedControlMessage::Ipv6TrafficClass(0xb8));
}

#[test]
fn rejects_malformed_timestamp_and_interface_index() {
    assert!(
        convert_control_messages(
            vec![KernelControlMessage::TimestampNanoseconds { seconds: 0, nanoseconds: -1 }],
            Operation::ReceiveMessage,
        )
        .is_err()
    );
    assert!(
        convert_control_messages(
            vec![KernelControlMessage::Ipv4PacketInfo {
                interface_index: -1,
                spec_destination: [0; 4],
                destination: [0; 4],
            }],
            Operation::ReceiveMessage,
        )
        .is_err()
    );
}

#[test]
fn control_conversion_keeps_order_and_rejects_out_of_range_hop_limits() {
    let converted = convert_control_messages(
        vec![KernelControlMessage::Ipv4Ttl(1), KernelControlMessage::Ipv4Ttl(255)],
        Operation::ReceiveMessage,
    )
    .unwrap();
    assert_eq!(converted, vec![ReceivedControlMessage::Ipv4Ttl(1), ReceivedControlMessage::Ipv4Ttl(255)]);
    let error = convert_control_messages(
        vec![KernelControlMessage::Ipv6HopLimit(256)],
        Operation::ReceiveMessage,
    )
    .unwrap_err();
    assert_eq!(error.kind(), ErrorKind::MalformedControl);
    assert!(convert_control_messages(vec![], Operation::ReceiveMessage).unwrap().is_empty());
}

#[test]
fn distinct_outbound_controls_are_stored_once_each() {
    let storage = SendControlStorage::new(&[
        SendControlMessage::Ipv4Ttl(9),
        SendControlMessage::Ipv4PacketInfo { interface_index: 3, source_address: None },
    ])
    .unwrap();
    assert_eq!(storage.ttl, Some(9));
    assert_eq!(storage.packet_info, Some((3, [0, 0, 0, 0])));
    assert_eq!(storage.ipv6_hop_limit, None);
}

#[test]
fn option_names_select_their_options_and_unknown_names_fail() {
    assert_eq!(
        Ipv4SocketOption::parse("receiveTtl", Operation::GetSocketOption).unwrap(),
        Ipv4SocketOption::ReceiveTtl
    );
    assert_eq!(
        Ipv6SocketOption::parse("ipv6ChecksumOffset", Operation::SetSocketOption).unwrap(),
        Ipv6SocketOption::ChecksumOffset
    );
    let error = Ipv4SocketOption::parse("ipv6Only", Operation::GetSocketOption).unwrap_err();
    assert_eq!(error.code(), "ERR_INVALID_ARGUMENT");
    assert_eq!(error.operation(), Operation::GetSocketOption);
}

#[test]
fn accepted_option_values_read_back_unchanged() {
    for (option, value) in [
        (Ipv4SocketOption::Broadcast, 1),
        (Ipv4SocketOption::IpTtl, 64),
        (Ipv4SocketOption::IpTypeOfService, 0xb8),
        (Ipv4SocketOption::Mark, u32::MAX),
        (Ipv4SocketOption::BusyPollMicroseconds, 1_000_000),
    ] {
        let setting = option.setting(value).unwrap();
        assert_eq!(option.decode_value(setting.value).unwrap(), value);
    }
    let setting = Ipv6SocketOption::TrafficClass.setting(0x2e).unwrap();
    assert_eq!(setting.value, 0x2e);
    assert_eq!(Ipv6SocketOption::TrafficClass.decode_value(setting.value).unwrap(), 0x2e);
    assert!(Ipv4SocketOption::IpTtl.setting(0).is_err());
    assert!(Ipv4SocketOption::BusyPollMicroseconds.setting(1_000_001).is_err());
}

#[test]
fn negative_kernel_values_are_internal_failures() {
    assert_eq!(checked_nonnegative(5).unwrap(), 5);
    let error = checked_nonnegative(-1).unwrap_err();
    assert_eq!(error.kind(), ErrorKind::Internal);
    assert!(Ipv4SocketOption::Priority.decode_value(-3).is_err());
    assert_eq!(Ipv4SocketOption::Broadcast.decode_value(-3).unwrap(), 1);
}

#[test]
fn socket_option_value_ranges_are_enforced() {
    assert!(validate_socket_option_value(Ipv4SocketOption::ReceiveBufferSize, 16 * 1024 * 1024).is_ok());
    assert!(
        validate_socket_option_value(Ipv4SocketOption::ReceiveBufferSize, 16 * 1024 * 1024 + 1)
            .is_err()
    );
    assert!(validate_socket_option_value(Ipv4SocketOption::PathMtuDiscovery, 4).is_err());
}

#[test]
fn classic_filters_are_structurally_checked() {
    let accept = ClassicBpfInstruction { code: 0x06, jump_true: 0, jump_false: 0, value: 0xffff_ffff };
    assert!(validate_classic_bpf(&[accept]).is_ok());
    assert!(validate_classic_bpf(&[]).is_err());
    let jump_out = ClassicBpfInstruction { code: 0x15, jump_true: 5, jump_false: 0, value: 1 };
    assert!(validate_classic_bpf(&[jump_out, accept]).is_err());
    let too_long = vec![accept; 4097];
    assert!(validate_classic_bpf(&too_long).is_err());
}

#[test]
fn reserved_raw_option_tuples_are_rejected() {
    // SOL_SOCKET / SO_ATTACH_FILTER is owned by the filter API.
    assert!(validate_raw_option(1, 26, Operation::SetSocketOption).is_err());
    assert!(validate_raw_option(0, 2, Operation::SetSocketOption).is_err());
}

#[test]
fn fanout_value_packs_group_and_mode() {
    assert_eq!(packet_fanout_value(7, 0).unwrap(), 7);
    assert_eq!(packet_fanout_value(1, 1).unwrap(), 0x0001_0001);
}

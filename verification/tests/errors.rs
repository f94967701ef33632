use wintun::{
    delete_driver_outcome, driver_version_outcome, log_timestamp_unix_micros, AllocatePacketError,
    GetRunningDriverVersionError, IpMaskPrefixError, IpPacketSizeError, ReceivePacketError,
    RingCapacityError, Session, Win32Error, WintunError,
};

#[test]
fn receive_errors_follow_the_exact_code_mapping() {
    let e = Session::classify_receive_error(38);
    assert!(e.is_adapter_terminating());
    assert_eq!(e, ReceivePacketError::AdapterIsTerminating);
    let e = Session::classify_receive_error(259);
    assert!(e.is_would_block());
    assert_eq!(e, ReceivePacketError::WouldBlock);
    let e = Session::classify_receive_error(13);
    assert!(e.is_invalid_data());
    assert_eq!(e, ReceivePacketError::InvalidData);
    let e = Session::classify_receive_error(5);
    assert!(!e.is_adapter_terminating() && !e.is_would_block() && !e.is_invalid_data());
    assert_eq!(e, ReceivePacketError::Other(Win32Error { code: 5 }));
}

#[test]
fn allocate_errors_follow_the_exact_code_mapping() {
    let e = Session::classify_allocate_error(38);
    assert!(e.is_adapter_terminating());
    assert_eq!(e, AllocatePacketError::AdapterIsTerminating);
    let e = Session::classify_allocate_error(111);
    assert!(e.is_would_block());
    assert_eq!(e, AllocatePacketError::WouldBlock);
    let e = Session::classify_allocate_error(5);
    assert_eq!(e, AllocatePacketError::Other(Win32Error { code: 5 }));
}

#[test]
fn recv_outcome_classifies_a_null_buffer() {
    let session = Session::new(0x42);
    let e = session.recv_outcome(0, 0, 38).err().unwrap();
    assert_eq!(e, ReceivePacketError::AdapterIsTerminating);
    let e = session.recv_outcome(0, 0, 259).err().unwrap();
    assert_eq!(e, ReceivePacketError::WouldBlock);
    let e = session.recv_outcome(0, 0, 13).err().unwrap();
    assert_eq!(e, ReceivePacketError::InvalidData);
    let e = session.allocate_outcome(0, wintun::IpPacketSize::max(), 111).err().unwrap();
    assert_eq!(e, AllocatePacketError::WouldBlock);
}

#[test]
fn read_wait_event_outcome_classifies_a_null_event() {
    let session = Session::new(0x42);
    assert_eq!(session.read_wait_event_outcome(0x55, 0), Ok(0x55));
    assert_eq!(
        session.read_wait_event_outcome(0, 6),
        Err(WintunError::Other(Win32Error { code: 6 }))
    );
}

#[test]
fn driver_version_outcome_detects_a_missing_driver() {
    assert_eq!(driver_version_outcome(0x00010004, 0), Ok(0x00010004));
    let e = driver_version_outcome(0, 2).unwrap_err();
    assert!(e.is_not_loaded());
    assert_eq!(e, GetRunningDriverVersionError::WintunNotLoaded);
    let e = driver_version_outcome(0, 5).unwrap_err();
    assert!(!e.is_not_loaded());
    assert_eq!(e, GetRunningDriverVersionError::Other(Win32Error { code: 5 }));
}

#[test]
fn delete_driver_outcome_wraps_the_failure_code() {
    assert_eq!(delete_driver_outcome(true, 0), Ok(()));
    assert_eq!(
        delete_driver_outcome(false, 1168),
        Err(WintunError::Other(Win32Error { code: 1168 }))
    );
}

#[test]
fn every_narrow_error_widens_losslessly() {
    assert_eq!(
        WintunError::from(GetRunningDriverVersionError::WintunNotLoaded),
        WintunError::WintunNotLoaded
    );
    assert_eq!(
        WintunError::from(GetRunningDriverVersionError::Other(Win32Error { code: 9 })),
        WintunError::Other(Win32Error { code: 9 })
    );
    assert_eq!(
        WintunError::from(ReceivePacketError::AdapterIsTerminating),
        WintunError::AdapterIsTerminating
    );
    assert_eq!(WintunError::from(ReceivePacketError::WouldBlock), WintunError::WouldBlock);
    assert_eq!(WintunError::from(ReceivePacketError::InvalidData), WintunError::InvalidData);
    assert_eq!(
        WintunError::from(AllocatePacketError::WouldBlock),
        WintunError::WouldBlock
    );
    assert_eq!(
        WintunError::from(RingCapacityError::InvalidInput),
        WintunError::InvalidRingCapacity
    );
    assert_eq!(
        WintunError::from(IpPacketSizeError::InvalidInput),
        WintunError::InvalidPacketSize
    );
    assert_eq!(
        WintunError::from(IpMaskPrefixError::InvalidInput),
        WintunError::InvalidIpMaskPrefix
    );
    assert_eq!(
        WintunError::from(Win32Error { code: 3 }),
        WintunError::Other(Win32Error { code: 3 })
    );
}

#[test]
fn messages_render_their_details() {
    assert_eq!(
        WintunError::TooLongName { max: 127, got: 128 }.message(),
        "WintunError: Too long string supplied. Max expected: 127, received: 128"
    );
    assert_eq!(
        WintunError::ContainsNull(2).message(),
        "WintunError: Received null byte in string at position: 2"
    );
    assert_eq!(
        WintunError::Other(Win32Error { code: 1168 }).message(),
        "WintunError: Win32Error: 1168"
    );
    assert_eq!(
        WintunError::InvalidPacketSize.message(),
        "WintunError: Ip packet size should be in range 1..=65535"
    );
    assert_eq!(WintunError::WouldBlock.message(), "Requested operation would block");
    assert_eq!(
        WintunError::InvalidRingCapacity.message(),
        "WintunError: Ring capacity should be in range 131072..=67108864 and be a power of two"
    );
    assert_eq!(
        WintunError::InvalidIpMaskPrefix.message(),
        "WintunError: Ip mask prefix should be in range 0..=32 or 0..=128 for Ipv4 and Ipv6 respectively"
    );
    assert_eq!(WintunError::WintunNotLoaded.message(), "Wintun driver is not loaded");
    assert_eq!(
        WintunError::AdapterIsTerminating.message(),
        "Tried to perform operation on terminated adapter"
    );
    assert_eq!(WintunError::InvalidData.message(), "Buffer contained invalid data");
    assert_eq!(
        WintunError::InterfaceNotFound.message(),
        "Failed to find interface for specified guid"
    );
    assert_eq!(WintunError::ContainsNull(0).message().ends_with("position: 0"), true);
    assert_eq!(
        WintunError::Other(Win32Error { code: 4294967295 }).message(),
        "WintunError: Win32Error: 4294967295"
    );
}

#[test]
fn log_timestamps_shift_from_the_1601_epoch() {
    // 11_644_473_600 seconds separate 1601-01-01 from the Unix epoch.
    let offset_micros: u64 = 11_644_473_600 * 1_000_000;
    assert_eq!(log_timestamp_unix_micros((offset_micros + 123) * 10), Some(123));
    assert_eq!(log_timestamp_unix_micros(offset_micros * 10), Some(0));
    assert_eq!(log_timestamp_unix_micros(offset_micros * 10 + 9), Some(0));
    // Anything before the Unix epoch is dropped rather than panicking.
    assert_eq!(log_timestamp_unix_micros(0), None);
    assert_eq!(log_timestamp_unix_micros(offset_micros * 10 - 10), None);
}

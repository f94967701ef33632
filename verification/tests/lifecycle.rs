use wintun::{
    build_unicast_row, set_ip_address_outcome, Adapter, IpAndMaskPrefix, IpPacketSize,
    Ipv4MaskPrefix, RingCapacity, Session, Win32Error, WintunError,
};

#[test]
fn create_request_validates_before_any_driver_work() {
    let req = Adapter::create_request("name", "tunnel_type", None).unwrap();
    assert_eq!(req.name_units, vec![0x6E, 0x61, 0x6D, 0x65]);
    assert_eq!(
        req.tunnel_type_units,
        vec![0x74, 0x75, 0x6E, 0x6E, 0x65, 0x6C, 0x5F, 0x74, 0x79, 0x70, 0x65]
    );
    assert!(req.requested_guid.is_none());
}

#[test]
fn create_request_passes_the_identifier_hint_verbatim() {
    let req = Adapter::create_request("name", "tunnel_type", Some(0x29C47F55)).unwrap();
    let guid = req.requested_guid.unwrap();
    assert_eq!(guid.data1, 0x29C47F55);
    assert_eq!(guid.data2, 0);
    assert_eq!(guid.data3, 0);
    assert_eq!(guid.data4, [0; 8]);
}

#[test]
fn create_request_rejects_embedded_nul_before_length() {
    let err = Adapter::create_request("na\0me", "tunnel_type", None).unwrap_err();
    assert_eq!(err, WintunError::ContainsNull(2));
    let err = Adapter::create_request("name", "tunnel\0_type", None).unwrap_err();
    assert_eq!(err, WintunError::ContainsNull(6));
    let long = "x".repeat(128);
    let err = Adapter::create_request(&long, "tunnel_type", None).unwrap_err();
    assert_eq!(err, WintunError::TooLongName { max: 127, got: 128 });
    let err = Adapter::create_request("name", &long, None).unwrap_err();
    assert_eq!(err, WintunError::TooLongName { max: 127, got: 128 });
}

#[test]
fn open_request_takes_names_up_to_127_units() {
    let ok = Adapter::open_request(&"n".repeat(127)).unwrap();
    assert_eq!(ok.len(), 127);
    let err = Adapter::open_request(&"n".repeat(128)).unwrap_err();
    assert_eq!(err, WintunError::TooLongName { max: 127, got: 128 });
}

#[test]
fn adapter_from_driver_handle_classifies_null() {
    let err = Adapter::from_driver_handle("name", 0, 1168).unwrap_err();
    assert_eq!(err, WintunError::Other(Win32Error { code: 1168 }));
    let adapter = Adapter::from_driver_handle("name", 0x10, 0).unwrap();
    assert_eq!(adapter.handle(), 0x10);
}

#[test]
fn adapter_close_yields_the_teardown_action_exactly_once() {
    let mut adapter = Adapter::from_driver_handle("name", 0x10, 0).unwrap();
    assert_eq!(adapter.close(), Some(0x10));
    // The scope-exit path runs the same release and must find nothing to do.
    assert_eq!(adapter.close(), None);
    assert_eq!(adapter.close(), None);
}

#[test]
fn reopen_request_reuses_the_stored_name() {
    let adapter = Adapter::from_driver_handle("name", 0x10, 0).unwrap();
    let units = adapter.reopen_request().unwrap();
    assert_eq!(units, vec![0x6E, 0x61, 0x6D, 0x65]);
}

#[test]
fn session_end_yields_the_teardown_action_exactly_once() {
    let adapter = Adapter::from_driver_handle("name", 0x10, 0).unwrap();
    let capacity = RingCapacity::max();
    assert_eq!(capacity.cap(), 0x4000000);
    // The driver accepted the first session.
    let mut session = adapter.session_outcome(0x77, 0).unwrap();
    assert_eq!(session.end(), Some(0x77));
    assert_eq!(session.end(), None);
    // Ending and starting again leaks nothing from the first session.
    let mut second = adapter.session_outcome(0x78, 0).unwrap();
    assert_eq!(second.handle(), 0x78);
    assert_eq!(second.end(), Some(0x78));
}

#[test]
fn session_outcome_classifies_a_refused_session() {
    let adapter = Adapter::from_driver_handle("name", 0x10, 0).unwrap();
    let err = adapter.session_outcome(0, 87).unwrap_err();
    assert_eq!(err, WintunError::Other(Win32Error { code: 87 }));
}

#[test]
fn send_packet_of_max_size_submits_without_payload_checks() {
    let adapter = Adapter::from_driver_handle("name", 0x10, 0).unwrap();
    let session = adapter.session_outcome(0x77, 0).unwrap();
    let mut packet = session.allocate_outcome(0x1000, IpPacketSize::max(), 0).unwrap();
    assert_eq!(packet.size(), 0xFFFF);
    // Submitting without touching the buffer succeeds: the action is issued
    // against the session and buffer, exactly once.
    assert_eq!(packet.send(), Some((0x77, 0x1000)));
    assert_eq!(packet.send(), None);
}

#[test]
fn recv_packet_release_happens_exactly_once() {
    let adapter = Adapter::from_driver_handle("name", 0x10, 0).unwrap();
    let session = adapter.session_outcome(0x77, 0).unwrap();
    let mut packet = session.recv_outcome(0x2000, 64, 0).unwrap();
    assert_eq!(packet.size(), 64);
    assert_eq!(packet.data_addr(), 0x2000);
    assert_eq!(packet.release(), Some((0x77, 0x2000)));
    assert_eq!(packet.release(), None);
}

#[test]
fn assign_ipv4_then_poll_until_a_packet_arrives() {
    let adapter = Adapter::from_driver_handle("name", 0x10, 0).unwrap();
    let prefix: Ipv4MaskPrefix = 24u8.try_into().unwrap();
    let row = build_unicast_row(
        0xCAFE,
        IpAndMaskPrefix::V4 { ip: [192, 168, 10, 1], prefix },
    );
    assert_eq!(set_ip_address_outcome(0, 0), Ok(()));
    assert_eq!(row.luid, 0xCAFE);
    let session = adapter.session_outcome(0x77, 0).unwrap();
    // The ring stays empty for a while: every poll is classified would-block,
    // and the caller retries; the loop ends as soon as the driver hands out
    // a buffer, so polling never continues past a terminal answer.
    let mut polls: u32 = 0;
    let packet = loop {
        polls += 1;
        let outcome = if polls < 3 {
            session.recv_outcome(0, 0, 259)
        } else {
            session.recv_outcome(0x3000, 42, 0)
        };
        match outcome {
            Ok(packet) => break packet,
            Err(err) if err.is_would_block() => continue,
            other => {
                other.unwrap();
                unreachable!();
            },
        }
    };
    assert_eq!(packet.size(), 42);
    assert_eq!(polls, 3);
}

#[test]
fn unicast_row_carries_the_documented_constants() {
    let prefix: Ipv4MaskPrefix = 24u8.try_into().unwrap();
    let row = build_unicast_row(7, IpAndMaskPrefix::V4 { ip: [192, 168, 10, 1], prefix });
    assert_eq!(row.family, 2);
    assert_eq!(row.address_v4, [192, 168, 10, 1]);
    assert_eq!(row.on_link_prefix_length, 24);
    assert_eq!(row.prefix_origin, 3);
    assert_eq!(row.suffix_origin, 3);
    assert_eq!(row.valid_lifetime, 0xFFFF_FFFF);
    assert_eq!(row.preferred_lifetime, 0xFFFF_FFFF);
    assert_eq!(row.dad_state, 4);
    assert_eq!(row.address_v6, [0; 16]);
}

#[test]
fn unicast_row_for_ipv6_uses_its_own_family() {
    let prefix: wintun::Ipv6MaskPrefix = 64u8.try_into().unwrap();
    let ip = [0x20, 0x01, 0x0d, 0xb8, 0, 0, 0, 0, 0, 0, 0, 0, 0, 0, 0, 1];
    let row = build_unicast_row(7, IpAndMaskPrefix::V6 { ip, prefix });
    assert_eq!(row.family, 23);
    assert_eq!(row.address_v6, ip);
    assert_eq!(row.on_link_prefix_length, 64);
    assert_eq!(row.address_v4, [0; 4]);
}

#[test]
fn set_ip_address_outcome_wraps_the_os_rejection() {
    let err = set_ip_address_outcome(87, 87).unwrap_err();
    assert_eq!(err, WintunError::Other(Win32Error { code: 87 }));
}

#[test]
fn session_new_wraps_a_driver_handle() {
    let mut session = Session::new(0x99);
    assert_eq!(session.handle(), 0x99);
    assert_eq!(session.end(), Some(0x99));
}

use wintun::{
    find_adapter_index, guid_be_to_ne, guid_from_u128, guid_to_u128, interface_embedded_guid,
    parse_guid, u128_from_bytes16, Guid, InterfaceInfo, WintunError,
};

const SAMPLE: u128 = 0x90333BFD8D40F78B433AC7BD29C47F55;

#[test]
fn guid_round_trip_preserves_the_value() {
    for value in [0u128, 1, SAMPLE, u128::MAX, 0x0123456789ABCDEF0123456789ABCDEF] {
        assert_eq!(guid_to_u128(guid_from_u128(value)), value);
    }
}

#[test]
fn guid_from_u128_splits_the_little_endian_lanes() {
    let g = guid_from_u128(SAMPLE);
    assert_eq!(g.data1, 0x29C47F55);
    assert_eq!(g.data2, 0xC7BD);
    assert_eq!(g.data3, 0x433A);
    assert_eq!(g.data4, [0x8B, 0xF7, 0x40, 0x8D, 0xFD, 0x3B, 0x33, 0x90]);
}

#[test]
fn guid_be_to_ne_reverses_multibyte_fields_only() {
    let g = Guid {
        data1: 0x29C47F55,
        data2: 0xC7BD,
        data3: 0x433A,
        data4: [0x8B, 0xF7, 0x40, 0x8D, 0xFD, 0x3B, 0x33, 0x90],
    };
    let n = guid_be_to_ne(g);
    assert_eq!(n.data1, 0x557FC429);
    assert_eq!(n.data2, 0xBDC7);
    assert_eq!(n.data3, 0x3A43);
    assert_eq!(n.data4, g.data4);
}

#[test]
fn parse_guid_reads_the_bytes_in_string_order() {
    let bytes = parse_guid("29C47F55-C7BD-433A-8BF7-408DFD3B3390").unwrap();
    assert_eq!(
        bytes,
        [
            0x29, 0xC4, 0x7F, 0x55, 0xC7, 0xBD, 0x43, 0x3A, 0x8B, 0xF7, 0x40, 0x8D, 0xFD, 0x3B,
            0x33, 0x90
        ]
    );
    // Lower-case digits are accepted too.
    let lower = parse_guid("29c47f55-c7bd-433a-8bf7-408dfd3b3390").unwrap();
    assert_eq!(lower, bytes);
}

#[test]
fn parse_guid_rejects_malformed_strings() {
    assert!(parse_guid("").is_err());
    assert!(parse_guid("29C47F55").is_err());
    // Wrong separator positions.
    assert!(parse_guid("29C47F55C-7BD-433A-8BF7-408DFD3B3390").is_err());
    // A non-hex character.
    assert!(parse_guid("29C47G55-C7BD-433A-8BF7-408DFD3B3390").is_err());
    // One character short.
    assert!(parse_guid("29C47F55-C7BD-433A-8BF7-408DFD3B339").is_err());
    // One character long.
    assert!(parse_guid("29C47F55-C7BD-433A-8BF7-408DFD3B33901").is_err());
}

#[test]
fn embedded_guid_composes_the_two_byte_order_transforms() {
    // The name string writes the GUID fields big-endian; reading its bytes
    // low-byte-first and swapping the multi-byte fields must equal the
    // adapter's own identifier.
    let bytes = parse_guid("29C47F55-C7BD-433A-8BF7-408DFD3B3390").unwrap();
    let value = u128_from_bytes16(&bytes);
    let target = guid_to_u128(guid_be_to_ne(guid_from_u128(value)));
    assert_eq!(target, SAMPLE);
    let embedded =
        interface_embedded_guid("\\DEVICE\\TCPIP_{29C47F55-C7BD-433A-8BF7-408DFD3B3390}");
    assert_eq!(embedded, Some(SAMPLE));
}

#[test]
fn names_without_a_well_formed_guid_yield_nothing() {
    assert_eq!(interface_embedded_guid("\\DEVICE\\TCPIP_"), None);
    assert_eq!(interface_embedded_guid("\\DEVICE\\TCPIP_{}"), None);
    assert_eq!(interface_embedded_guid("\\DEVICE\\TCPIP_{not-a-guid}"), None);
    assert_eq!(interface_embedded_guid("}{"), None);
    assert_eq!(
        interface_embedded_guid("{29C47F55-C7BD-433A-8BF7-408DFD3B339}"),
        None
    );
}

#[test]
fn find_adapter_index_returns_the_first_match() {
    let interfaces = vec![
        InterfaceInfo { index: 4, name: "\\DEVICE\\TCPIP_".to_string() },
        InterfaceInfo { index: 7, name: "\\DEVICE\\TCPIP_{not-a-guid}".to_string() },
        InterfaceInfo {
            index: 12,
            name: "\\DEVICE\\TCPIP_{29C47F55-C7BD-433A-8BF7-408DFD3B3390}".to_string(),
        },
        InterfaceInfo {
            index: 13,
            name: "\\DEVICE\\TCPIP_{29C47F55-C7BD-433A-8BF7-408DFD3B3390}".to_string(),
        },
    ];
    assert_eq!(find_adapter_index(SAMPLE, &interfaces), Ok(12));
}

#[test]
fn find_adapter_index_reports_interface_not_found() {
    let interfaces = vec![
        InterfaceInfo { index: 4, name: "\\DEVICE\\TCPIP_".to_string() },
        InterfaceInfo {
            index: 9,
            name: "\\DEVICE\\TCPIP_{00000000-0000-0000-0000-000000000000}".to_string(),
        },
    ];
    assert_eq!(find_adapter_index(SAMPLE, &interfaces), Err(WintunError::InterfaceNotFound));
    assert_eq!(find_adapter_index(SAMPLE, &vec![]), Err(WintunError::InterfaceNotFound));
}

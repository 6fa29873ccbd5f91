use uuid_tool::{parse_uuid, UnixTime, UuidError, UuidValue, Variant};

const V7_TEXT: &str = "01912d79-dfb5-7602-89b5-7a8b05bb221c";
const V7_BYTES: [u8; 16] = [
    0x01, 0x91, 0x2d, 0x79, 0xdf, 0xb5, 0x76, 0x02, 0x89, 0xb5, 0x7a, 0x8b, 0x05, 0xbb, 0x22, 0x1c,
];

#[test]
fn parse_reads_the_canonical_form() {
    let uuid = parse_uuid(V7_TEXT).unwrap();
    assert_eq!(uuid.as_bytes(), V7_BYTES);
    assert_eq!(uuid, UuidValue::from_bytes(V7_BYTES));
}

#[test]
fn parse_reads_every_accepted_form() {
    let expected = UuidValue::from_bytes(V7_BYTES);
    assert_eq!(parse_uuid("01912d79dfb5760289b57a8b05bb221c"), Ok(expected));
    assert_eq!(parse_uuid("01912D79-DFB5-7602-89B5-7A8B05BB221C"), Ok(expected));
    assert_eq!(parse_uuid("{01912d79-dfb5-7602-89b5-7a8b05bb221c}"), Ok(expected));
    assert_eq!(parse_uuid("urn:uuid:01912d79-dfb5-7602-89b5-7a8b05bb221c"), Ok(expected));
    assert_eq!(parse_uuid("URN:Uuid:01912d79-dfb5-7602-89b5-7a8b05bb221c"), Ok(expected));
}

#[test]
fn parse_refuses_everything_else() {
    let bad = [
        "not-a-uuid",
        "",
        // one digit short, one too many
        "01912d79-dfb5-7602-89b5-7a8b05bb221",
        "01912d79-dfb5-7602-89b5-7a8b05bb221c0",
        // a character that is no digit
        "01912d79-dfb5-7602-89b5-7a8b05bb221g",
        "0191 d79-dfb5-7602-89b5-7a8b05bb221c",
        // hyphens out of place
        "01912d7-9dfb5-7602-89b5-7a8b05bb221c",
        "01912d79-dfb5-7602-89b5+7a8b05bb221c",
        "01912d79dfb5-7602-89b5-7a8b05bb221c-",
        // a hyphen among 32 characters
        "01912d79dfb5760289b57a8b05bb221-",
        // braces around bare digits, a lone brace, wrong wrappers
        "{01912d79dfb5760289b57a8b05bb221c}",
        "{01912d79-dfb5-7602-89b5-7a8b05bb221c",
        "(01912d79-dfb5-7602-89b5-7a8b05bb221c)",
        "urn:guid:01912d79-dfb5-7602-89b5-7a8b05bb221c",
        "urn:uuid:01912d79dfb5760289b57a8b05bb221c",
        // characters beyond ASCII, at 36 characters and at 36 bytes
        "01912d79-dfb5-7602-89b5-7a8b05bb221\u{e9}",
        "01912d79-dfb5-7602-89b5-7a8b05bb22\u{e9}",
        "\u{ff10}1912d79-dfb5-7602-89b5-7a8b05bb221c",
    ];
    for text in bad {
        assert_eq!(parse_uuid(text), Err(UuidError::InvalidFormat), "{text:?}");
    }
}

#[test]
fn parse_agrees_with_the_uuid_crate() {
    let texts = [
        V7_TEXT,
        "09B2C736-21FA-491A-84B0-56F921C6A8DC",
        "67e5504410b1426f9247bb680e5fe0c8",
        "{6d93bade-bd9f-4e13-8914-9474e1e3567b}",
        "URN:UUID:67e55044-10b1-426f-9247-bb680e5fe0c8",
        "67e55044-10b1-426f-9247-bb680e5fe0c",
        "67e55044-10b1-426f-9247-bb680e5fe0cX",
    ];
    for text in texts {
        let ours = parse_uuid(text).ok().map(|u| u.as_bytes());
        let theirs = uuid::Uuid::parse_str(text).ok().map(|u| u.into_bytes());
        assert_eq!(ours, theirs, "{text:?}");
    }
}

#[test]
fn format_is_canonical_lower_case() {
    let uuid = UuidValue::from_bytes(V7_BYTES);
    assert_eq!(uuid.format(), V7_TEXT);
    assert_eq!(UuidValue::from_bytes([0; 16]).format(), "00000000-0000-0000-0000-000000000000");
    assert_eq!(UuidValue::from_bytes([0xff; 16]).format(), "ffffffff-ffff-ffff-ffff-ffffffffffff");
    let counting = UuidValue::from_bytes([
        0x01, 0x23, 0x45, 0x67, 0x89, 0xab, 0xcd, 0xef, 0xfe, 0xdc, 0xba, 0x98, 0x76, 0x54, 0x32,
        0x10,
    ]);
    assert_eq!(counting.format(), "01234567-89ab-cdef-fedc-ba9876543210");
    assert_eq!(counting.format(), uuid::Uuid::from_bytes(counting.as_bytes()).to_string());
}

#[test]
fn format_of_parsed_is_the_text_in_lower_case() {
    let texts = [
        "09B2C736-21FA-491A-84B0-56F921C6A8DC",
        "01912d1f-8a87-7961-84fc-fd323aaa1260",
        "F9168C5E-CEB2-4faa-B6BF-329BF39FA1E4",
        "00000000-0000-0000-0000-000000000000",
        "FFFFFFFF-FFFF-FFFF-FFFF-FFFFFFFFFFFF",
    ];
    for text in texts {
        assert_eq!(parse_uuid(text).unwrap().format(), text.to_lowercase());
    }
}

#[test]
fn parse_of_formatted_is_the_value() {
    let mut bytes = [0u8; 16];
    for round in 0..64u32 {
        for (i, b) in bytes.iter_mut().enumerate() {
            *b = (round.wrapping_mul(97).wrapping_add(i as u32 * 31) % 256) as u8;
        }
        let uuid = UuidValue::from_bytes(bytes);
        assert_eq!(parse_uuid(&uuid.format()), Ok(uuid));
    }
}

#[test]
fn version_is_the_high_nibble_of_byte_six() {
    for variant_byte in [0x00u8, 0x7f, 0x80, 0xbf, 0xc0, 0xdf, 0xe0, 0xff] {
        let mut bytes = [0u8; 16];
        bytes[6] = 0x91;
        bytes[8] = variant_byte;
        assert_eq!(UuidValue::from_bytes(bytes).get_version(), 9);
    }
    for version in 0..16u8 {
        let mut bytes = [0xffu8; 16];
        bytes[6] = version << 4 | 0x0a;
        assert_eq!(UuidValue::from_bytes(bytes).get_version(), version);
    }
}

#[test]
fn variant_goes_by_the_high_bits_of_byte_eight() {
    for byte in 0..=255u8 {
        let mut bytes = [0u8; 16];
        bytes[8] = byte;
        let expected = match byte >> 5 {
            0..=3 => Variant::NCS,
            4 | 5 => Variant::RFC4122,
            6 => Variant::Microsoft,
            _ => Variant::Future,
        };
        assert_eq!(UuidValue::from_bytes(bytes).get_variant(), expected);
    }
}

#[test]
fn node_is_the_last_six_bytes_of_version_1_and_6() {
    let v1 = parse_uuid("C232AB00-9414-11EC-B3C8-9F6BDECED846").unwrap();
    let v6 = parse_uuid("1EC9414C-232A-6B00-B3C8-9F6BDECED846").unwrap();
    let node = [0x9f, 0x6b, 0xde, 0xce, 0xd8, 0x46];
    assert_eq!(v1.get_node(), Some(node));
    assert_eq!(v6.get_node(), Some(node));
    assert_eq!(v1.get_node(), uuid::Uuid::from_bytes(v1.as_bytes()).get_node_id());
}

#[test]
fn node_is_absent_elsewhere() {
    assert_eq!(parse_uuid("09b2c736-21fa-491a-84b0-56f921c6a8dc").unwrap().get_node(), None);
    assert_eq!(parse_uuid(V7_TEXT).unwrap().get_node(), None);
    for version in [0u8, 2, 3, 4, 5, 7, 8, 15] {
        let mut bytes = [0x55u8; 16];
        bytes[6] = version << 4;
        bytes[8] = 0x80;
        assert_eq!(UuidValue::from_bytes(bytes).get_node(), None);
    }
    for variant_byte in [0x00u8, 0x40, 0xc0, 0xe0] {
        let mut bytes = [0x55u8; 16];
        bytes[6] = 0x10;
        bytes[8] = variant_byte;
        assert_eq!(UuidValue::from_bytes(bytes).get_node(), None);
    }
}

#[test]
fn timestamp_of_each_time_based_version() {
    // The worked examples of RFC 9562: 2022-02-22T19:22:22Z.
    let v1 = parse_uuid("C232AB00-9414-11EC-B3C8-9F6BDECED846").unwrap();
    let v6 = parse_uuid("1EC9414C-232A-6B00-B3C8-9F6BDECED846").unwrap();
    let v7 = parse_uuid("017F22E2-79B0-7CC3-98C4-DC0C0C07398F").unwrap();
    let expected = Some(UnixTime { seconds: 1_645_557_742, nanos: 0 });
    assert_eq!(v1.get_timestamp(), expected);
    assert_eq!(v6.get_timestamp(), expected);
    assert_eq!(v7.get_timestamp(), expected);
}

#[test]
fn timestamp_keeps_the_ticks_below_a_second() {
    // One tick past the Unix epoch, and 9,999,999 ticks past it.
    let mut bytes = [0u8; 16];
    bytes[8] = 0x80;
    // ticks = 0x01B21DD213814001
    bytes[0..4].copy_from_slice(&[0x13, 0x81, 0x40, 0x01]);
    bytes[4..6].copy_from_slice(&[0x1d, 0xd2]);
    bytes[6..8].copy_from_slice(&[0x11, 0xb2]);
    assert_eq!(
        UuidValue::from_bytes(bytes).get_timestamp(),
        Some(UnixTime { seconds: 0, nanos: 100 })
    );
    // The same ticks in the order of version 6.
    let v6 = [0x1b, 0x21, 0xdd, 0x21, 0x38, 0x14, 0x60, 0x01, 0x80, 0, 0, 0, 0, 0, 0, 0];
    assert_eq!(
        UuidValue::from_bytes(v6).get_timestamp(),
        Some(UnixTime { seconds: 0, nanos: 100 })
    );
}

#[test]
fn timestamp_before_1970_counts_back_in_seconds() {
    // No ticks at all: 1582-10-15T00:00:00Z.
    let start = parse_uuid("00000000-0000-1000-8000-000000000000").unwrap();
    assert_eq!(start.get_timestamp(), Some(UnixTime { seconds: -12_219_292_800, nanos: 0 }));
    // One tick later: the same second, a hundred nanoseconds in.
    let next = parse_uuid("00000001-0000-1000-8000-000000000000").unwrap();
    assert_eq!(next.get_timestamp(), Some(UnixTime { seconds: -12_219_292_800, nanos: 100 }));
    // One tick before the Unix epoch.
    let last = parse_uuid("13813fff-1dd2-11b2-8000-000000000000").unwrap();
    assert_eq!(last.get_timestamp(), Some(UnixTime { seconds: -1, nanos: 999_999_900 }));
}

#[test]
fn timestamp_agrees_with_the_uuid_crate_from_1970_on() {
    let texts = [
        V7_TEXT,
        "C232AB00-9414-11EC-B3C8-9F6BDECED846",
        "1EC9414C-232A-6B00-B3C8-9F6BDECED846",
        "017F22E2-79B0-7CC3-98C4-DC0C0C07398F",
        "ffffffff-ffff-7fff-bfff-ffffffffffff",
        "ffffffff-ffff-1fff-bfff-ffffffffffff",
        "ffffffff-ffff-6fff-bfff-ffffffffffff",
        "13814000-1dd2-11b2-8000-000000000000",
    ];
    for text in texts {
        let ours = parse_uuid(text).unwrap().get_timestamp().unwrap();
        let (seconds, nanos) = uuid::Uuid::parse_str(text).unwrap().get_timestamp().unwrap().to_unix();
        assert_eq!((ours.seconds, ours.nanos), (seconds as i64, nanos), "{text}");
    }
}

#[test]
fn timestamp_is_absent_elsewhere() {
    assert_eq!(parse_uuid("09b2c736-21fa-491a-84b0-56f921c6a8dc").unwrap().get_timestamp(), None);
    for version in [0u8, 2, 3, 4, 5, 8, 15] {
        let mut bytes = [0x55u8; 16];
        bytes[6] = version << 4;
        bytes[8] = 0x80;
        assert_eq!(UuidValue::from_bytes(bytes).get_timestamp(), None);
    }
    for version in [1u8, 6, 7] {
        for variant_byte in [0x00u8, 0x40, 0xc0, 0xe0] {
            let mut bytes = [0x55u8; 16];
            bytes[6] = version << 4;
            bytes[8] = variant_byte;
            assert_eq!(UuidValue::from_bytes(bytes).get_timestamp(), None);
        }
    }
}

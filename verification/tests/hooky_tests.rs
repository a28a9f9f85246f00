use kc_osm::hooky::{HookResult, StandardNamedPointers, CURRENT_API_VERSION};

#[test]
fn from_i32_named_codes() {
    assert_eq!(HookResult::from_i32(0), HookResult::Success);
    assert_eq!(HookResult::from_i32(1), HookResult::VersionMismatch);
    assert_eq!(HookResult::from_i32(2), HookResult::MissingDependency);
    assert_eq!(HookResult::from_i32(3), HookResult::InitFailed);
    assert_eq!(HookResult::from_i32(4), HookResult::Unsupported);
    assert_eq!(HookResult::from_i32(10), HookResult::TargetBundleNotFound);
    assert_eq!(HookResult::from_i32(11), HookResult::NoMessageHandler);
}

#[test]
fn from_i32_other_codes_are_unknown() {
    assert_eq!(HookResult::from_i32(5), HookResult::Unknown(5));
    assert_eq!(HookResult::from_i32(100), HookResult::Unknown(100));
    assert_eq!(HookResult::from_i32(-1), HookResult::Unknown(-1));
}

#[test]
fn code_round_trip() {
    for v in [-1000, -1, 0, 1, 2, 3, 4, 5, 9, 10, 11, 12, 99, 100, i32::MIN, i32::MAX] {
        assert_eq!(HookResult::from_i32(v).as_i32(), v);
    }
}

#[test]
fn result_round_trip_only_when_canonical() {
    assert_eq!(HookResult::from_i32(HookResult::NoMessageHandler.as_i32()), HookResult::NoMessageHandler);
    assert_eq!(HookResult::from_i32(HookResult::Unknown(150).as_i32()), HookResult::Unknown(150));
    // An Unknown carrying a named code comes back as the named result.
    assert_eq!(HookResult::Unknown(3).as_i32(), 3);
    assert_eq!(HookResult::from_i32(HookResult::Unknown(3).as_i32()), HookResult::InitFailed);
}

#[test]
fn result_texts() {
    assert_eq!(HookResult::Success.to_string(), "ok");
    assert_eq!(HookResult::VersionMismatch.to_string(), "version mismatch");
    assert_eq!(HookResult::MissingDependency.to_string(), "missing dependency");
    assert_eq!(HookResult::InitFailed.to_string(), "init failed");
    assert_eq!(HookResult::Unsupported.to_string(), "unsupported");
    assert_eq!(HookResult::TargetBundleNotFound.to_string(), "target bundle not found");
    assert_eq!(HookResult::NoMessageHandler.to_string(), "no message handler");
    assert_eq!(HookResult::Unknown(142).to_string(), "unknown error (142)");
    assert_eq!(HookResult::Unknown(-7).to_string(), "unknown error (-7)");
    assert_eq!(HookResult::Unknown(i32::MIN).to_string(), "unknown error (-2147483648)");
}

#[test]
fn overlay_state_guid_bytes() {
    let expected: [u8; 16] = [
        0xE9, 0x95, 0xC0, 0x60, 0x80, 0xC0, 0x49, 0xF2, 0xA7, 0x02, 0x9D, 0x49, 0xCB, 0x01, 0xFF, 0x16,
    ];
    assert_eq!(StandardNamedPointers::OverlayState.guid(), expected);
}

#[test]
fn overlay_state_guid_matches_uuid_crate() {
    let parsed = uuid::Uuid::parse_str("e995c060-80c0-49f2-a702-9d49cb01ff16").unwrap();
    assert_eq!(&StandardNamedPointers::OverlayState.guid(), parsed.as_bytes());
}

#[test]
fn api_version_is_three() {
    assert_eq!(CURRENT_API_VERSION, 3);
}

use kc_osm::bundle::{
    bundle_loaded, com_query_interface_result, host_offers_field, send_outcome, send_precheck, sender_id, BundleEntry,
};
use kc_osm::hooky::HookResult;

#[test]
fn entry_from_fields() {
    let e = BundleEntry::from_c_fields(Some(b"com.example.pad"), 7, Some(b"Gamepad"));
    assert_eq!(e.id, "com.example.pad");
    assert_eq!(e.version, 7);
    assert_eq!(e.name, "Gamepad");
}

#[test]
fn entry_missing_fields_fall_back() {
    let e = BundleEntry::from_c_fields(None, 1, None);
    assert_eq!(e.id, "(unknown)");
    assert_eq!(e.name, "(unnamed)");
}

#[test]
fn entry_non_utf8_fields_fall_back() {
    let e = BundleEntry::from_c_fields(Some(&[0xC3, 0x28]), 2, Some(&[0xFF]));
    assert_eq!(e.id, "(unknown)");
    assert_eq!(e.name, "(unnamed)");
}

#[test]
fn sender_identity() {
    assert_eq!(sender_id(Some(b"com.a.b")), "com.a.b");
    assert_eq!(sender_id(None), "(unknown)");
    assert_eq!(sender_id(Some(&[0x80])), "(unknown)");
}

#[test]
fn send_precheck_cases() {
    assert_eq!(send_precheck(false, "com.x"), Err(HookResult::Unsupported));
    assert_eq!(send_precheck(false, "a\0b"), Err(HookResult::Unsupported));
    assert_eq!(send_precheck(true, "a\0b"), Err(HookResult::TargetBundleNotFound));
    assert_eq!(send_precheck(true, "com.x"), Ok(()));
}

#[test]
fn send_outcome_cases() {
    assert_eq!(send_outcome(0), Ok(()));
    assert_eq!(send_outcome(10), Err(HookResult::TargetBundleNotFound));
    assert_eq!(send_outcome(11), Err(HookResult::NoMessageHandler));
    assert_eq!(send_outcome(142), Err(HookResult::Unknown(142)));
}

#[test]
fn bundle_loaded_cases() {
    assert!(bundle_loaded(true, "com.x", 1));
    assert!(!bundle_loaded(true, "com.x", 0));
    assert!(!bundle_loaded(false, "com.x", 1));
    assert!(!bundle_loaded(true, "com\0x", 1));
}

#[test]
fn com_query_interface_cases() {
    assert_eq!(com_query_interface_result(1, 0x401000, 0x500000), Some((0x401000, 0x500000)));
    assert_eq!(com_query_interface_result(0, 0x401000, 0x500000), None);
}

#[test]
fn entries_from_records_keep_order() {
    let none: Vec<BundleEntry> = BundleEntry::from_records(&[]);
    assert!(none.is_empty());
    let records: [(Option<&[u8]>, u32, Option<&[u8]>); 3] = [
        (Some(b"a.first"), 1, Some(b"First")),
        (None, 2, Some(&[0xFF, 0xFE])),
        (Some(b"c.third"), 3, None),
    ];
    let es = BundleEntry::from_records(&records);
    assert_eq!(es.len(), 3);
    assert_eq!((es[0].id.as_str(), es[0].version, es[0].name.as_str()), ("a.first", 1, "First"));
    assert_eq!((es[1].id.as_str(), es[1].version, es[1].name.as_str()), ("(unknown)", 2, "(unnamed)"));
    assert_eq!((es[2].id.as_str(), es[2].version, es[2].name.as_str()), ("c.third", 3, "(unnamed)"));
}

#[test]
fn older_host_table_lacks_later_fields() {
    assert!(host_offers_field(80, 80));
    assert!(host_offers_field(84, 80));
    assert!(!host_offers_field(76, 80));
    assert!(!host_offers_field(0, 4));
}

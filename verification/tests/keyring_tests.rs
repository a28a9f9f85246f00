use kc_osm::keyring::{
    choose_tool, is_locked, is_player_frob, key_fits_by_properties, lock_bits_field, scan_ends_at, selection_needed,
    timer_selection, tool_kind, wanted_key_region, ToolKind,
};
use kc_osm::osm::ObjectId;

#[test]
fn key_fit_by_properties() {
    assert!(key_fits_by_properties(0b0110, 7, 0b0100, 7));
    assert!(!key_fits_by_properties(0b0011, 7, 0b0100, 7));
    assert!(!key_fits_by_properties(0b0110, 7, 0b0100, 8));
}

#[test]
fn player_frobs_only() {
    assert!(is_player_frob(ObjectId(12), true));
    assert!(!is_player_frob(ObjectId(12), false));
    assert!(!is_player_frob(ObjectId(0), true));
    assert!(!is_player_frob(ObjectId(-384), true));
}

#[test]
fn lock_state() {
    assert!(is_locked(true, Some(1)));
    assert!(!is_locked(true, Some(0)));
    assert!(!is_locked(true, None));
    assert!(!is_locked(false, Some(1)));
}

#[test]
fn key_region_wanted() {
    assert_eq!(wanted_key_region(true, Some(0b101)), 0b101);
    assert_eq!(wanted_key_region(true, None), 0);
    assert_eq!(wanted_key_region(false, Some(0b101)), 0);
}

#[test]
fn lock_bits_per_tumbler() {
    assert_eq!(lock_bits_field(0), Some("LockBits 1"));
    assert_eq!(lock_bits_field(1), Some("LockBits 2"));
    assert_eq!(lock_bits_field(2), Some("LockBits 3"));
    assert_eq!(lock_bits_field(3), None);
    assert_eq!(lock_bits_field(-1), None);
}

#[test]
fn tool_kinds() {
    assert_eq!(tool_kind(1, 0, true, true, false, 0), Some(ToolKind::Key));
    assert_eq!(tool_kind(1, 0, true, false, false, 0), None);
    assert_eq!(tool_kind(0, 0, true, true, false, 0), None);
    assert_eq!(tool_kind(0, 0b10, false, false, true, 0b11), Some(ToolKind::Pick));
    assert_eq!(tool_kind(0, 0b10, false, false, true, 0b01), None);
    assert_eq!(tool_kind(0, 0b10, false, false, false, 0b11), None);
    // A key that fits wins over a pick that would also work.
    assert_eq!(tool_kind(1, 0b10, true, true, true, 0b10), Some(ToolKind::Key));
}

#[test]
fn keys_are_preferred_first_key_wins() {
    let c = vec![
        (ObjectId(1), Some(ToolKind::Pick)),
        (ObjectId(2), None),
        (ObjectId(3), Some(ToolKind::Key)),
        (ObjectId(4), Some(ToolKind::Pick)),
        (ObjectId(5), Some(ToolKind::Key)),
    ];
    assert_eq!(choose_tool(&c), Some((ObjectId(3), ToolKind::Key)));
}

#[test]
fn last_pick_without_keys() {
    let c = vec![(ObjectId(1), Some(ToolKind::Pick)), (ObjectId(2), Some(ToolKind::Pick)), (ObjectId(3), None)];
    assert_eq!(choose_tool(&c), Some((ObjectId(2), ToolKind::Pick)));
}

#[test]
fn nothing_fits() {
    assert_eq!(choose_tool(&vec![(ObjectId(1), None)]), None);
    assert_eq!(choose_tool(&vec![]), None);
}

#[test]
fn selection_only_when_different() {
    assert!(selection_needed(ObjectId(5), None));
    assert!(selection_needed(ObjectId(5), Some(ObjectId(6))));
    assert!(!selection_needed(ObjectId(5), Some(ObjectId(5))));
    assert!(!selection_needed(ObjectId(0), None));
}

#[test]
fn timer_selects_carried_tool() {
    assert_eq!(timer_selection("KeyringSelect", 40, None), Some(ObjectId(40)));
    assert_eq!(timer_selection("KeyringSelect", 40, Some(ObjectId(40))), None);
    assert_eq!(timer_selection("KeyringSelect", 0, None), None);
    assert_eq!(timer_selection("OtherTimer", 40, None), None);
}

#[test]
fn scan_stops_at_first_key_with_same_choice() {
    assert!(scan_ends_at(Some(ToolKind::Key)));
    assert!(!scan_ends_at(Some(ToolKind::Pick)));
    assert!(!scan_ends_at(None));
    let all = vec![
        (ObjectId(10), Some(ToolKind::Pick)),
        (ObjectId(11), Some(ToolKind::Key)),
        (ObjectId(12), Some(ToolKind::Key)),
        (ObjectId(13), Some(ToolKind::Pick)),
    ];
    let mut scanned = Vec::new();
    for &(o, k) in &all {
        scanned.push((o, k));
        if scan_ends_at(k) {
            break;
        }
    }
    assert_eq!(scanned.len(), 2);
    assert_eq!(choose_tool(&scanned), choose_tool(&all));
    assert_eq!(choose_tool(&scanned), Some((ObjectId(11), ToolKind::Key)));
}

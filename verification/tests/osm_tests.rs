use kc_osm::osm::{
    message_text, sLink, sMultiParm, BodyAction, DoorAction, DoorState, LinkEntry, LinkId, LinkKind, MultiParm,
    MultiParmType, ObjectId,
};

#[test]
fn object_id_classes() {
    assert!(ObjectId(-30).is_archetype());
    assert!(!ObjectId(-30).is_concrete());
    assert!(ObjectId(42).is_concrete());
    assert!(!ObjectId(42).is_archetype());
    assert!(!ObjectId(0).is_archetype());
    assert!(!ObjectId(0).is_concrete());
}

#[test]
fn ids_render_in_decimal() {
    assert_eq!(ObjectId(-30).to_string(), "-30");
    assert_eq!(ObjectId(0).to_string(), "0");
    assert_eq!(LinkId(12345).to_string(), "12345");
    assert_eq!(LinkKind(i32::MAX).to_string(), "2147483647");
}

#[test]
fn multi_parm_type_codes() {
    assert_eq!(MultiParmType::from_raw(0), Some(MultiParmType::Int));
    assert_eq!(MultiParmType::from_raw(2), Some(MultiParmType::String));
    assert_eq!(MultiParmType::from_raw(5), Some(MultiParmType::Object));
    assert_eq!(MultiParmType::from_raw(1), Some(MultiParmType::Int));
    assert_eq!(MultiParmType::from_raw(-1), None);
    assert_eq!(MultiParmType::Int.code(), 0);
    assert_eq!(MultiParmType::from_raw(3), None);
    assert_eq!(MultiParmType::String.code(), 2);
    assert_eq!(MultiParmType::Object.code(), 5);
}

#[test]
fn reads_string_only_for_plausible_addresses() {
    assert!(MultiParm::reads_string(&sMultiParm { val: 0x20000, t: 2 }));
    assert!(MultiParm::reads_string(&sMultiParm { val: 0x10000, t: 2 }));
    assert!(!MultiParm::reads_string(&sMultiParm { val: 0xFFFF, t: 2 }));
    assert!(!MultiParm::reads_string(&sMultiParm { val: 0, t: 2 }));
    assert!(!MultiParm::reads_string(&sMultiParm { val: -1082130432, t: 2 }));
    assert!(!MultiParm::reads_string(&sMultiParm { val: 0x20000, t: 0 }));
}

fn bytes_of(p: &MultiParm) -> Option<Vec<u8>> {
    match p {
        MultiParm::String(b) => Some(b.clone()),
        _ => None,
    }
}

#[test]
fn from_raw_integers() {
    assert!(matches!(MultiParm::from_raw(&sMultiParm { val: 17, t: 0 }, None), MultiParm::Int(17)));
    assert!(matches!(MultiParm::from_raw(&sMultiParm { val: -4, t: 1 }, None), MultiParm::Int(-4)));
    assert!(matches!(MultiParm::from_raw(&sMultiParm { val: 300, t: 5 }, None), MultiParm::Object(ObjectId(300))));
}

#[test]
fn from_raw_strings() {
    let empty = MultiParm::from_raw(&sMultiParm { val: 0, t: 2 }, None);
    assert_eq!(bytes_of(&empty), Some(vec![]));
    let s = MultiParm::from_raw(&sMultiParm { val: 0x30000, t: 2 }, Some(b"name_compass".to_vec()));
    assert_eq!(bytes_of(&s), Some(b"name_compass".to_vec()));
    assert_eq!(s.as_str(), Some("name_compass"));
}

#[test]
fn from_raw_float_bits_are_undefined() {
    let f = MultiParm::from_raw(&sMultiParm { val: -1082130432, t: 2 }, None);
    assert!(matches!(f, MultiParm::Undefined { t: 2, val: -1082130432 }));
    let small = MultiParm::from_raw(&sMultiParm { val: 0x100, t: 2 }, None);
    assert!(matches!(small, MultiParm::Undefined { t: 2, val: 0x100 }));
}

#[test]
fn from_raw_unknown_tag() {
    assert!(matches!(MultiParm::from_raw(&sMultiParm { val: 9, t: 7 }, None), MultiParm::Undefined { t: 7, val: 9 }));
}

#[test]
fn into_raw_cases() {
    let r = MultiParm::Int(5).into_raw(0);
    assert_eq!((r.val, r.t), (5, 0));
    let r = MultiParm::Object(ObjectId(-30)).into_raw(0);
    assert_eq!((r.val, r.t), (-30, 5));
    let r = MultiParm::String(b"x".to_vec()).into_raw(0x40000);
    assert_eq!((r.val, r.t), (0x40000, 2));
    let r = MultiParm::Undefined { t: 9, val: 3 }.into_raw(0);
    assert_eq!((r.val, r.t), (3, 9));
}

#[test]
fn as_int_cases() {
    assert_eq!(MultiParm::Int(3).as_int(), Some(3));
    assert_eq!(MultiParm::Object(ObjectId(8)).as_int(), Some(8));
    assert_eq!(MultiParm::String(vec![]).as_int(), None);
    assert_eq!(MultiParm::Undefined { t: 3, val: 1 }.as_int(), None);
}

#[test]
fn as_str_rejects_non_utf8() {
    assert_eq!(MultiParm::String(vec![0xFF, 0xFE]).as_str(), None);
    assert_eq!(MultiParm::Int(1).as_str(), None);
}

#[test]
fn conversions_into_multi_parm() {
    assert!(matches!(MultiParm::from(12), MultiParm::Int(12)));
    assert!(matches!(MultiParm::from(ObjectId(4)), MultiParm::Object(ObjectId(4))));
    assert_eq!(bytes_of(&MultiParm::from_text("abc")), Some(b"abc".to_vec()));
    assert_eq!(bytes_of(&MultiParm::from_text("a\0c")), Some(vec![]));
}

#[test]
fn sampled_int_parm() {
    let p = sMultiParm::from_int(77);
    assert_eq!((p.val, p.t), (77, 0));
}

#[test]
fn door_action_codes() {
    assert_eq!(DoorAction::try_from(0), Ok(DoorAction::Open));
    assert_eq!(DoorAction::try_from(3), Ok(DoorAction::Closing));
    assert_eq!(DoorAction::try_from(4), Ok(DoorAction::Halt));
    assert_eq!(DoorAction::try_from(5), Err(5));
    assert_eq!(DoorAction::try_from(-1), Err(-1));
    for a in [DoorAction::Open, DoorAction::Close, DoorAction::Opening, DoorAction::Closing, DoorAction::Halt] {
        assert_eq!(DoorAction::try_from(a.code()), Ok(a));
    }
}

#[test]
fn door_state_codes() {
    assert_eq!(DoorState::try_from(1), Ok(DoorState::Open));
    assert_eq!(DoorState::try_from(4), Ok(DoorState::Halted));
    // The engine answers 5 for an object that is not a door.
    assert_eq!(DoorState::try_from(5), Err(5));
}

#[test]
fn body_action_codes() {
    assert_eq!(BodyAction::try_from(2), Ok(BodyAction::MotionFlagReached));
    assert_eq!(BodyAction::try_from(3), Err(3));
    assert_eq!(BodyAction::MotionEnd.code(), 1);
}

#[test]
fn link_entry_from_link() {
    let link = sLink { source: ObjectId(10), dest: ObjectId(20), flavor: LinkKind(3) };
    let e = LinkEntry::from_link(LinkId(99), link);
    assert_eq!(e.id, LinkId(99));
    assert_eq!(e.source, ObjectId(10));
    assert_eq!(e.dest, ObjectId(20));
    assert_eq!(e.flavor, LinkKind(3));
}

#[test]
fn message_text_cases() {
    assert_eq!(message_text(None), "");
    assert_eq!(message_text(Some(b"KeyringSelect")), "KeyringSelect");
    assert_eq!(message_text(Some(&[0xE2, 0x82])), "");
}

fn raw_pair(p: sMultiParm) -> (i32, i32) {
    (p.val, p.t)
}

#[test]
fn raw_values_round_trip() {
    for (val, t) in [(5, 0), (5, 1), (0, 2), (0x30000, 2), (-1082130432, 2), (77, 5), (3, 9)] {
        let parm = sMultiParm { val, t };
        let pointee = if MultiParm::reads_string(&parm) { Some(b"text".to_vec()) } else { None };
        let back = MultiParm::from_raw(&parm, pointee).into_raw(val);
        assert_eq!(raw_pair(back), (val, if t == 1 { 0 } else { t }));
    }
}

#[test]
fn typed_values_round_trip() {
    let back = MultiParm::from_raw(&MultiParm::Int(-9).into_raw(0), None);
    assert!(matches!(back, MultiParm::Int(-9)));
    let back = MultiParm::from_raw(&MultiParm::Object(ObjectId(31)).into_raw(0), None);
    assert!(matches!(back, MultiParm::Object(ObjectId(31))));
    let raw = MultiParm::String(b"abc".to_vec()).into_raw(0x50000);
    let back = MultiParm::from_raw(&raw, Some(b"abc".to_vec()));
    assert_eq!(bytes_of(&back), Some(b"abc".to_vec()));
    let back = MultiParm::from_raw(&MultiParm::Undefined { t: 9, val: 4 }.into_raw(0), None);
    assert!(matches!(back, MultiParm::Undefined { t: 9, val: 4 }));
    // An Undefined value whose tag the engine reads as an integer does not come back as Undefined.
    let back = MultiParm::from_raw(&MultiParm::Undefined { t: 1, val: 4 }.into_raw(0), None);
    assert!(matches!(back, MultiParm::Int(4)));
}

use kc_osm::osm::{sLink, sMultiParm, LinkId, LinkKind, MultiParm, ObjectId};
use kc_osm::services::{
    class_iter_first, class_iter_next, contain_type_from_raw, engine_name, engine_text, fan_mission_result,
    fan_mission_text, found_text, name_if_nonempty,
    hresult_succeeded, leaves_engine_string, link_from_raw, link_if_found, link_kind_from_raw, object_from_raw,
    object_or_zero, property_int, property_inv_type, property_text, reaction_from_raw, visible_point, visible_rect,
    Alpha, ContainType, Detection, GameProbe, GameVersion, InventoryType, KeyUseMode, RawMethod, Rgb, ScreenPoint,
    ScreenRect, ScreenSize, WeaponType, WhichInvObj, S_FALSE,
};

fn detect(has_garrett: bool, has_mech: bool, has_player: bool) -> (Option<GameVersion>, Vec<&'static str>) {
    let mut asked = Vec::new();
    let mut probe = GameProbe::first();
    loop {
        asked.push(probe.name());
        let found = match probe {
            GameProbe::Garrett => has_garrett,
            GameProbe::MechCherub => has_mech,
            GameProbe::ThePlayer => has_player,
        };
        match probe.after(found) {
            Detection::Ask(next) => probe = next,
            Detection::Detected(v) => return (Some(v), asked),
            Detection::Unknown => return (None, asked),
        }
    }
}

#[test]
fn detects_thief1() {
    assert_eq!(detect(true, false, false), (Some(GameVersion::T1), vec!["Garrett", "MechCherub"]));
}

#[test]
fn detects_thief2() {
    assert_eq!(detect(true, true, false).0, Some(GameVersion::T2));
}

#[test]
fn detects_shock2() {
    assert_eq!(detect(false, true, true), (Some(GameVersion::SS2), vec!["Garrett", "The Player"]));
}

#[test]
fn unknown_gamesys() {
    assert_eq!(detect(false, false, false).0, None);
}

#[test]
fn slots_per_game() {
    assert_eq!(RawMethod::Stimulate.slot(GameVersion::T1), Some(14));
    assert_eq!(RawMethod::Stimulate.slot(GameVersion::T2), Some(6));
    assert_eq!(RawMethod::Archetype.slot(GameVersion::T1), Some(28));
    assert_eq!(RawMethod::Archetype.slot(GameVersion::T2), Some(30));
    assert_eq!(RawMethod::SetLocal.slot(GameVersion::T1), Some(12));
    assert_eq!(RawMethod::SetLocal.slot(GameVersion::T2), Some(8));
    assert_eq!(RawMethod::PossessedSimple.slot(GameVersion::T2), Some(13));
    assert_eq!(RawMethod::InvClear.slot(GameVersion::T2), Some(8));
    assert_eq!(RawMethod::Possessed.slot(GameVersion::SS2), None);
}

#[test]
fn property_slots_shift_by_one_on_thief2() {
    for m in [RawMethod::PropertyAdd, RawMethod::PropertyRemove, RawMethod::CopyFrom, RawMethod::Possessed] {
        assert_eq!(m.slot(GameVersion::T2).unwrap(), m.slot(GameVersion::T1).unwrap() + 1);
    }
}

#[test]
fn zero_means_none() {
    assert_eq!(object_from_raw(0), None);
    assert_eq!(object_from_raw(-2099), Some(ObjectId(-2099)));
    assert_eq!(link_from_raw(0), None);
    assert_eq!(link_from_raw(5), Some(LinkId(5)));
    assert_eq!(link_kind_from_raw(0), None);
    assert_eq!(link_kind_from_raw(-3), Some(LinkKind(-3)));
    assert_eq!(reaction_from_raw(0), None);
    assert_eq!(reaction_from_raw(8), Some(8));
}

#[test]
fn optional_object_arguments() {
    assert_eq!(object_or_zero(None), 0);
    assert_eq!(object_or_zero(Some(ObjectId(-7))), -7);
}

#[test]
fn hresult_rule() {
    assert!(hresult_succeeded(0));
    assert!(hresult_succeeded(S_FALSE));
    assert!(!hresult_succeeded(-2147467259));
}

#[test]
fn engine_text_is_lossy() {
    assert_eq!(engine_text(b"Thief 2"), "Thief 2");
    assert_eq!(engine_text(&[b'a', 0xFF, b'b']), "a\u{FFFD}b");
}

#[test]
fn engine_names() {
    assert_eq!(engine_name(None), None);
    assert_eq!(engine_name(Some(b"")), None);
    assert_eq!(engine_name(Some(b"Compass")), Some("Compass".to_string()));
    assert_eq!(engine_name(Some(&[0xFF])), Some("\u{FFFD}".to_string()));
}

#[test]
fn found_text_cases() {
    assert_eq!(found_text(true, b"c:\\games"), Some("c:\\games".to_string()));
    assert_eq!(found_text(false, b"c:\\games"), None);
}

#[test]
fn fan_mission_cases() {
    assert_eq!(fan_mission_text(0, b"mymission"), Some("mymission".to_string()));
    assert_eq!(fan_mission_text(S_FALSE, b""), None);
    assert_eq!(fan_mission_text(-2147467259, b"x"), None);
}

#[test]
fn link_get_status() {
    let l = sLink { source: ObjectId(1), dest: ObjectId(2), flavor: LinkKind(3) };
    assert!(link_if_found(0, l).is_some());
    assert!(link_if_found(-1, l).is_none());
}

#[test]
fn engine_string_buffers() {
    assert!(leaves_engine_string(&sMultiParm { val: 0x20000, t: 2 }));
    assert!(!leaves_engine_string(&sMultiParm { val: 0x5000, t: 2 }));
    assert!(!leaves_engine_string(&sMultiParm { val: 0, t: 2 }));
    assert!(!leaves_engine_string(&sMultiParm { val: 0x20000, t: 0 }));
}

#[test]
fn float_tagged_value_frees_nothing() {
    // -1.0 as f32 bits, tagged 2 like a string.
    let parm = sMultiParm { val: (-1.0f32).to_bits() as i32, t: 2 };
    assert_eq!(parm.val, -1082130432);
    assert!(!leaves_engine_string(&parm));
    assert!(matches!(MultiParm::from_raw(&parm, None), MultiParm::Undefined { t: 2, val: -1082130432 }));
}

#[test]
fn property_values() {
    assert_eq!(property_int(Some(MultiParm::Int(4))), Some(4));
    assert_eq!(property_int(Some(MultiParm::Object(ObjectId(4)))), None);
    assert_eq!(property_int(None), None);
    assert_eq!(property_text(Some(MultiParm::String(b"Gold".to_vec()))), Some("Gold".to_string()));
    assert_eq!(property_text(Some(MultiParm::String(vec![0xC0]))), None);
    assert_eq!(property_text(Some(MultiParm::Int(1))), None);
    assert_eq!(property_inv_type(Some(MultiParm::Int(2))), Some(InventoryType::Weapon));
    assert_eq!(property_inv_type(Some(MultiParm::Int(0))), Some(InventoryType::Junk));
    assert_eq!(property_inv_type(Some(MultiParm::Int(5))), None);
    assert_eq!(property_inv_type(None), None);
}

#[test]
fn enum_codes() {
    assert_eq!(KeyUseMode::Check.code(), 3);
    assert_eq!(WhichInvObj::CurrentItem.code(), 1);
    assert_eq!(WeaponType::try_from(1), Ok(WeaponType::Blackjack));
    assert_eq!(WeaponType::try_from(2), Err(2));
    assert_eq!(InventoryType::try_from(1), Ok(InventoryType::Item));
    assert_eq!(ContainType::try_from(3), Ok(ContainType::Alt));
}

#[test]
fn containment_from_engine() {
    assert_eq!(contain_type_from_raw(-1), None);
    assert_eq!(contain_type_from_raw(2), Some(ContainType::Belt));
    assert_eq!(contain_type_from_raw(0), Some(ContainType::Generic));
}

#[test]
fn overlay_values() {
    assert_eq!(Alpha::transparent(), Alpha(0));
    assert_eq!(Alpha::opaque(), Alpha(255));
    assert!(Alpha::transparent() < Alpha::opaque());
    assert_eq!(Rgb::white(), Rgb { r: 255, g: 255, b: 255 });
    assert_eq!(Rgb::black(), Rgb { r: 0, g: 0, b: 0 });
}

#[test]
fn rect_dimensions() {
    let r = ScreenRect { x1: 10, y1: 20, x2: 110, y2: 70 };
    assert_eq!(r.width(), 100);
    assert_eq!(r.height(), 50);
    assert_eq!(r.size(), ScreenSize { width: 100, height: 50 });
    let flipped = ScreenRect { x1: 5, y1: 5, x2: 1, y2: 2 };
    assert_eq!(flipped.size(), ScreenSize { width: -4, height: -3 });
}

#[test]
fn visibility_results() {
    assert_eq!(visible_point(true, 3, 4), Some(ScreenPoint { x: 3, y: 4 }));
    assert_eq!(visible_point(false, 3, 4), None);
    assert_eq!(visible_rect(true, 1, 2, 3, 4), Some(ScreenRect { x1: 1, y1: 2, x2: 3, y2: 4 }));
    assert_eq!(visible_rect(false, 1, 2, 3, 4), None);
}

#[test]
fn class_cursor_walks_all_classes() {
    let mut iter = 77u32;
    assert_eq!(class_iter_first(&mut iter, 3), Some(0));
    assert_eq!(iter, 0);
    assert_eq!(class_iter_next(&mut iter, 3), Some(1));
    assert_eq!(class_iter_next(&mut iter, 3), Some(2));
    assert_eq!(class_iter_next(&mut iter, 3), None);
    assert_eq!(iter, 3);
}

#[test]
fn class_cursor_on_empty_module() {
    let mut iter = 5u32;
    assert_eq!(class_iter_first(&mut iter, 0), None);
    assert_eq!(iter, 0);
}

#[test]
fn empty_names_are_absent() {
    assert_eq!(name_if_nonempty(String::new()), None);
    assert_eq!(name_if_nonempty("Garrett".to_string()), Some("Garrett".to_string()));
}

#[test]
fn fan_mission_status() {
    assert_eq!(fan_mission_result(0, "fm".to_string()), Some("fm".to_string()));
    assert_eq!(fan_mission_result(2, "fm".to_string()), Some("fm".to_string()));
    assert_eq!(fan_mission_result(S_FALSE, "fm".to_string()), None);
    assert_eq!(fan_mission_result(-1, "fm".to_string()), None);
}

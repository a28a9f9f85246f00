use kc_osm::guid::{lg_guid, lg_id_from_guid, Guid, ScriptService};

const LG_SUFFIX: [u8; 8] = [0x83, 0x48, 0x00, 0xAA, 0x00, 0xA8, 0x2B, 0x51];

#[test]
fn lg_guid_of_container_id() {
    let g = lg_guid(0x17D);
    assert_eq!(g, Guid { data1: 0x7D00017D, data2: 0x7BFD, data3: 0x134C, data4: LG_SUFFIX });
}

#[test]
fn lg_guid_of_zero() {
    let g = lg_guid(0);
    assert_eq!(g, Guid { data1: 0, data2: 0x7A80, data3: 0x11CF, data4: LG_SUFFIX });
}

#[test]
fn lg_guid_wraps_sixteen_bit_fields() {
    // 0x7A80 + 0x9000 = 0x10A80, kept modulo 2^16.
    let g = lg_guid(0x9000);
    assert_eq!(g.data2, 0x0A80);
    assert_eq!(g.data3, 0xA1CF);
}

#[test]
fn lg_id_round_trip_for_services() {
    for s in ScriptService::ALL {
        assert_eq!(lg_id_from_guid(&s.guid()), Some(s.id()));
    }
}

#[test]
fn lg_id_round_trip_reduces_to_sixteen_bits() {
    assert_eq!(lg_id_from_guid(&lg_guid(0x1_0005)), Some(5));
}

#[test]
fn lg_id_rejects_foreign_suffix() {
    let mut g = lg_guid(0x17D);
    g.data4[7] = 0x52;
    assert_eq!(lg_id_from_guid(&g), None);
}

#[test]
fn lg_id_rejects_inconsistent_fields() {
    let mut g = lg_guid(0x17D);
    g.data3 = g.data3.wrapping_add(1);
    assert_eq!(lg_id_from_guid(&g), None);
}

#[test]
fn lg_id_ignores_data1() {
    let mut g = lg_guid(0x17D);
    g.data1 = 0xDEADBEEF;
    assert_eq!(lg_id_from_guid(&g), Some(0x17D));
}

#[test]
fn container_guid_string() {
    assert_eq!(ScriptService::Container.guid_string(), "7D00017D-7BFD-134C-8348-00AA00A82B51");
}

#[test]
fn zero_guid_text() {
    let g = Guid { data1: 0, data2: 0, data3: 0, data4: [0; 8] };
    assert_eq!(g.to_string(), "00000000-0000-0000-0000-000000000000");
}

#[test]
fn guid_text_pads_and_groups() {
    let g = Guid { data1: 0xA, data2: 0xBC, data3: 0xF00D, data4: [1, 2, 3, 4, 5, 6, 0xFE, 0xFF] };
    assert_eq!(g.to_string(), "0000000A-00BC-F00D-0102-03040506FEFF");
}

#[test]
fn service_ids() {
    assert_eq!(ScriptService::Container.id(), 0x17D);
    assert_eq!(ScriptService::Debug.id(), 0x0D7);
    assert_eq!(ScriptService::DarkOverlay.id(), 0x22B);
    assert_eq!(ScriptService::Null.id(), 0x0F2);
}

#[test]
fn all_lists_every_service_once() {
    assert_eq!(ScriptService::ALL.len(), 42);
    for (i, a) in ScriptService::ALL.iter().enumerate() {
        for b in &ScriptService::ALL[i + 1..] {
            assert_ne!(a, b);
            assert_ne!(a.id(), b.id());
        }
    }
}

#[test]
fn all_follows_the_service_table() {
    assert_eq!(ScriptService::ALL[0], ScriptService::Null);
    assert_eq!(ScriptService::ALL[1], ScriptService::Sound);
    assert_eq!(ScriptService::ALL[2], ScriptService::ActReact);
    assert_eq!(ScriptService::ALL[33], ScriptService::ShockGame);
    assert_eq!(ScriptService::ALL[41], ScriptService::DarkOverlay);
}

#[test]
fn from_name_finds_each_service() {
    for s in ScriptService::ALL {
        assert_eq!(ScriptService::from_name(s.name()), Some(s));
    }
}

#[test]
fn from_name_is_exact() {
    assert_eq!(ScriptService::from_name("Container"), Some(ScriptService::Container));
    assert_eq!(ScriptService::from_name("container"), None);
    assert_eq!(ScriptService::from_name("Containers"), None);
    assert_eq!(ScriptService::from_name(""), None);
}

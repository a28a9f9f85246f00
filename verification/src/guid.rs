//! Dark Engine COM GUIDs: the LG GUID scheme that maps a short service ID
//! to a 16-byte interface identifier, and the table of script services.
use vstd::prelude::*;
use crate::text::{
    ascii_chars, ascii_string, hex_bytes, hex_text_value, lemma_hex_bytes_ascii, lemma_hex_bytes_value, pow16, push_hex,
    str_eq,
};

verus! {

/// A COM interface identifier in its four-field binary layout.
#[derive(Clone, Copy, Debug, PartialEq, Eq, Hash)]
pub struct Guid {
    pub data1: u32,
    pub data2: u16,
    pub data3: u16,
    pub data4: [u8; 8],
}

/// The eight trailing bytes that every LG interface identifier ends with.
pub open spec fn lg_data4() -> Seq<u8> {
    seq![0x83u8, 0x48u8, 0x00u8, 0xAAu8, 0x00u8, 0xA8u8, 0x2Bu8, 0x51u8]
}

/// `data1` of the LG GUID for `id`: the low byte moved to the top byte,
/// the second byte or-ed into the third, over the low 16 bits.
pub open spec fn lg_data1(id: u32) -> u32 {
    ((id & 0xFF) << 24u32) | ((id & 0xFF00) << 16u32) | (id & 0xFFFF)
}

/// `data1` of an LG GUID for a 16-bit ID: the low 16 bits are the ID, the
/// next 8 bits are zero, and the top byte is the ID's low byte or-ed with
/// its high byte.
pub proof fn lemma_lg_data1_layout(id: u32)
    requires
        id < 0x10000,
    ensures
        lg_data1(id) & 0xFFFF == id,
        (lg_data1(id) >> 16u32) & 0xFF == 0,
        lg_data1(id) >> 24u32 == ((id & 0xFF) | (id >> 8u32)),
{
    assert(((((id & 0xFF) << 24u32) | ((id & 0xFF00) << 16u32) | (id & 0xFFFF)) & 0xFFFF == id) && (((((id
        & 0xFF) << 24u32) | ((id & 0xFF00) << 16u32) | (id & 0xFFFF)) >> 16u32) & 0xFF == 0) && ((((id
        & 0xFF) << 24u32) | ((id & 0xFF00) << 16u32) | (id & 0xFFFF)) >> 24u32 == ((id & 0xFF) | (id
        >> 8u32)))) by (bit_vector)
        requires
            id < 0x10000,
    ;
}

/// True when `g` is the LG GUID built from `id`:
/// `{lg_data1(id), 0x7A80+id, 0x11CF+id, {0x83,0x48,0x00,0xAA,0x00,0xA8,0x2B,0x51}}`,
/// the two 16-bit fields taken modulo 2^16.
pub open spec fn is_lg_guid_of(g: Guid, id: u32) -> bool {
    &&& g.data1 == lg_data1(id)
    &&& g.data2 as int == (0x7A80 + id) % 0x10000
    &&& g.data3 as int == (0x11CF + id) % 0x10000
    &&& g.data4@ == lg_data4()
}

/// The LG GUID of a 16-bit ID, as the SDK's `DEFINE_LG_GUID` lays it out:
/// `data2` is 0x7A80 plus the ID and `data3` is 0x11CF plus the ID (each
/// kept to 16 bits), and `data4` is 83 48 00 AA 00 A8 2B 51. IDs that
/// differ give GUIDs that differ.
pub proof fn lemma_lg_guid_constants(g: Guid, id: u32, h: Guid, other: u32)
    requires
        is_lg_guid_of(g, id),
        is_lg_guid_of(h, other),
        id < 0x10000,
        other < 0x10000,
    ensures
        id < 0x8580 ==> g.data2 == 0x7A80 + id,
        id >= 0x8580 ==> g.data2 == id - 0x8580,
        id < 0xEE31 ==> g.data3 == 0x11CF + id,
        g.data4@ == seq![0x83u8, 0x48u8, 0x00u8, 0xAAu8, 0x00u8, 0xA8u8, 0x2Bu8, 0x51u8],
        id != other ==> g.data2 != h.data2,
{
}

/// The ID that `lg_id_from_guid` reads out of a GUID: defined when `data4`
/// is the LG suffix and `data2`, `data3` encode the same ID.
pub open spec fn lg_id_spec(g: Guid) -> Option<u16> {
    let from_d2 = (g.data2 - 0x7A80) % 0x10000;
    let from_d3 = (g.data3 - 0x11CF) % 0x10000;
    if g.data4@ == lg_data4() && from_d2 == from_d3 {
        Some(from_d2 as u16)
    } else {
        None
    }
}

/// The interface identifier that the LGS SDK assigns to short ID `id`
/// (its `DEFINE_LG_GUID` scheme, see [`is_lg_guid_of`]). The two 16-bit
/// fields are sums that must not overflow 32 bits.
pub fn lg_guid(id: u32) -> (g: Guid)
    requires
        id <= u32::MAX - 0x7A80,
    ensures
        is_lg_guid_of(g, id),
{
    let a: u32 = 0x7A80 + id;
    let b: u32 = 0x11CF + id;
    let d2: u16 = a as u16;
    let d3: u16 = b as u16;
    assert(d2 as int == a % 0x10000) by (bit_vector)
        requires
            d2 == a as u16,
    ;
    assert(d3 as int == b % 0x10000) by (bit_vector)
        requires
            d3 == b as u16,
    ;
    let g = Guid {
        data1: ((id & 0xFF) << 24u32) | ((id & 0xFF00) << 16u32) | (id & 0xFFFF),
        data2: d2,
        data3: d3,
        data4: [0x83, 0x48, 0x00, 0xAA, 0x00, 0xA8, 0x2B, 0x51],
    };
    assert(g.data4@ =~= lg_data4());
    g
}

/// Recovers the short ID from an interface identifier built by the LG
/// scheme. The trailing bytes must be the LG suffix, and the second and
/// third fields must carry the same ID once their offsets are removed.
pub fn lg_id_from_guid(guid: &Guid) -> (r: Option<u16>)
    ensures
        r == lg_id_spec(*guid),
{
    let suffix: [u8; 8] = [0x83, 0x48, 0x00, 0xAA, 0x00, 0xA8, 0x2B, 0x51];
    let mut k: usize = 0;
    while k < 8
        invariant
            k <= 8,
            suffix@ == lg_data4(),
            forall|j: int| 0 <= j < k ==> guid.data4@[j] == lg_data4()[j],
        decreases 8 - k,
    {
        if guid.data4[k] != suffix[k] {
            return None;
        }
        k = k + 1;
    }
    assert(guid.data4@ =~= lg_data4());
    let from_second = guid.data2.wrapping_sub(0x7A80);
    let from_third = guid.data3.wrapping_sub(0x11CF);
    if from_second == from_third {
        Some(from_second)
    } else {
        None
    }
}

/// Reading the ID back out of an LG GUID gives the ID it was built from,
/// reduced to 16 bits.
pub proof fn lemma_lg_guid_round_trip(id: u32, g: Guid)
    requires
        is_lg_guid_of(g, id),
    ensures
        lg_id_spec(g) == Some((id % 0x10000) as u16),
{
}

/// A GUID that `lg_id_from_guid` accepts as carrying `id` agrees with the
/// LG GUID of `id` in `data2`, `data3` and `data4`; `data1` is not checked.
pub proof fn lemma_lg_id_recognises(g: Guid, id: u16, built: Guid)
    requires
        lg_id_spec(g) == Some(id),
        is_lg_guid_of(built, id as u32),
    ensures
        g.data2 == built.data2,
        g.data3 == built.data3,
        g.data4@ == built.data4@,
{
}

/// The text of a GUID as `{:08X}-{:04X}-{:04X}-{:02X}{:02X}-{:02X}...` prints it.
pub open spec fn guid_text_bytes(g: Guid) -> Seq<u8> {
    hex_bytes(g.data1 as nat, 8) + seq![45u8] + hex_bytes(g.data2 as nat, 4) + seq![45u8]
        + hex_bytes(g.data3 as nat, 4) + seq![45u8] + hex_bytes(g.data4@[0] as nat, 2)
        + hex_bytes(g.data4@[1] as nat, 2) + seq![45u8] + hex_bytes(g.data4@[2] as nat, 2)
        + hex_bytes(g.data4@[3] as nat, 2) + hex_bytes(g.data4@[4] as nat, 2) + hex_bytes(
        g.data4@[5] as nat,
        2,
    ) + hex_bytes(g.data4@[6] as nat, 2) + hex_bytes(g.data4@[7] as nat, 2)
}

/// The text of a GUID is 36 upper-case hexadecimal digits and hyphens in
/// the 8-4-4-4-12 grouping, and its groups read back as the GUID's fields:
/// `data1`, `data2`, `data3`, then the eight bytes of `data4`.
pub proof fn lemma_guid_text_fields(g: Guid)
    ensures
        guid_text_bytes(g).len() == 36,
        guid_text_bytes(g)[8] == 45 && guid_text_bytes(g)[13] == 45 && guid_text_bytes(g)[18] == 45
            && guid_text_bytes(g)[23] == 45,
        hex_text_value(guid_text_bytes(g).subrange(0, 8)) == g.data1,
        hex_text_value(guid_text_bytes(g).subrange(9, 13)) == g.data2,
        hex_text_value(guid_text_bytes(g).subrange(14, 18)) == g.data3,
        hex_text_value(guid_text_bytes(g).subrange(19, 21)) == g.data4@[0],
        hex_text_value(guid_text_bytes(g).subrange(21, 23)) == g.data4@[1],
        hex_text_value(guid_text_bytes(g).subrange(24, 26)) == g.data4@[2],
        hex_text_value(guid_text_bytes(g).subrange(26, 28)) == g.data4@[3],
        hex_text_value(guid_text_bytes(g).subrange(28, 30)) == g.data4@[4],
        hex_text_value(guid_text_bytes(g).subrange(30, 32)) == g.data4@[5],
        hex_text_value(guid_text_bytes(g).subrange(32, 34)) == g.data4@[6],
        hex_text_value(guid_text_bytes(g).subrange(34, 36)) == g.data4@[7],
{
    reveal_with_fuel(pow16, 9);
    assert(pow16(8) == 0x100000000);
    assert(pow16(4) == 0x10000);
    assert(pow16(2) == 0x100);
    vstd::arithmetic::div_mod::lemma_small_mod(g.data4@[0] as nat, pow16(2));
    vstd::arithmetic::div_mod::lemma_small_mod(g.data4@[1] as nat, pow16(2));
    vstd::arithmetic::div_mod::lemma_small_mod(g.data4@[2] as nat, pow16(2));
    vstd::arithmetic::div_mod::lemma_small_mod(g.data4@[3] as nat, pow16(2));
    vstd::arithmetic::div_mod::lemma_small_mod(g.data4@[4] as nat, pow16(2));
    vstd::arithmetic::div_mod::lemma_small_mod(g.data4@[5] as nat, pow16(2));
    vstd::arithmetic::div_mod::lemma_small_mod(g.data4@[6] as nat, pow16(2));
    vstd::arithmetic::div_mod::lemma_small_mod(g.data4@[7] as nat, pow16(2));
    vstd::arithmetic::div_mod::lemma_small_mod(g.data1 as nat, pow16(8));
    vstd::arithmetic::div_mod::lemma_small_mod(g.data2 as nat, pow16(4));
    vstd::arithmetic::div_mod::lemma_small_mod(g.data3 as nat, pow16(4));
    lemma_hex_bytes_value(g.data1 as nat, 8);
    lemma_hex_bytes_value(g.data2 as nat, 4);
    lemma_hex_bytes_value(g.data3 as nat, 4);
    lemma_hex_bytes_value(g.data4@[0] as nat, 2);
    lemma_hex_bytes_value(g.data4@[1] as nat, 2);
    lemma_hex_bytes_value(g.data4@[2] as nat, 2);
    lemma_hex_bytes_value(g.data4@[3] as nat, 2);
    lemma_hex_bytes_value(g.data4@[4] as nat, 2);
    lemma_hex_bytes_value(g.data4@[5] as nat, 2);
    lemma_hex_bytes_value(g.data4@[6] as nat, 2);
    lemma_hex_bytes_value(g.data4@[7] as nat, 2);
    let t = guid_text_bytes(g);
    assert(t.subrange(0, 8) =~= hex_bytes(g.data1 as nat, 8));
    assert(t.subrange(9, 13) =~= hex_bytes(g.data2 as nat, 4));
    assert(t.subrange(14, 18) =~= hex_bytes(g.data3 as nat, 4));
    assert(t.subrange(19, 21) =~= hex_bytes(g.data4@[0] as nat, 2));
    assert(t.subrange(21, 23) =~= hex_bytes(g.data4@[1] as nat, 2));
    assert(t.subrange(24, 26) =~= hex_bytes(g.data4@[2] as nat, 2));
    assert(t.subrange(26, 28) =~= hex_bytes(g.data4@[3] as nat, 2));
    assert(t.subrange(28, 30) =~= hex_bytes(g.data4@[4] as nat, 2));
    assert(t.subrange(30, 32) =~= hex_bytes(g.data4@[5] as nat, 2));
    assert(t.subrange(32, 34) =~= hex_bytes(g.data4@[6] as nat, 2));
    assert(t.subrange(34, 36) =~= hex_bytes(g.data4@[7] as nat, 2));
}

/// The hyphenated upper-case text of a GUID.
pub open spec fn guid_text(g: Guid) -> Seq<char> {
    ascii_chars(guid_text_bytes(g))
}

impl Guid {
    /// The identifier in the usual 8-4-4-4-12 hex grouping, upper case.
    pub fn to_string(&self) -> (r: String)
        ensures
            r@ == guid_text(*self),
    {
        let mut out: Vec<u8> = Vec::new();
        push_hex(&mut out, self.data1, 8);
        out.push(45u8);
        push_hex(&mut out, self.data2 as u32, 4);
        out.push(45u8);
        push_hex(&mut out, self.data3 as u32, 4);
        out.push(45u8);
        push_hex(&mut out, self.data4[0] as u32, 2);
        push_hex(&mut out, self.data4[1] as u32, 2);
        out.push(45u8);
        push_hex(&mut out, self.data4[2] as u32, 2);
        push_hex(&mut out, self.data4[3] as u32, 2);
        push_hex(&mut out, self.data4[4] as u32, 2);
        push_hex(&mut out, self.data4[5] as u32, 2);
        push_hex(&mut out, self.data4[6] as u32, 2);
        push_hex(&mut out, self.data4[7] as u32, 2);
        proof {
            assert(out@ =~= guid_text_bytes(*self));
            lemma_hex_bytes_ascii(self.data1 as nat, 8);
            lemma_hex_bytes_ascii(self.data2 as nat, 4);
            lemma_hex_bytes_ascii(self.data3 as nat, 4);
            lemma_hex_bytes_ascii(self.data4@[0] as nat, 2);
            lemma_hex_bytes_ascii(self.data4@[1] as nat, 2);
            lemma_hex_bytes_ascii(self.data4@[2] as nat, 2);
            lemma_hex_bytes_ascii(self.data4@[3] as nat, 2);
            lemma_hex_bytes_ascii(self.data4@[4] as nat, 2);
            lemma_hex_bytes_ascii(self.data4@[5] as nat, 2);
            lemma_hex_bytes_ascii(self.data4@[6] as nat, 2);
            lemma_hex_bytes_ascii(self.data4@[7] as nat, 2);
        }
        ascii_string(&out)
    }
}

/// The script services the engine's script manager hands out by interface identifier.
#[derive(Debug, Clone, Copy, PartialEq, Eq, Hash)]
pub enum ScriptService {
    Null,
    Sound,
    ActReact,
    Locked,
    Puppet,
    Damage,
    Door,
    AI,
    Debug,
    Object,
    Property,
    Link,
    LinkTools,
    Key,
    Weapon,
    PickLock,
    Bow,
    Camera,
    Physics,
    DrkInv,
    Inventory,
    Quest,
    DrkPowerups,
    PlayerLimbs,
    AnimTexture,
    Light,
    Container,
    DarkUI,
    Data,
    DarkGame,
    ShockPsi,
    ShockObj,
    PGroup,
    ShockGame,
    ShockWeapon,
    ShockAI,
    Networking,
    CD,
    Version,
    Engine,
    ShockOverlay,
    DarkOverlay,
}

/// The short service ID of each script service.
pub open spec fn service_id(s: ScriptService) -> u16 {
    match s {
            ScriptService::Debug => 0x0D7,
            ScriptService::Property => 0x0DA,
            ScriptService::Object => 0x0DF,
            ScriptService::AI => 0x0E5,
            ScriptService::Link => 0x0EE,
            ScriptService::LinkTools => 0x0EF,
            ScriptService::Sound => 0x0F1,
            ScriptService::Null => 0x0F2,
            ScriptService::ActReact => 0x0F4,
            ScriptService::Door => 0x0F6,
            ScriptService::Locked => 0x0FB,
            ScriptService::Puppet => 0x0FD,
            ScriptService::Damage => 0x0FE,
            ScriptService::ShockGame => 0x108,
            ScriptService::Key => 0x10D,
            ScriptService::Weapon => 0x10E,
            ScriptService::PickLock => 0x111,
            ScriptService::Bow => 0x115,
            ScriptService::Camera => 0x140,
            ScriptService::Physics => 0x141,
            ScriptService::DrkInv => 0x150,
            ScriptService::Quest => 0x152,
            ScriptService::DrkPowerups => 0x153,
            ScriptService::PlayerLimbs => 0x15D,
            ScriptService::Inventory => 0x15E,
            ScriptService::AnimTexture => 0x16A,
            ScriptService::Light => 0x16C,
            ScriptService::Container => 0x17D,
            ScriptService::DarkUI => 0x19F,
            ScriptService::Data => 0x1A0,
            ScriptService::DarkGame => 0x1B4,
            ScriptService::ShockPsi => 0x1D7,
            ScriptService::ShockObj => 0x1D9,
            ScriptService::PGroup => 0x1F8,
            ScriptService::ShockWeapon => 0x213,
            ScriptService::ShockAI => 0x21B,
            ScriptService::Networking => 0x225,
            ScriptService::CD => 0x226,
            ScriptService::Version => 0x228,
            ScriptService::Engine => 0x229,
            ScriptService::ShockOverlay => 0x22A,
            ScriptService::DarkOverlay => 0x22B,
        }
}

/// The name of each script service, as written in the service table.
pub open spec fn service_name(s: ScriptService) -> Seq<char> {
    match s {
            ScriptService::Debug => "Debug"@,
            ScriptService::Property => "Property"@,
            ScriptService::Object => "Object"@,
            ScriptService::AI => "AI"@,
            ScriptService::Link => "Link"@,
            ScriptService::LinkTools => "LinkTools"@,
            ScriptService::Sound => "Sound"@,
            ScriptService::Null => "Null"@,
            ScriptService::ActReact => "ActReact"@,
            ScriptService::Door => "Door"@,
            ScriptService::Locked => "Locked"@,
            ScriptService::Puppet => "Puppet"@,
            ScriptService::Damage => "Damage"@,
            ScriptService::ShockGame => "ShockGame"@,
            ScriptService::Key => "Key"@,
            ScriptService::Weapon => "Weapon"@,
            ScriptService::PickLock => "PickLock"@,
            ScriptService::Bow => "Bow"@,
            ScriptService::Camera => "Camera"@,
            ScriptService::Physics => "Physics"@,
            ScriptService::DrkInv => "DrkInv"@,
            ScriptService::Quest => "Quest"@,
            ScriptService::DrkPowerups => "DrkPowerups"@,
            ScriptService::PlayerLimbs => "PlayerLimbs"@,
            ScriptService::Inventory => "Inventory"@,
            ScriptService::AnimTexture => "AnimTexture"@,
            ScriptService::Light => "Light"@,
            ScriptService::Container => "Container"@,
            ScriptService::DarkUI => "DarkUI"@,
            ScriptService::Data => "Data"@,
            ScriptService::DarkGame => "DarkGame"@,
            ScriptService::ShockPsi => "ShockPsi"@,
            ScriptService::ShockObj => "ShockObj"@,
            ScriptService::PGroup => "PGroup"@,
            ScriptService::ShockWeapon => "ShockWeapon"@,
            ScriptService::ShockAI => "ShockAI"@,
            ScriptService::Networking => "Networking"@,
            ScriptService::CD => "CD"@,
            ScriptService::Version => "Version"@,
            ScriptService::Engine => "Engine"@,
            ScriptService::ShockOverlay => "ShockOverlay"@,
            ScriptService::DarkOverlay => "DarkOverlay"@,
        }
}


/// The LGS script service table: each service, by the name the engine's
/// script manager knows it by, has the short ID the SDK assigns it (its
/// interface GUID is the LG GUID of that ID).
pub proof fn lemma_service_table()
    ensures
        service_name(ScriptService::Null) == "Null"@ && service_id(ScriptService::Null) == 0x0F2,
        service_name(ScriptService::Sound) == "Sound"@ && service_id(ScriptService::Sound) == 0x0F1,
        service_name(ScriptService::ActReact) == "ActReact"@ && service_id(ScriptService::ActReact) == 0x0F4,
        service_name(ScriptService::Locked) == "Locked"@ && service_id(ScriptService::Locked) == 0x0FB,
        service_name(ScriptService::Puppet) == "Puppet"@ && service_id(ScriptService::Puppet) == 0x0FD,
        service_name(ScriptService::Damage) == "Damage"@ && service_id(ScriptService::Damage) == 0x0FE,
        service_name(ScriptService::Door) == "Door"@ && service_id(ScriptService::Door) == 0x0F6,
        service_name(ScriptService::AI) == "AI"@ && service_id(ScriptService::AI) == 0x0E5,
        service_name(ScriptService::Debug) == "Debug"@ && service_id(ScriptService::Debug) == 0x0D7,
        service_name(ScriptService::Object) == "Object"@ && service_id(ScriptService::Object) == 0x0DF,
        service_name(ScriptService::Property) == "Property"@ && service_id(ScriptService::Property) == 0x0DA,
        service_name(ScriptService::Link) == "Link"@ && service_id(ScriptService::Link) == 0x0EE,
        service_name(ScriptService::LinkTools) == "LinkTools"@ && service_id(ScriptService::LinkTools) == 0x0EF,
        service_name(ScriptService::Key) == "Key"@ && service_id(ScriptService::Key) == 0x10D,
        service_name(ScriptService::Weapon) == "Weapon"@ && service_id(ScriptService::Weapon) == 0x10E,
        service_name(ScriptService::PickLock) == "PickLock"@ && service_id(ScriptService::PickLock) == 0x111,
        service_name(ScriptService::Bow) == "Bow"@ && service_id(ScriptService::Bow) == 0x115,
        service_name(ScriptService::Camera) == "Camera"@ && service_id(ScriptService::Camera) == 0x140,
        service_name(ScriptService::Physics) == "Physics"@ && service_id(ScriptService::Physics) == 0x141,
        service_name(ScriptService::DrkInv) == "DrkInv"@ && service_id(ScriptService::DrkInv) == 0x150,
        service_name(ScriptService::Inventory) == "Inventory"@ && service_id(ScriptService::Inventory) == 0x15E,
        service_name(ScriptService::Quest) == "Quest"@ && service_id(ScriptService::Quest) == 0x152,
        service_name(ScriptService::DrkPowerups) == "DrkPowerups"@ && service_id(ScriptService::DrkPowerups) == 0x153,
        service_name(ScriptService::PlayerLimbs) == "PlayerLimbs"@ && service_id(ScriptService::PlayerLimbs) == 0x15D,
        service_name(ScriptService::AnimTexture) == "AnimTexture"@ && service_id(ScriptService::AnimTexture) == 0x16A,
        service_name(ScriptService::Light) == "Light"@ && service_id(ScriptService::Light) == 0x16C,
        service_name(ScriptService::Container) == "Container"@ && service_id(ScriptService::Container) == 0x17D,
        service_name(ScriptService::DarkUI) == "DarkUI"@ && service_id(ScriptService::DarkUI) == 0x19F,
        service_name(ScriptService::Data) == "Data"@ && service_id(ScriptService::Data) == 0x1A0,
        service_name(ScriptService::DarkGame) == "DarkGame"@ && service_id(ScriptService::DarkGame) == 0x1B4,
        service_name(ScriptService::ShockPsi) == "ShockPsi"@ && service_id(ScriptService::ShockPsi) == 0x1D7,
        service_name(ScriptService::ShockObj) == "ShockObj"@ && service_id(ScriptService::ShockObj) == 0x1D9,
        service_name(ScriptService::PGroup) == "PGroup"@ && service_id(ScriptService::PGroup) == 0x1F8,
        service_name(ScriptService::ShockGame) == "ShockGame"@ && service_id(ScriptService::ShockGame) == 0x108,
        service_name(ScriptService::ShockWeapon) == "ShockWeapon"@ && service_id(ScriptService::ShockWeapon) == 0x213,
        service_name(ScriptService::ShockAI) == "ShockAI"@ && service_id(ScriptService::ShockAI) == 0x21B,
        service_name(ScriptService::Networking) == "Networking"@ && service_id(ScriptService::Networking) == 0x225,
        service_name(ScriptService::CD) == "CD"@ && service_id(ScriptService::CD) == 0x226,
        service_name(ScriptService::Version) == "Version"@ && service_id(ScriptService::Version) == 0x228,
        service_name(ScriptService::Engine) == "Engine"@ && service_id(ScriptService::Engine) == 0x229,
        service_name(ScriptService::ShockOverlay) == "ShockOverlay"@ && service_id(ScriptService::ShockOverlay) == 0x22A,
        service_name(ScriptService::DarkOverlay) == "DarkOverlay"@ && service_id(ScriptService::DarkOverlay) == 0x22B,
{
}

/// A short fingerprint of a name: its length, first and last characters.
pub open spec fn name_key(n: Seq<char>) -> (int, char, char) {
    (n.len() as int, n[0], n[n.len() - 1])
}

/// The fingerprint of each service's name; no two services share one.
pub open spec fn service_key(s: ScriptService) -> (int, char, char) {
    match s {
        ScriptService::Debug => (5int, 'D', 'g'),
        ScriptService::Property => (8int, 'P', 'y'),
        ScriptService::Object => (6int, 'O', 't'),
        ScriptService::AI => (2int, 'A', 'I'),
        ScriptService::Link => (4int, 'L', 'k'),
        ScriptService::LinkTools => (9int, 'L', 's'),
        ScriptService::Sound => (5int, 'S', 'd'),
        ScriptService::Null => (4int, 'N', 'l'),
        ScriptService::ActReact => (8int, 'A', 't'),
        ScriptService::Door => (4int, 'D', 'r'),
        ScriptService::Locked => (6int, 'L', 'd'),
        ScriptService::Puppet => (6int, 'P', 't'),
        ScriptService::Damage => (6int, 'D', 'e'),
        ScriptService::ShockGame => (9int, 'S', 'e'),
        ScriptService::Key => (3int, 'K', 'y'),
        ScriptService::Weapon => (6int, 'W', 'n'),
        ScriptService::PickLock => (8int, 'P', 'k'),
        ScriptService::Bow => (3int, 'B', 'w'),
        ScriptService::Camera => (6int, 'C', 'a'),
        ScriptService::Physics => (7int, 'P', 's'),
        ScriptService::DrkInv => (6int, 'D', 'v'),
        ScriptService::Quest => (5int, 'Q', 't'),
        ScriptService::DrkPowerups => (11int, 'D', 's'),
        ScriptService::PlayerLimbs => (11int, 'P', 's'),
        ScriptService::Inventory => (9int, 'I', 'y'),
        ScriptService::AnimTexture => (11int, 'A', 'e'),
        ScriptService::Light => (5int, 'L', 't'),
        ScriptService::Container => (9int, 'C', 'r'),
        ScriptService::DarkUI => (6int, 'D', 'I'),
        ScriptService::Data => (4int, 'D', 'a'),
        ScriptService::DarkGame => (8int, 'D', 'e'),
        ScriptService::ShockPsi => (8int, 'S', 'i'),
        ScriptService::ShockObj => (8int, 'S', 'j'),
        ScriptService::PGroup => (6int, 'P', 'p'),
        ScriptService::ShockWeapon => (11int, 'S', 'n'),
        ScriptService::ShockAI => (7int, 'S', 'I'),
        ScriptService::Networking => (10int, 'N', 'g'),
        ScriptService::CD => (2int, 'C', 'D'),
        ScriptService::Version => (7int, 'V', 'n'),
        ScriptService::Engine => (6int, 'E', 'e'),
        ScriptService::ShockOverlay => (12int, 'S', 'y'),
        ScriptService::DarkOverlay => (11int, 'D', 'y'),
    }
}

/// The service with a given name fingerprint.
pub open spec fn service_with_key(k: (int, char, char)) -> Option<ScriptService> {
    if k == (5int, 'D', 'g') {
        Some(ScriptService::Debug)
    } else if k == (8int, 'P', 'y') {
        Some(ScriptService::Property)
    } else if k == (6int, 'O', 't') {
        Some(ScriptService::Object)
    } else if k == (2int, 'A', 'I') {
        Some(ScriptService::AI)
    } else if k == (4int, 'L', 'k') {
        Some(ScriptService::Link)
    } else if k == (9int, 'L', 's') {
        Some(ScriptService::LinkTools)
    } else if k == (5int, 'S', 'd') {
        Some(ScriptService::Sound)
    } else if k == (4int, 'N', 'l') {
        Some(ScriptService::Null)
    } else if k == (8int, 'A', 't') {
        Some(ScriptService::ActReact)
    } else if k == (4int, 'D', 'r') {
        Some(ScriptService::Door)
    } else if k == (6int, 'L', 'd') {
        Some(ScriptService::Locked)
    } else if k == (6int, 'P', 't') {
        Some(ScriptService::Puppet)
    } else if k == (6int, 'D', 'e') {
        Some(ScriptService::Damage)
    } else if k == (9int, 'S', 'e') {
        Some(ScriptService::ShockGame)
    } else if k == (3int, 'K', 'y') {
        Some(ScriptService::Key)
    } else if k == (6int, 'W', 'n') {
        Some(ScriptService::Weapon)
    } else if k == (8int, 'P', 'k') {
        Some(ScriptService::PickLock)
    } else if k == (3int, 'B', 'w') {
        Some(ScriptService::Bow)
    } else if k == (6int, 'C', 'a') {
        Some(ScriptService::Camera)
    } else if k == (7int, 'P', 's') {
        Some(ScriptService::Physics)
    } else if k == (6int, 'D', 'v') {
        Some(ScriptService::DrkInv)
    } else if k == (5int, 'Q', 't') {
        Some(ScriptService::Quest)
    } else if k == (11int, 'D', 's') {
        Some(ScriptService::DrkPowerups)
    } else if k == (11int, 'P', 's') {
        Some(ScriptService::PlayerLimbs)
    } else if k == (9int, 'I', 'y') {
        Some(ScriptService::Inventory)
    } else if k == (11int, 'A', 'e') {
        Some(ScriptService::AnimTexture)
    } else if k == (5int, 'L', 't') {
        Some(ScriptService::Light)
    } else if k == (9int, 'C', 'r') {
        Some(ScriptService::Container)
    } else if k == (6int, 'D', 'I') {
        Some(ScriptService::DarkUI)
    } else if k == (4int, 'D', 'a') {
        Some(ScriptService::Data)
    } else if k == (8int, 'D', 'e') {
        Some(ScriptService::DarkGame)
    } else if k == (8int, 'S', 'i') {
        Some(ScriptService::ShockPsi)
    } else if k == (8int, 'S', 'j') {
        Some(ScriptService::ShockObj)
    } else if k == (6int, 'P', 'p') {
        Some(ScriptService::PGroup)
    } else if k == (11int, 'S', 'n') {
        Some(ScriptService::ShockWeapon)
    } else if k == (7int, 'S', 'I') {
        Some(ScriptService::ShockAI)
    } else if k == (10int, 'N', 'g') {
        Some(ScriptService::Networking)
    } else if k == (2int, 'C', 'D') {
        Some(ScriptService::CD)
    } else if k == (7int, 'V', 'n') {
        Some(ScriptService::Version)
    } else if k == (6int, 'E', 'e') {
        Some(ScriptService::Engine)
    } else if k == (12int, 'S', 'y') {
        Some(ScriptService::ShockOverlay)
    } else if k == (11int, 'D', 'y') {
        Some(ScriptService::DarkOverlay)
    } else {
        None
    }
}

proof fn lemma_service_key(s: ScriptService)
    ensures
        name_key(service_name(s)) == service_key(s),
        service_with_key(service_key(s)) == Some(s),
{
    reveal_strlit("Debug");
    reveal_strlit("Property");
    reveal_strlit("Object");
    reveal_strlit("AI");
    reveal_strlit("Link");
    reveal_strlit("LinkTools");
    reveal_strlit("Sound");
    reveal_strlit("Null");
    reveal_strlit("ActReact");
    reveal_strlit("Door");
    reveal_strlit("Locked");
    reveal_strlit("Puppet");
    reveal_strlit("Damage");
    reveal_strlit("ShockGame");
    reveal_strlit("Key");
    reveal_strlit("Weapon");
    reveal_strlit("PickLock");
    reveal_strlit("Bow");
    reveal_strlit("Camera");
    reveal_strlit("Physics");
    reveal_strlit("DrkInv");
    reveal_strlit("Quest");
    reveal_strlit("DrkPowerups");
    reveal_strlit("PlayerLimbs");
    reveal_strlit("Inventory");
    reveal_strlit("AnimTexture");
    reveal_strlit("Light");
    reveal_strlit("Container");
    reveal_strlit("DarkUI");
    reveal_strlit("Data");
    reveal_strlit("DarkGame");
    reveal_strlit("ShockPsi");
    reveal_strlit("ShockObj");
    reveal_strlit("PGroup");
    reveal_strlit("ShockWeapon");
    reveal_strlit("ShockAI");
    reveal_strlit("Networking");
    reveal_strlit("CD");
    reveal_strlit("Version");
    reveal_strlit("Engine");
    reveal_strlit("ShockOverlay");
    reveal_strlit("DarkOverlay");
}

/// Distinct services have distinct names, so the table can be searched by name.
pub proof fn lemma_service_names_distinct(a: ScriptService, b: ScriptService)
    requires
        service_name(a) == service_name(b),
    ensures
        a == b,
{
    lemma_service_key(a);
    lemma_service_key(b);
}

impl ScriptService {
    /// Every script service, in the order of the service table.
    pub const ALL: [ScriptService; 42] = [
        ScriptService::Null,
        ScriptService::Sound,
        ScriptService::ActReact,
        ScriptService::Locked,
        ScriptService::Puppet,
        ScriptService::Damage,
        ScriptService::Door,
        ScriptService::AI,
        ScriptService::Debug,
        ScriptService::Object,
        ScriptService::Property,
        ScriptService::Link,
        ScriptService::LinkTools,
        ScriptService::Key,
        ScriptService::Weapon,
        ScriptService::PickLock,
        ScriptService::Bow,
        ScriptService::Camera,
        ScriptService::Physics,
        ScriptService::DrkInv,
        ScriptService::Inventory,
        ScriptService::Quest,
        ScriptService::DrkPowerups,
        ScriptService::PlayerLimbs,
        ScriptService::AnimTexture,
        ScriptService::Light,
        ScriptService::Container,
        ScriptService::DarkUI,
        ScriptService::Data,
        ScriptService::DarkGame,
        ScriptService::ShockPsi,
        ScriptService::ShockObj,
        ScriptService::PGroup,
        ScriptService::ShockGame,
        ScriptService::ShockWeapon,
        ScriptService::ShockAI,
        ScriptService::Networking,
        ScriptService::CD,
        ScriptService::Version,
        ScriptService::Engine,
        ScriptService::ShockOverlay,
        ScriptService::DarkOverlay,
    ];

    /// The service's short LG ID; Container has 0x17D.
    pub fn id(self) -> (r: u16)
        ensures
            r == service_id(self),
    {
        match self {
            ScriptService::Debug => 0x0D7,
            ScriptService::Property => 0x0DA,
            ScriptService::Object => 0x0DF,
            ScriptService::AI => 0x0E5,
            ScriptService::Link => 0x0EE,
            ScriptService::LinkTools => 0x0EF,
            ScriptService::Sound => 0x0F1,
            ScriptService::Null => 0x0F2,
            ScriptService::ActReact => 0x0F4,
            ScriptService::Door => 0x0F6,
            ScriptService::Locked => 0x0FB,
            ScriptService::Puppet => 0x0FD,
            ScriptService::Damage => 0x0FE,
            ScriptService::ShockGame => 0x108,
            ScriptService::Key => 0x10D,
            ScriptService::Weapon => 0x10E,
            ScriptService::PickLock => 0x111,
            ScriptService::Bow => 0x115,
            ScriptService::Camera => 0x140,
            ScriptService::Physics => 0x141,
            ScriptService::DrkInv => 0x150,
            ScriptService::Quest => 0x152,
            ScriptService::DrkPowerups => 0x153,
            ScriptService::PlayerLimbs => 0x15D,
            ScriptService::Inventory => 0x15E,
            ScriptService::AnimTexture => 0x16A,
            ScriptService::Light => 0x16C,
            ScriptService::Container => 0x17D,
            ScriptService::DarkUI => 0x19F,
            ScriptService::Data => 0x1A0,
            ScriptService::DarkGame => 0x1B4,
            ScriptService::ShockPsi => 0x1D7,
            ScriptService::ShockObj => 0x1D9,
            ScriptService::PGroup => 0x1F8,
            ScriptService::ShockWeapon => 0x213,
            ScriptService::ShockAI => 0x21B,
            ScriptService::Networking => 0x225,
            ScriptService::CD => 0x226,
            ScriptService::Version => 0x228,
            ScriptService::Engine => 0x229,
            ScriptService::ShockOverlay => 0x22A,
            ScriptService::DarkOverlay => 0x22B,
        }
    }

    /// Returns the service's name as written in the service table.
    pub fn name(self) -> (r: &'static str)
        ensures
            r@ == service_name(self),
    {
        match self {
            ScriptService::Debug => "Debug",
            ScriptService::Property => "Property",
            ScriptService::Object => "Object",
            ScriptService::AI => "AI",
            ScriptService::Link => "Link",
            ScriptService::LinkTools => "LinkTools",
            ScriptService::Sound => "Sound",
            ScriptService::Null => "Null",
            ScriptService::ActReact => "ActReact",
            ScriptService::Door => "Door",
            ScriptService::Locked => "Locked",
            ScriptService::Puppet => "Puppet",
            ScriptService::Damage => "Damage",
            ScriptService::ShockGame => "ShockGame",
            ScriptService::Key => "Key",
            ScriptService::Weapon => "Weapon",
            ScriptService::PickLock => "PickLock",
            ScriptService::Bow => "Bow",
            ScriptService::Camera => "Camera",
            ScriptService::Physics => "Physics",
            ScriptService::DrkInv => "DrkInv",
            ScriptService::Quest => "Quest",
            ScriptService::DrkPowerups => "DrkPowerups",
            ScriptService::PlayerLimbs => "PlayerLimbs",
            ScriptService::Inventory => "Inventory",
            ScriptService::AnimTexture => "AnimTexture",
            ScriptService::Light => "Light",
            ScriptService::Container => "Container",
            ScriptService::DarkUI => "DarkUI",
            ScriptService::Data => "Data",
            ScriptService::DarkGame => "DarkGame",
            ScriptService::ShockPsi => "ShockPsi",
            ScriptService::ShockObj => "ShockObj",
            ScriptService::PGroup => "PGroup",
            ScriptService::ShockWeapon => "ShockWeapon",
            ScriptService::ShockAI => "ShockAI",
            ScriptService::Networking => "Networking",
            ScriptService::CD => "CD",
            ScriptService::Version => "Version",
            ScriptService::Engine => "Engine",
            ScriptService::ShockOverlay => "ShockOverlay",
            ScriptService::DarkOverlay => "DarkOverlay",
        }
    }

    /// The interface identifier the engine registers the service under.
    pub fn guid(self) -> (g: Guid)
        ensures
            is_lg_guid_of(g, service_id(self) as u32),
    {
        lg_guid(self.id() as u32)
    }

    /// The service's interface identifier as text; Container gives
    /// `7D00017D-7BFD-134C-8348-00AA00A82B51`.
    pub fn guid_string(self) -> (r: String)
        ensures
            exists|g: Guid| is_lg_guid_of(g, service_id(self) as u32) && r@ == guid_text(g),
    {
        let g = self.guid();
        g.to_string()
    }

    /// Looks a service up by its table name.
    pub fn from_name(name: &str) -> (r: Option<ScriptService>)
        ensures
            r matches Some(s) ==> service_name(s) == name@,
            r is None ==> forall|s: ScriptService| service_name(s) != name@,
            forall|s: ScriptService| service_name(s) == name@ ==> r == Some(s),
    {
        let all = Self::ALL;
        let mut i: usize = 0;
        while i < 42
            invariant
                i <= 42,
                all@ == Self::ALL@,
                forall|j: int| 0 <= j < i ==> service_name(#[trigger] all@[j]) != name@,
            decreases 42 - i,
        {
            let s = all[i];
            if str_eq(name, s.name()) {
                proof {
                    assert forall|t: ScriptService| service_name(t) == name@ implies t == s by {
                        lemma_service_names_distinct(s, t);
                    }
                }
                return Some(s);
            }
            i = i + 1;
        }
        proof {
            assert forall|s: ScriptService| service_name(s) != name@ by {
                match s {
                    ScriptService::Debug => assert(all@[8] == s),
                    ScriptService::Property => assert(all@[10] == s),
                    ScriptService::Object => assert(all@[9] == s),
                    ScriptService::AI => assert(all@[7] == s),
                    ScriptService::Link => assert(all@[11] == s),
                    ScriptService::LinkTools => assert(all@[12] == s),
                    ScriptService::Sound => assert(all@[1] == s),
                    ScriptService::Null => assert(all@[0] == s),
                    ScriptService::ActReact => assert(all@[2] == s),
                    ScriptService::Door => assert(all@[6] == s),
                    ScriptService::Locked => assert(all@[3] == s),
                    ScriptService::Puppet => assert(all@[4] == s),
                    ScriptService::Damage => assert(all@[5] == s),
                    ScriptService::ShockGame => assert(all@[33] == s),
                    ScriptService::Key => assert(all@[13] == s),
                    ScriptService::Weapon => assert(all@[14] == s),
                    ScriptService::PickLock => assert(all@[15] == s),
                    ScriptService::Bow => assert(all@[16] == s),
                    ScriptService::Camera => assert(all@[17] == s),
                    ScriptService::Physics => assert(all@[18] == s),
                    ScriptService::DrkInv => assert(all@[19] == s),
                    ScriptService::Quest => assert(all@[21] == s),
                    ScriptService::DrkPowerups => assert(all@[22] == s),
                    ScriptService::PlayerLimbs => assert(all@[23] == s),
                    ScriptService::Inventory => assert(all@[20] == s),
                    ScriptService::AnimTexture => assert(all@[24] == s),
                    ScriptService::Light => assert(all@[25] == s),
                    ScriptService::Container => assert(all@[26] == s),
                    ScriptService::DarkUI => assert(all@[27] == s),
                    ScriptService::Data => assert(all@[28] == s),
                    ScriptService::DarkGame => assert(all@[29] == s),
                    ScriptService::ShockPsi => assert(all@[30] == s),
                    ScriptService::ShockObj => assert(all@[31] == s),
                    ScriptService::PGroup => assert(all@[32] == s),
                    ScriptService::ShockWeapon => assert(all@[34] == s),
                    ScriptService::ShockAI => assert(all@[35] == s),
                    ScriptService::Networking => assert(all@[36] == s),
                    ScriptService::CD => assert(all@[37] == s),
                    ScriptService::Version => assert(all@[38] == s),
                    ScriptService::Engine => assert(all@[39] == s),
                    ScriptService::ShockOverlay => assert(all@[40] == s),
                    ScriptService::DarkOverlay => assert(all@[41] == s),
                }
            }
        }
        None
    }
}

} // verus!

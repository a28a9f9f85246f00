//! Decisions behind the engine script services: game detection, the
//! per-game vtable slot tables, the service value types, and how raw
//! service replies become typed results.
use vstd::prelude::*;
use vstd::std_specs::convert::TryFromSpecImpl;
use vstd::utf8::{decode_utf8, valid_utf8};
use crate::osm::{
    holds_string_address, multi_parm_from_raw, LinkId, LinkKind, MultiParm, MultiParmView, ObjectId, sLink,
    sMultiParm,
};
use crate::text::{utf8_lossy, utf8_lossy_chars, utf8_str};

verus! {

/// Which Dark Engine game is running, detected via gamesys fingerprinting.
#[derive(Debug, Clone, Copy, PartialEq, Eq, Structural)]
pub enum GameVersion {
    /// Thief 1
    T1,
    /// Thief 2
    T2,
    /// System Shock 2
    SS2,
}

/// An archetype whose presence tells the games apart.
#[derive(Debug, Clone, Copy, PartialEq, Eq, Structural)]
pub enum GameProbe {
    /// Exists in both Thief 1 and Thief 2 gamesys.
    Garrett,
    /// Exists only in the Thief 2 gamesys.
    MechCherub,
    /// Exists only in the System Shock 2 gamesys.
    ThePlayer,
}

/// The next step of game detection.
#[derive(Debug, Clone, Copy, PartialEq, Eq, Structural)]
pub enum Detection {
    /// Look the archetype up and report whether it exists.
    Ask(GameProbe),
    /// The game is known.
    Detected(GameVersion),
    /// Neither Garrett nor The Player exists: the game is not recognised.
    Unknown,
}

/// The archetype name of each probe.
pub open spec fn probe_name_spec(p: GameProbe) -> Seq<char> {
    match p {
        GameProbe::Garrett => "Garrett"@,
        GameProbe::MechCherub => "MechCherub"@,
        GameProbe::ThePlayer => "The Player"@,
    }
}

/// The game a gamesys belongs to, from which fingerprint archetypes it holds.
pub open spec fn fingerprint(has_garrett: bool, has_mech_cherub: bool, has_the_player: bool) -> Option<
    GameVersion,
> {
    if has_garrett {
        if has_mech_cherub {
            Some(GameVersion::T2)
        } else {
            Some(GameVersion::T1)
        }
    } else if has_the_player {
        Some(GameVersion::SS2)
    } else {
        None
    }
}

/// One detection step: what to do once `probe` has been looked up.
pub open spec fn detection_step(probe: GameProbe, found: bool) -> Detection {
    match probe {
        GameProbe::Garrett => if found {
            Detection::Ask(GameProbe::MechCherub)
        } else {
            Detection::Ask(GameProbe::ThePlayer)
        },
        GameProbe::MechCherub => if found {
            Detection::Detected(GameVersion::T2)
        } else {
            Detection::Detected(GameVersion::T1)
        },
        GameProbe::ThePlayer => if found {
            Detection::Detected(GameVersion::SS2)
        } else {
            Detection::Unknown
        },
    }
}

impl GameProbe {
    /// The archetype to look up.
    pub fn name(self) -> (r: &'static str)
        ensures
            r@ == probe_name_spec(self),
    {
        match self {
            GameProbe::Garrett => "Garrett",
            GameProbe::MechCherub => "MechCherub",
            GameProbe::ThePlayer => "The Player",
        }
    }

    /// Detection starts by looking for Garrett.
    pub fn first() -> (r: GameProbe)
        ensures
            r == GameProbe::Garrett,
    {
        GameProbe::Garrett
    }

    /// What to do once this probe has been looked up.
    pub fn after(self, found: bool) -> (r: Detection)
        ensures
            r == detection_step(self, found),
    {
        match self {
            GameProbe::Garrett => if found {
                Detection::Ask(GameProbe::MechCherub)
            } else {
                Detection::Ask(GameProbe::ThePlayer)
            },
            GameProbe::MechCherub => if found {
                Detection::Detected(GameVersion::T2)
            } else {
                Detection::Detected(GameVersion::T1)
            },
            GameProbe::ThePlayer => if found {
                Detection::Detected(GameVersion::SS2)
            } else {
                Detection::Unknown
            },
        }
    }
}

/// The answer an archetype lookup gives for each probe.
pub open spec fn probe_answer(
    p: GameProbe,
    has_garrett: bool,
    has_mech_cherub: bool,
    has_the_player: bool,
) -> bool {
    match p {
        GameProbe::Garrett => has_garrett,
        GameProbe::MechCherub => has_mech_cherub,
        GameProbe::ThePlayer => has_the_player,
    }
}

/// Running detection against a gamesys ends after two lookups with the
/// game that its fingerprint names, or `Unknown` when it names none; the
/// Thief 2 marker is looked up only when Garrett exists, and The Player only
/// when he does not.
pub proof fn lemma_detection_follows_fingerprint(
    has_garrett: bool,
    has_mech_cherub: bool,
    has_the_player: bool,
)
    ensures
        ({
            let first = detection_step(GameProbe::Garrett, has_garrett);
            &&& first matches Detection::Ask(q)
            &&& (q == GameProbe::MechCherub <==> has_garrett)
            &&& (q == GameProbe::ThePlayer <==> !has_garrett)
            &&& match detection_step(
                q,
                probe_answer(q, has_garrett, has_mech_cherub, has_the_player),
            ) {
                Detection::Detected(v) => fingerprint(
                    has_garrett,
                    has_mech_cherub,
                    has_the_player,
                ) == Some(v),
                Detection::Unknown => fingerprint(
                    has_garrett,
                    has_mech_cherub,
                    has_the_player,
                ) is None,
                Detection::Ask(_) => false,
            }
        }),
{
}

/// A service method called through a raw vtable slot, because its slot
/// differs between Thief 1 and Thief 2.
#[derive(Debug, Clone, Copy, PartialEq, Eq, Structural)]
pub enum RawMethod {
    /// `IActReactService::Stimulate` (4 parameters).
    Stimulate,
    /// `IObjectService::Archetype`.
    Archetype,
    /// `IPropertyService::Possessed`.
    Possessed,
    /// `IPropertyService::PossessedSimple` (NewDark extension).
    PossessedSimple,
    /// `IPropertyService::SetLocal`.
    SetLocal,
    /// `IPropertyService::Add`.
    PropertyAdd,
    /// `IPropertyService::Remove`.
    PropertyRemove,
    /// `IPropertyService::CopyFrom`.
    CopyFrom,
    /// `IInventory::InvClear`.
    InvClear,
}

/// The Thief 1 vtable slot of each method.
pub open spec fn t1_slot(m: RawMethod) -> nat {
    match m {
        RawMethod::Stimulate => 14,
        RawMethod::Archetype => 28,
        RawMethod::Possessed => 11,
        RawMethod::PossessedSimple => 13,
        RawMethod::SetLocal => 12,
        RawMethod::PropertyAdd => 8,
        RawMethod::PropertyRemove => 9,
        RawMethod::CopyFrom => 10,
        RawMethod::InvClear => 8,
    }
}

/// The Thief 2 vtable slot of each method.
pub open spec fn t2_slot(m: RawMethod) -> nat {
    match m {
        RawMethod::Stimulate => 6,
        RawMethod::Archetype => 30,
        RawMethod::Possessed => 12,
        RawMethod::PossessedSimple => 13,
        RawMethod::SetLocal => 8,
        RawMethod::PropertyAdd => 9,
        RawMethod::PropertyRemove => 10,
        RawMethod::CopyFrom => 11,
        RawMethod::InvClear => 8,
    }
}

impl RawMethod {
    /// The vtable slot of the method on the running game, or `None` on
    /// System Shock 2, where these methods are not supported.
    pub fn slot(self, version: GameVersion) -> (r: Option<usize>)
        ensures
            version == GameVersion::T1 ==> r == Some(t1_slot(self) as usize),
            version == GameVersion::T2 ==> r == Some(t2_slot(self) as usize),
            version == GameVersion::SS2 ==> r is None,
    {
        let (t1, t2): (usize, usize) = match self {
            RawMethod::Stimulate => (14, 6),
            RawMethod::Archetype => (28, 30),
            RawMethod::Possessed => (11, 12),
            RawMethod::PossessedSimple => (13, 13),
            RawMethod::SetLocal => (12, 8),
            RawMethod::PropertyAdd => (8, 9),
            RawMethod::PropertyRemove => (9, 10),
            RawMethod::CopyFrom => (10, 11),
            RawMethod::InvClear => (8, 8),
        };
        match version {
            GameVersion::T1 => Some(t1),
            GameVersion::T2 => Some(t2),
            GameVersion::SS2 => None,
        }
    }
}

/// Thief 2 inserts `SetLocal` at property slot 8, so every property method
/// that follows it on Thief 1 sits one slot later on Thief 2; Thief 2
/// inserts two object methods before `Archetype`, moving it by two.
pub proof fn lemma_thief2_slot_shifts()
    ensures
        t2_slot(RawMethod::SetLocal) == 8,
        forall|m: RawMethod|
            (m == RawMethod::PropertyAdd || m == RawMethod::PropertyRemove || m
                == RawMethod::CopyFrom || m == RawMethod::Possessed) ==> t2_slot(m) == t1_slot(m)
                + 1 && t1_slot(m) >= 8,
        t2_slot(RawMethod::Archetype) == t1_slot(RawMethod::Archetype) + 2,
{
}

/// True for the methods of `IPropertyService` called through raw slots.
pub open spec fn is_property_method(m: RawMethod) -> bool {
    m == RawMethod::PropertyAdd || m == RawMethod::PropertyRemove || m == RawMethod::CopyFrom
        || m == RawMethod::Possessed || m == RawMethod::SetLocal || m == RawMethod::PossessedSimple
}

/// The raw slots follow the engine's `IPropertyService` vtable. On Thief 1,
/// after Get (5), Set (6) and SetSimple (7), come Add, Remove, CopyFrom and
/// Possessed at 8, 9, 10 and 11, then SetLocal at 12 and PossessedSimple at
/// 13. Thief 2 puts SetLocal at 8, so Add, Remove, CopyFrom and Possessed
/// sit at 9, 10, 11 and 12; PossessedSimple stays at 13. All of them lie
/// past the three slots before them, and no two property methods share a
/// slot on one game.
pub proof fn lemma_property_vtable_layout()
    ensures
        t1_slot(RawMethod::PropertyAdd) == 8,
        t1_slot(RawMethod::PropertyRemove) == 9,
        t1_slot(RawMethod::CopyFrom) == 10,
        t1_slot(RawMethod::Possessed) == 11,
        t1_slot(RawMethod::SetLocal) == 12,
        t1_slot(RawMethod::PossessedSimple) == 13,
        t2_slot(RawMethod::SetLocal) == 8,
        t2_slot(RawMethod::PropertyAdd) == 9,
        t2_slot(RawMethod::PropertyRemove) == 10,
        t2_slot(RawMethod::CopyFrom) == 11,
        t2_slot(RawMethod::Possessed) == 12,
        t2_slot(RawMethod::PossessedSimple) == 13,
        forall|m: RawMethod| #[trigger] is_property_method(m) ==> 8 <= t1_slot(m) <= 13 && 8 <= t2_slot(m) <= 13,
        forall|a: RawMethod, b: RawMethod|
            is_property_method(a) && is_property_method(b) && a != b ==> #[trigger] t1_slot(a)
                != #[trigger] t1_slot(b) && t2_slot(a) != t2_slot(b),
{
}

/// The raw slots outside the property service: the four-parameter
/// `Stimulate` at 14 on Thief 1 and at 6 on Thief 2 (where it replaces the
/// legacy three-parameter call); `Archetype` at 28 on Thief 1 and 30 on
/// Thief 2; `InvClear` at 8 on both.
pub proof fn lemma_other_raw_slots()
    ensures
        t1_slot(RawMethod::Stimulate) == 14,
        t2_slot(RawMethod::Stimulate) == 6,
        t1_slot(RawMethod::Archetype) == 28,
        t2_slot(RawMethod::Archetype) == 30,
        t1_slot(RawMethod::InvClear) == 8,
        t2_slot(RawMethod::InvClear) == 8,
{
}

/// The fingerprint archetypes tell the games apart: Garrett with
/// MechCherub is Thief 2, Garrett alone Thief 1, The Player without
/// Garrett System Shock 2; with neither Garrett nor The Player the game is
/// unknown. The probes look up `Garrett`, `MechCherub` and `The Player`.
pub proof fn lemma_fingerprint_table(g: bool, m: bool, p: bool)
    ensures
        g && m ==> fingerprint(g, m, p) == Some(GameVersion::T2),
        g && !m ==> fingerprint(g, m, p) == Some(GameVersion::T1),
        !g && p ==> fingerprint(g, m, p) == Some(GameVersion::SS2),
        !g && !p ==> fingerprint(g, m, p) is None,
        probe_name_spec(GameProbe::Garrett) == "Garrett"@,
        probe_name_spec(GameProbe::MechCherub) == "MechCherub"@,
        probe_name_spec(GameProbe::ThePlayer) == "The Player"@,
{
}

/// An object reference from a raw engine reply, where 0 means none.
pub fn object_from_raw(raw: i32) -> (r: Option<ObjectId>)
    ensures
        raw != 0 ==> r == Some(ObjectId(raw)),
        raw == 0 ==> r is None,
{
    if raw != 0 {
        Some(ObjectId(raw))
    } else {
        None
    }
}

/// A link from a raw engine reply, where 0 means none.
pub fn link_from_raw(raw: i32) -> (r: Option<LinkId>)
    ensures
        raw != 0 ==> r == Some(LinkId(raw)),
        raw == 0 ==> r is None,
{
    if raw != 0 {
        Some(LinkId(raw))
    } else {
        None
    }
}

/// A link kind from a raw engine reply, where 0 means the name is unknown.
pub fn link_kind_from_raw(raw: i32) -> (r: Option<LinkKind>)
    ensures
        raw != 0 ==> r == Some(LinkKind(raw)),
        raw == 0 ==> r is None,
{
    if raw != 0 {
        Some(LinkKind(raw))
    } else {
        None
    }
}

/// A reaction ID from a raw engine reply, where 0 means the name is unknown.
pub fn reaction_from_raw(raw: i32) -> (r: Option<i32>)
    ensures
        raw != 0 ==> r == Some(raw),
        raw == 0 ==> r is None,
{
    if raw != 0 {
        Some(raw)
    } else {
        None
    }
}

/// The raw form of an optional object argument: its ID, or 0 for none.
pub fn object_or_zero(obj: Option<ObjectId>) -> (r: i32)
    ensures
        r == match obj {
            Some(o) => o.0,
            None => 0,
        },
{
    match obj {
        Some(o) => o.0,
        None => 0,
    }
}

/// COM's success rule (`SUCCEEDED`): a status code succeeds when it is not negative.
pub open spec fn succeeded(hr: i32) -> bool {
    hr >= 0
}

/// The `S_FALSE` status: success, with nothing to report.
pub const S_FALSE: i32 = 1;

/// COM status codes: a code succeeds exactly when it is not negative, so
/// `S_OK` (0) and `S_FALSE` (1) succeed and every error code (high bit set)
/// fails.
pub proof fn lemma_com_status(hr: i32)
    ensures
        S_FALSE == 1,
        succeeded(0),
        succeeded(S_FALSE),
        hr < 0 ==> !succeeded(hr),
        hr >= 0 ==> succeeded(hr),
{
}

/// Whether a COM status code reports success.
pub fn hresult_succeeded(hr: i32) -> (r: bool)
    ensures
        r == succeeded(hr),
{
    hr >= 0
}

/// Text the engine returned, decoded lossily as the service methods do.
pub fn engine_text(bytes: &[u8]) -> (r: String)
    ensures
        r@ == utf8_lossy_chars(bytes@),
        valid_utf8(bytes@) ==> r@ == decode_utf8(bytes@),
{
    utf8_lossy(bytes)
}

/// A looked-up name: nothing when it is empty.
pub fn name_if_nonempty(text: String) -> (r: Option<String>)
    ensures
        text@.len() == 0 ==> r is None,
        text@.len() > 0 ==> r == Some(text),
{
    if text.as_str().is_empty() {
        None
    } else {
        Some(text)
    }
}

/// A name looked up through the engine: nothing for a null reply or an
/// empty name, otherwise the lossily decoded text.
pub fn engine_name(bytes: Option<&[u8]>) -> (r: Option<String>)
    ensures
        bytes is None ==> r is None,
        bytes matches Some(b) ==> (utf8_lossy_chars(b@).len() == 0 ==> r is None),
        bytes matches Some(b) ==> (utf8_lossy_chars(b@).len() > 0 ==> (r matches Some(s)
            && s@ == utf8_lossy_chars(b@))),
{
    match bytes {
        None => None,
        Some(b) => name_if_nonempty(utf8_lossy(b)),
    }
}

/// A configuration or path lookup: the text when the engine reports that
/// it found the entry.
pub fn found_text(found: bool, bytes: &[u8]) -> (r: Option<String>)
    ensures
        found ==> (r matches Some(s) && s@ == utf8_lossy_chars(bytes@)),
        !found ==> r is None,
{
    if found {
        Some(utf8_lossy(bytes))
    } else {
        None
    }
}

/// The current fan mission name or path from the engine's status and the
/// text it wrote: present when the status succeeded with something to
/// report (not `S_FALSE`).
pub fn fan_mission_result(hr: i32, text: String) -> (r: Option<String>)
    ensures
        succeeded(hr) && hr != S_FALSE ==> r == Some(text),
        !(succeeded(hr) && hr != S_FALSE) ==> r is None,
{
    if hresult_succeeded(hr) && hr != S_FALSE {
        Some(text)
    } else {
        None
    }
}

/// The current fan mission name or path, decoding the engine's text.
pub fn fan_mission_text(hr: i32, bytes: &[u8]) -> (r: Option<String>)
    ensures
        succeeded(hr) && hr != S_FALSE ==> (r matches Some(s) && s@ == utf8_lossy_chars(bytes@)),
        !(succeeded(hr) && hr != S_FALSE) ==> r is None,
{
    fan_mission_result(hr, utf8_lossy(bytes))
}

/// A link record read by `LinkGet`, kept only when the status succeeded.
pub fn link_if_found(hr: i32, link: sLink) -> (r: Option<sLink>)
    ensures
        succeeded(hr) ==> r == Some(link),
        !succeeded(hr) ==> r is None,
{
    if hresult_succeeded(hr) {
        Some(link)
    } else {
        None
    }
}

/// Whether reading a property leaves an engine string buffer to free:
/// exactly when the value was read as a string copied from its address.
/// A float also arrives tagged 2, with bits that are no address; it is
/// read as undefined and nothing is freed.
pub fn leaves_engine_string(parm: &sMultiParm) -> (r: bool)
    ensures
        r == holds_string_address(*parm),
{
    MultiParm::reads_string(parm)
}

/// A property read frees an engine buffer exactly when the value held a
/// non-null address and was read as a string copied from it.
pub proof fn lemma_freed_only_after_string_copy(parm: sMultiParm, pointee: Seq<u8>)
    ensures
        holds_string_address(parm) <==> (parm.val != 0 && multi_parm_from_raw(parm, pointee) is String),
        holds_string_address(parm) ==> multi_parm_from_raw(parm, pointee) == MultiParmView::String(pointee),
{
}

/// The integer of a property value, if it is an integer.
pub fn property_int(value: Option<MultiParm>) -> (r: Option<i32>)
    ensures
        r == match value {
            Some(v) => match v@ {
                MultiParmView::Int(i) => Some(i),
                _ => None,
            },
            None => None,
        },
{
    match value {
        Some(MultiParm::Int(v)) => Some(v),
        _ => None,
    }
}

/// The text of a property value, if it is a string holding UTF-8.
pub fn property_text(value: Option<MultiParm>) -> (r: Option<String>)
    ensures
        r is Some <==> (value matches Some(v) && v@ matches MultiParmView::String(b) && valid_utf8(
            b,
        )),
        r matches Some(s) ==> (value matches Some(v) && v@ matches MultiParmView::String(b)
            && s@ == decode_utf8(b)),
{
    match value {
        Some(MultiParm::String(bytes)) => match utf8_str(bytes.as_slice()) {
            Some(s) => Some(s.to_owned()),
            None => None,
        },
        _ => None,
    }
}

/// The inventory type named by an object's `InvType` property value.
pub fn property_inv_type(value: Option<MultiParm>) -> (r: Option<InventoryType>)
    ensures
        r == match value {
            Some(v) => match v@ {
                MultiParmView::Int(i) => match inventory_type_from_code(i) {
                    Ok(t) => Some(t),
                    Err(_) => None,
                },
                _ => None,
            },
            None => None,
        },
{
    match value {
        Some(MultiParm::Int(v)) => match InventoryType::try_from(v) {
            Ok(t) => Some(t),
            Err(_) => None,
        },
        _ => None,
    }
}

/// Handle to a bitmap loaded via `DarkOverlayService::get_bitmap`.
/// Max 128 bitmaps can be loaded at once; cleared on db reset.
#[derive(Debug, Clone, Copy, PartialEq, Eq, Structural, Hash)]
pub struct BitmapHandle(pub i32);

/// Handle to a transparent overlay item. Max 64 overlays at once; cleared on db reset.
#[derive(Debug, Clone, Copy, PartialEq, Eq, Structural, Hash)]
pub struct OverlayHandle(pub i32);

/// Overlay alpha value (0 = fully transparent, 255 = fully opaque).
#[derive(Debug, Default, Clone, Copy, PartialEq, Eq, Structural, PartialOrd, Ord, Hash)]
pub struct Alpha(pub u8);

impl Alpha {
    /// Fully transparent.
    pub fn transparent() -> (r: Alpha)
        ensures
            r.0 == 0,
    {
        Alpha(0)
    }

    /// Fully opaque.
    pub fn opaque() -> (r: Alpha)
        ensures
            r.0 == 255,
    {
        Alpha(255)
    }
}

/// An RGB color value.
#[derive(Debug, Default, Clone, Copy, PartialEq, Eq, Structural, Hash)]
pub struct Rgb {
    pub r: u8,
    pub g: u8,
    pub b: u8,
}

impl Rgb {
    /// White.
    pub fn white() -> (c: Rgb)
        ensures
            c.r == 255 && c.g == 255 && c.b == 255,
    {
        Rgb { r: 255, g: 255, b: 255 }
    }

    /// Black.
    pub fn black() -> (c: Rgb)
        ensures
            c.r == 0 && c.g == 0 && c.b == 0,
    {
        Rgb { r: 0, g: 0, b: 0 }
    }
}

/// A 2D screen-space point in pixels.
#[derive(Debug, Default, Clone, Copy, PartialEq, Eq, Structural, Hash)]
pub struct ScreenPoint {
    pub x: i32,
    pub y: i32,
}

/// A 2D point within a bitmap, relative to its upper-left origin.
#[derive(Debug, Default, Clone, Copy, PartialEq, Eq, Structural, Hash)]
pub struct BitmapPoint {
    pub x: i32,
    pub y: i32,
}

/// A 2D size in pixels.
#[derive(Debug, Default, Clone, Copy, PartialEq, Eq, Structural, Hash)]
pub struct ScreenSize {
    pub width: i32,
    pub height: i32,
}

/// A 2D screen-space bounding rectangle in pixels.
#[derive(Debug, Default, Clone, Copy, PartialEq, Eq, Structural, Hash)]
pub struct ScreenRect {
    pub x1: i32,
    pub y1: i32,
    pub x2: i32,
    pub y2: i32,
}

impl ScreenRect {
    pub fn width(&self) -> (r: i32)
        requires
            i32::MIN <= self.x2 - self.x1 <= i32::MAX,
        ensures
            r == self.x2 - self.x1,
    {
        self.x2 - self.x1
    }

    pub fn height(&self) -> (r: i32)
        requires
            i32::MIN <= self.y2 - self.y1 <= i32::MAX,
        ensures
            r == self.y2 - self.y1,
    {
        self.y2 - self.y1
    }

    pub fn size(&self) -> (r: ScreenSize)
        requires
            i32::MIN <= self.x2 - self.x1 <= i32::MAX,
            i32::MIN <= self.y2 - self.y1 <= i32::MAX,
        ensures
            r.width == self.x2 - self.x1,
            r.height == self.y2 - self.y1,
    {
        ScreenSize { width: self.width(), height: self.height() }
    }
}

/// A point the engine projected to the screen, kept when it reports the
/// point visible.
pub fn visible_point(visible: bool, x: i32, y: i32) -> (r: Option<ScreenPoint>)
    ensures
        visible ==> r == Some(ScreenPoint { x, y }),
        !visible ==> r is None,
{
    if visible {
        Some(ScreenPoint { x, y })
    } else {
        None
    }
}

/// An object's screen bounds, kept when the engine reports it on screen.
pub fn visible_rect(visible: bool, x1: i32, y1: i32, x2: i32, y2: i32) -> (r: Option<ScreenRect>)
    ensures
        visible ==> r == Some(ScreenRect { x1, y1, x2, y2 }),
        !visible ==> r is None,
{
    if visible {
        Some(ScreenRect { x1, y1, x2, y2 })
    } else {
        None
    }
}

/// Starts iterating a module's script classes: the cursor goes to 0 and
/// the first class is returned when there is one.
pub fn class_iter_first(iter: &mut u32, count: usize) -> (r: Option<usize>)
    ensures
        *final(iter) == 0,
        r == (if 0 < (count as u32) {
            Some(0usize)
        } else {
            None
        }),
{
    *iter = 0;
    if *iter < count as u32 {
        Some(*iter as usize)
    } else {
        None
    }
}

/// Advances the class cursor and returns the class it then points at, if any.
pub fn class_iter_next(iter: &mut u32, count: usize) -> (r: Option<usize>)
    requires
        *old(iter) < u32::MAX,
    ensures
        *final(iter) == *old(iter) + 1,
        r == (if *final(iter) < (count as u32) {
            Some(*final(iter) as usize)
        } else {
            None
        }),
{
    *iter = *iter + 1;
    if *iter < count as u32 {
        Some(*iter as usize)
    } else {
        None
    }
}

/// How the key should be used when testing against a lock.
#[derive(Debug, Clone, Copy, PartialEq, Eq, Structural)]
pub enum KeyUseMode {
    Default,
    Open,
    Close,
    Check,
}

/// The raw engine code of each `KeyUseMode`.
pub open spec fn key_use_mode_code(v: KeyUseMode) -> i32 {
    match v {
        KeyUseMode::Default => 0,
        KeyUseMode::Open => 1,
        KeyUseMode::Close => 2,
        KeyUseMode::Check => 3,
    }
}

/// The engine's key-use codes: Default 0, Open 1, Close 2, Check 3; no two
/// modes share a code.
pub proof fn lemma_key_use_mode_engine_codes()
    ensures
        key_use_mode_code(KeyUseMode::Default) == 0,
        key_use_mode_code(KeyUseMode::Open) == 1,
        key_use_mode_code(KeyUseMode::Close) == 2,
        key_use_mode_code(KeyUseMode::Check) == 3,
        forall|a: KeyUseMode, b: KeyUseMode| #[trigger] key_use_mode_code(a) == #[trigger] key_use_mode_code(b) ==> a == b,
{
}

impl KeyUseMode {
    /// The raw engine code of this value.
    pub fn code(self) -> (r: i32)
        ensures
            r == key_use_mode_code(self),
    {
        match self {
            KeyUseMode::Default => 0,
            KeyUseMode::Open => 1,
            KeyUseMode::Close => 2,
            KeyUseMode::Check => 3,
        }
    }
}

/// Dark Engine weapon type (`eDarkWeaponType`), used by `WeaponService::equip`.
/// `Sword` covers all non-blackjack melee weapons (sword, dagger, etc.).
#[derive(Debug, Clone, Copy, PartialEq, Eq, Structural)]
pub enum WeaponType {
    Sword,
    Blackjack,
}

/// The raw engine code of each `WeaponType`.
pub open spec fn weapon_type_code(v: WeaponType) -> i32 {
    match v {
        WeaponType::Sword => 0,
        WeaponType::Blackjack => 1,
    }
}

/// The `WeaponType` a raw engine code names; any other code is handed back.
pub open spec fn weapon_type_from_code(c: i32) -> Result<WeaponType, i32> {
    if c == 0 {
        Ok(WeaponType::Sword)
    } else if c == 1 {
        Ok(WeaponType::Blackjack)
    } else {
        Err(c)
    }
}

/// Every `WeaponType` is read back from its code, and a code that reads as a
/// `WeaponType` is that value's code.
pub proof fn lemma_weapon_type_code_round_trip(v: WeaponType, c: i32)
    ensures
        weapon_type_from_code(weapon_type_code(v)) == Ok::<WeaponType, i32>(v),
        weapon_type_from_code(c) matches Ok(w) ==> weapon_type_code(w) == c,
        weapon_type_from_code(c) matches Err(e) ==> e == c,
{
}

/// The engine's `eDarkWeaponType` codes: Sword 0, Blackjack 1.
/// Exactly the codes 0 to 1 name a value.
pub proof fn lemma_weapon_type_engine_codes(c: i32)
    ensures
        weapon_type_code(WeaponType::Sword) == 0,
        weapon_type_code(WeaponType::Blackjack) == 1,
        weapon_type_from_code(c) is Ok <==> 0 <= c <= 1,
{
}

impl TryFrom<i32> for WeaponType {
    type Error = i32;

    fn try_from(v: i32) -> (r: Result<Self, i32>) {
        match v {
            0 => Ok(WeaponType::Sword),
            1 => Ok(WeaponType::Blackjack),
            _ => Err(v),
        }
    }
}

impl TryFromSpecImpl<i32> for WeaponType {
    open spec fn obeys_try_from_spec() -> bool {
        true
    }

    open spec fn try_from_spec(v: i32) -> Result<Self, i32> {
        weapon_type_from_code(v)
    }
}

impl WeaponType {
    /// The raw engine code of this value.
    pub fn code(self) -> (r: i32)
        ensures
            r == weapon_type_code(self),
    {
        match self {
            WeaponType::Sword => 0,
            WeaponType::Blackjack => 1,
        }
    }
}

/// Dark Engine inventory type, from the `InvType` property.
#[derive(Debug, Clone, Copy, PartialEq, Eq, Structural)]
pub enum InventoryType {
    /// Not a real inventory item (carried objects, bodies, loot).
    Junk,
    /// Usable inventory item (keys, potions, tools, etc.).
    Item,
    /// Weapon (sword, blackjack, bow).
    Weapon,
}

/// The raw engine code of each `InventoryType`.
pub open spec fn inventory_type_code(v: InventoryType) -> i32 {
    match v {
        InventoryType::Junk => 0,
        InventoryType::Item => 1,
        InventoryType::Weapon => 2,
    }
}

/// The `InventoryType` a raw engine code names; any other code is handed back.
pub open spec fn inventory_type_from_code(c: i32) -> Result<InventoryType, i32> {
    if c == 0 {
        Ok(InventoryType::Junk)
    } else if c == 1 {
        Ok(InventoryType::Item)
    } else if c == 2 {
        Ok(InventoryType::Weapon)
    } else {
        Err(c)
    }
}

/// Every `InventoryType` is read back from its code, and a code that reads as a
/// `InventoryType` is that value's code.
pub proof fn lemma_inventory_type_code_round_trip(v: InventoryType, c: i32)
    ensures
        inventory_type_from_code(inventory_type_code(v)) == Ok::<InventoryType, i32>(v),
        inventory_type_from_code(c) matches Ok(w) ==> inventory_type_code(w) == c,
        inventory_type_from_code(c) matches Err(e) ==> e == c,
{
}

/// The engine's `InvType` codes: Junk 0, Item 1, Weapon 2.
/// Exactly the codes 0 to 2 name a value.
pub proof fn lemma_inventory_type_engine_codes(c: i32)
    ensures
        inventory_type_code(InventoryType::Junk) == 0,
        inventory_type_code(InventoryType::Item) == 1,
        inventory_type_code(InventoryType::Weapon) == 2,
        inventory_type_from_code(c) is Ok <==> 0 <= c <= 2,
{
}

impl TryFrom<i32> for InventoryType {
    type Error = i32;

    fn try_from(v: i32) -> (r: Result<Self, i32>) {
        match v {
            0 => Ok(InventoryType::Junk),
            1 => Ok(InventoryType::Item),
            2 => Ok(InventoryType::Weapon),
            _ => Err(v),
        }
    }
}

impl TryFromSpecImpl<i32> for InventoryType {
    open spec fn obeys_try_from_spec() -> bool {
        true
    }

    open spec fn try_from_spec(v: i32) -> Result<Self, i32> {
        inventory_type_from_code(v)
    }
}

impl InventoryType {
    /// The raw engine code of this value.
    pub fn code(self) -> (r: i32)
        ensures
            r == inventory_type_code(self),
    {
        match self {
            InventoryType::Junk => 0,
            InventoryType::Item => 1,
            InventoryType::Weapon => 2,
        }
    }
}

/// Containment type returned by `ContainerService::is_held`.
#[derive(Debug, Clone, Copy, PartialEq, Eq, Structural)]
pub enum ContainType {
    Generic,
    Hand,
    Belt,
    Alt,
}

/// The raw engine code of each `ContainType`.
pub open spec fn contain_type_code(v: ContainType) -> i32 {
    match v {
        ContainType::Generic => 0,
        ContainType::Hand => 1,
        ContainType::Belt => 2,
        ContainType::Alt => 3,
    }
}

/// The `ContainType` a raw engine code names; any other code is handed back.
pub open spec fn contain_type_from_code(c: i32) -> Result<ContainType, i32> {
    if c == 0 {
        Ok(ContainType::Generic)
    } else if c == 1 {
        Ok(ContainType::Hand)
    } else if c == 2 {
        Ok(ContainType::Belt)
    } else if c == 3 {
        Ok(ContainType::Alt)
    } else {
        Err(c)
    }
}

/// Every `ContainType` is read back from its code, and a code that reads as a
/// `ContainType` is that value's code.
pub proof fn lemma_contain_type_code_round_trip(v: ContainType, c: i32)
    ensures
        contain_type_from_code(contain_type_code(v)) == Ok::<ContainType, i32>(v),
        contain_type_from_code(c) matches Ok(w) ==> contain_type_code(w) == c,
        contain_type_from_code(c) matches Err(e) ==> e == c,
{
}

/// The engine's containment codes: Generic 0, Hand 1, Belt 2, Alt 3; -1 (not held) names none.
/// Exactly the codes 0 to 3 name a value.
pub proof fn lemma_contain_type_engine_codes(c: i32)
    ensures
        contain_type_code(ContainType::Generic) == 0,
        contain_type_code(ContainType::Hand) == 1,
        contain_type_code(ContainType::Belt) == 2,
        contain_type_code(ContainType::Alt) == 3,
        contain_type_from_code(c) is Ok <==> 0 <= c <= 3,
{
}

impl TryFrom<i32> for ContainType {
    type Error = i32;

    fn try_from(v: i32) -> (r: Result<Self, i32>) {
        match v {
            0 => Ok(ContainType::Generic),
            1 => Ok(ContainType::Hand),
            2 => Ok(ContainType::Belt),
            3 => Ok(ContainType::Alt),
            _ => Err(v),
        }
    }
}

impl TryFromSpecImpl<i32> for ContainType {
    open spec fn obeys_try_from_spec() -> bool {
        true
    }

    open spec fn try_from_spec(v: i32) -> Result<Self, i32> {
        contain_type_from_code(v)
    }
}

impl ContainType {
    /// The raw engine code of this value.
    pub fn code(self) -> (r: i32)
        ensures
            r == contain_type_code(self),
    {
        match self {
            ContainType::Generic => 0,
            ContainType::Hand => 1,
            ContainType::Belt => 2,
            ContainType::Alt => 3,
        }
    }
}

/// Which inventory selection to clear.
#[derive(Debug, Clone, Copy, PartialEq, Eq, Structural)]
pub enum WhichInvObj {
    CurrentWeapon,
    CurrentItem,
}

/// The raw engine code of each `WhichInvObj`.
pub open spec fn which_inv_obj_code(v: WhichInvObj) -> i32 {
    match v {
        WhichInvObj::CurrentWeapon => 0,
        WhichInvObj::CurrentItem => 1,
    }
}

/// The engine's inventory-slot codes: the current weapon is 0, the current
/// item 1.
pub proof fn lemma_which_inv_obj_engine_codes()
    ensures
        which_inv_obj_code(WhichInvObj::CurrentWeapon) == 0,
        which_inv_obj_code(WhichInvObj::CurrentItem) == 1,
{
}

impl WhichInvObj {
    /// The raw engine code of this value.
    pub fn code(self) -> (r: i32)
        ensures
            r == which_inv_obj_code(self),
    {
        match self {
            WhichInvObj::CurrentWeapon => 0,
            WhichInvObj::CurrentItem => 1,
        }
    }
}

/// The containment of a (container, containee) pair from the engine's raw
/// reply; the engine answers -1 when the containee is not held.
pub fn contain_type_from_raw(raw: i32) -> (r: Option<ContainType>)
    ensures
        r == match contain_type_from_code(raw) {
            Ok(t) => Some(t),
            Err(_) => None,
        },
{
    match ContainType::try_from(raw) {
        Ok(t) => Some(t),
        Err(_) => None,
    }
}

} // verus!

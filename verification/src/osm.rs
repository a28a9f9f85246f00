//! Typed views of Dark Engine values: object, link and link-kind
//! identifiers, the `cMultiParm` discriminated union, link records, and the
//! action and state codes carried by script messages.
#![allow(non_camel_case_types)]
use vstd::prelude::*;
use vstd::std_specs::convert::{FromSpecImpl, TryFromSpecImpl};
use vstd::utf8::{decode_utf8, encode_utf8, valid_utf8};
use crate::text::{has_nul, i32_to_decimal, signed_decimal, text_or, text_or_spec, utf8_str};
use crate::bundle::c_bytes;

verus! {

/// Dark Engine object identifier. Wraps a raw `i32` for type safety.
///
/// - Negative values are archetypes (e.g. Weapon = -30)
/// - Positive values are concrete objects (e.g. a specific sword instance)
/// - Zero means "no object" or "any" (wildcard in link queries)
#[derive(Debug, Clone, Copy, PartialEq, Eq, Structural, Hash)]
pub struct ObjectId(pub i32);

impl ObjectId {
    /// Returns `true` if this is an archetype (negative ID).
    pub fn is_archetype(self) -> (r: bool)
        ensures
            r == (self.0 < 0),
    {
        self.0 < 0
    }

    /// Returns `true` if this is a concrete object (positive ID).
    pub fn is_concrete(self) -> (r: bool)
        ensures
            r == (self.0 > 0),
    {
        self.0 > 0
    }

    /// The ID in decimal, as `{}` prints it.
    pub fn to_string(&self) -> (r: String)
        ensures
            r@ == signed_decimal(self.0 as int),
    {
        i32_to_decimal(self.0)
    }
}

/// Dark Engine link instance identifier. Zero means "no link".
#[derive(Debug, Clone, Copy, PartialEq, Eq, Structural, Hash)]
pub struct LinkId(pub i32);

impl LinkId {
    /// The ID in decimal, as `{}` prints it.
    pub fn to_string(&self) -> (r: String)
        ensures
            r@ == signed_decimal(self.0 as int),
    {
        i32_to_decimal(self.0)
    }
}

/// Dark Engine link flavor/relation type (e.g. "Contains", "~ControlDevice").
/// Zero means "any flavor" (wildcard in link queries).
#[derive(Debug, Clone, Copy, PartialEq, Eq, Structural, Hash)]
pub struct LinkKind(pub i32);

impl LinkKind {
    /// The kind in decimal, as `{}` prints it.
    pub fn to_string(&self) -> (r: String)
        ensures
            r@ == signed_decimal(self.0 as int),
    {
        i32_to_decimal(self.0)
    }
}

/// Type discriminant for [`sMultiParm`].
///
/// The engine uses `t = 0` (undef) and `t = 1` (int) interchangeably for integer
/// values (HitPoints, for one, comes back with `t = 1`), and `t = 2` for strings.
/// Both 0 and 1 are treated as Int.
#[derive(Debug, Clone, Copy, PartialEq, Eq, Structural)]
pub enum MultiParmType {
    /// Untyped / integer — the engine uses 0 for integers.
    Int,
    /// String — the engine uses 2 for string values from property Get.
    String,
    /// Object reference (same representation as integer).
    Object,
}

/// The raw discriminant of each type.
pub open spec fn multi_parm_type_code(t: MultiParmType) -> i32 {
    match t {
        MultiParmType::Int => 0,
        MultiParmType::String => 2,
        MultiParmType::Object => 5,
    }
}

/// How a raw discriminant reads: 0 and 1 are Int, 2 is String, 5 is Object,
/// anything else is unknown.
pub open spec fn multi_parm_type_from_code(t: i32) -> Option<MultiParmType> {
    if t == 0 || t == 1 {
        Some(MultiParmType::Int)
    } else if t == 2 {
        Some(MultiParmType::String)
    } else if t == 5 {
        Some(MultiParmType::Object)
    } else {
        None
    }
}

/// Reading a type's own discriminant gives the type back.
pub proof fn lemma_multi_parm_type_code_round_trip(k: MultiParmType)
    ensures
        multi_parm_type_from_code(multi_parm_type_code(k)) == Some(k),
{
}

/// The engine's `cMultiParm` type tags: Int is written as 0 and read from
/// 0 or 1, String is 2, Object is 5; every other tag names no type.
pub proof fn lemma_multi_parm_type_engine_tags(t: i32)
    ensures
        multi_parm_type_code(MultiParmType::Int) == 0,
        multi_parm_type_code(MultiParmType::String) == 2,
        multi_parm_type_code(MultiParmType::Object) == 5,
        multi_parm_type_from_code(0) == Some(MultiParmType::Int),
        multi_parm_type_from_code(1) == Some(MultiParmType::Int),
        multi_parm_type_from_code(t) is Some <==> (t == 0 || t == 1 || t == 2 || t == 5),
{
}

impl MultiParmType {
    /// Convert from raw `c_int`: 0 and 1 give Int, 2 String, 5 Object;
    /// `None` for unknown discriminants.
    pub fn from_raw(t: i32) -> (r: Option<Self>)
        ensures
            r == multi_parm_type_from_code(t),
    {
        match t {
            0 | 1 => Some(Self::Int),
            2 => Some(Self::String),
            5 => Some(Self::Object),
            _ => None,
        }
    }

    /// The raw discriminant (`0`, `2` or `5`).
    pub fn code(self) -> (r: i32)
        ensures
            r == multi_parm_type_code(self),
    {
        match self {
            Self::Int => 0,
            Self::String => 2,
            Self::Object => 5,
        }
    }
}

/// The raw `cMultiParm` as it crosses the engine boundary: a value that is an
/// integer or a string address, and a type tag.
#[derive(Copy, Clone, Debug)]
pub struct sMultiParm {
    pub val: i32,
    pub t: i32,
}

impl sMultiParm {
    /// An integer parameter, as the engine expects an int-typed value.
    pub fn from_int(val: i32) -> (r: sMultiParm)
        ensures
            r.val == val,
            r.t == 0,
    {
        sMultiParm { val, t: 0 }
    }
}

/// Lowest address accepted as a string pointer.
pub const STRING_ADDRESS_MIN: u32 = 0x10000;

/// First address past the user address range.
pub const STRING_ADDRESS_END: u32 = 0x80000000;

/// True when a string-tagged value holds an address that may be read as a C
/// string. The engine also tags floats with `t = 2`, so the value must lie in
/// the user address range before it is dereferenced.
pub open spec fn holds_string_address(parm: sMultiParm) -> bool {
    &&& parm.t == 2
    &&& parm.val != 0
    &&& STRING_ADDRESS_MIN <= (parm.val as u32) < STRING_ADDRESS_END
}

/// A typed engine value, as contracts see it.
pub enum MultiParmView {
    Int(i32),
    String(Seq<u8>),
    Object(ObjectId),
    Undefined { t: i32, val: i32 },
}

/// Type-safe wrapper for the Dark Engine's `cMultiParm` discriminated union.
///
/// A string value holds the bytes of the C string, without its terminator.
#[derive(Debug)]
pub enum MultiParm {
    /// Untyped / integer value (`t = 0`).
    Int(i32),
    /// Owned string value, copied from the engine's buffer.
    String(Vec<u8>),
    /// Object reference (same as integer, but semantically an object ID).
    Object(ObjectId),
    /// Unknown or undefined type — preserves both the type discriminant and raw value.
    Undefined { t: i32, val: i32 },
}

impl View for MultiParm {
    type V = MultiParmView;

    open spec fn view(&self) -> MultiParmView {
        match self {
            MultiParm::Int(v) => MultiParmView::Int(*v),
            MultiParm::String(b) => MultiParmView::String(b@),
            MultiParm::Object(o) => MultiParmView::Object(*o),
            MultiParm::Undefined { t, val } => MultiParmView::Undefined { t: *t, val: *val },
        }
    }
}

/// How a raw engine value reads as a typed one. `pointee` is the C string at
/// the value's address, read only when the value holds a string address.
pub open spec fn multi_parm_from_raw(parm: sMultiParm, pointee: Seq<u8>) -> MultiParmView {
    if parm.t == 0 || parm.t == 1 {
        MultiParmView::Int(parm.val)
    } else if parm.t == 2 {
        if parm.val == 0 {
            MultiParmView::String(Seq::empty())
        } else if holds_string_address(parm) {
            MultiParmView::String(pointee)
        } else {
            MultiParmView::Undefined { t: parm.t, val: parm.val }
        }
    } else if parm.t == 5 {
        MultiParmView::Object(ObjectId(parm.val))
    } else {
        MultiParmView::Undefined { t: parm.t, val: parm.val }
    }
}

/// How each tag reads, over all raw values: tags 0 and 1 give an integer
/// and 5 an object, carrying the value unchanged; tag 2 gives a string,
/// empty for a null value and the C string at the address when the value
/// lies in the user address range 0x10000..0x80000000; a tag-2 value
/// elsewhere (a float's bits) and every other tag stay undefined, keeping
/// tag and value.
pub proof fn lemma_multi_parm_tags(parm: sMultiParm, pointee: Seq<u8>)
    ensures
        (parm.t == 0 || parm.t == 1) ==> multi_parm_from_raw(parm, pointee) == MultiParmView::Int(parm.val),
        parm.t == 5 ==> multi_parm_from_raw(parm, pointee) == MultiParmView::Object(ObjectId(parm.val)),
        parm.t == 2 && parm.val == 0 ==> multi_parm_from_raw(parm, pointee) == MultiParmView::String(
            Seq::empty(),
        ),
        parm.t == 2 && parm.val != 0 && 0x10000 <= (parm.val as u32) < 0x80000000 ==> multi_parm_from_raw(
            parm,
            pointee,
        ) == MultiParmView::String(pointee),
        parm.t == 2 && parm.val != 0 && !(0x10000 <= (parm.val as u32) < 0x80000000) ==> multi_parm_from_raw(
            parm,
            pointee,
        ) == (MultiParmView::Undefined { t: 2, val: parm.val }),
        !(parm.t == 0 || parm.t == 1 || parm.t == 2 || parm.t == 5) ==> multi_parm_from_raw(parm, pointee)
            == (MultiParmView::Undefined { t: parm.t, val: parm.val }),
        holds_string_address(parm) <==> (parm.t == 2 && parm.val != 0 && 0x10000 <= (parm.val as u32)
            < 0x80000000),
{
}

/// Typed values go to the engine with the tags it reads: an integer as 0,
/// a string as 2 at its address, an object as 5; an undefined value keeps
/// its own tag and value.
pub proof fn lemma_multi_parm_raw_tags(p: MultiParmView, string_address: i32)
    ensures
        p matches MultiParmView::Int(v) ==> multi_parm_into_raw(p, string_address) == (sMultiParm { val: v, t: 0 }),
        p matches MultiParmView::String(_) ==> multi_parm_into_raw(p, string_address) == (sMultiParm {
            val: string_address,
            t: 2,
        }),
        p matches MultiParmView::Object(o) ==> multi_parm_into_raw(p, string_address) == (sMultiParm { val: o.0, t: 5 }),
        p matches MultiParmView::Undefined { t, val } ==> multi_parm_into_raw(p, string_address) == (sMultiParm {
            val,
            t,
        }),
{
}

/// The raw value a typed one turns into; a string goes to the engine at
/// `string_address`.
pub open spec fn multi_parm_into_raw(p: MultiParmView, string_address: i32) -> sMultiParm {
    match p {
        MultiParmView::Int(v) => sMultiParm { val: v, t: 0 },
        MultiParmView::String(_) => sMultiParm { val: string_address, t: 2 },
        MultiParmView::Object(o) => sMultiParm { val: o.0, t: 5 },
        MultiParmView::Undefined { t, val } => sMultiParm { val, t },
    }
}

impl MultiParm {
    /// Whether converting `parm` needs the C string at its address.
    pub fn reads_string(parm: &sMultiParm) -> (r: bool)
        ensures
            r == holds_string_address(*parm),
    {
        parm.t == 2 && parm.val != 0 && STRING_ADDRESS_MIN <= parm.val as u32 && (parm.val as u32)
            < STRING_ADDRESS_END
    }

    /// Convert a raw engine value into a typed [`MultiParm`].
    ///
    /// `pointee` carries the bytes of the C string at `parm.val`; the caller
    /// reads them exactly when [`MultiParm::reads_string`] says so.
    pub fn from_raw(parm: &sMultiParm, pointee: Option<Vec<u8>>) -> (r: MultiParm)
        requires
            pointee is Some <==> holds_string_address(*parm),
        ensures
            r@ == multi_parm_from_raw(
                *parm,
                match pointee {
                    Some(b) => b@,
                    None => Seq::empty(),
                },
            ),
    {
        match parm.t {
            0 | 1 => MultiParm::Int(parm.val),
            2 => {
                if parm.val == 0 {
                    let empty: Vec<u8> = Vec::new();
                    MultiParm::String(empty)
                } else {
                    match pointee {
                        Some(bytes) => MultiParm::String(bytes),
                        None => MultiParm::Undefined { t: parm.t, val: parm.val },
                    }
                }
            },
            5 => MultiParm::Object(ObjectId(parm.val)),
            _ => MultiParm::Undefined { t: parm.t, val: parm.val },
        }
    }

    /// Convert this typed value into a raw [`sMultiParm`] for the engine.
    /// A string is passed by the address at which the caller placed it.
    pub fn into_raw(self, string_address: i32) -> (r: sMultiParm)
        ensures
            r == multi_parm_into_raw(self@, string_address),
    {
        match self {
            MultiParm::Int(v) => sMultiParm { val: v, t: 0 },
            MultiParm::String(_) => sMultiParm { val: string_address, t: 2 },
            MultiParm::Object(id) => sMultiParm { val: id.0, t: 5 },
            MultiParm::Undefined { t, val } => sMultiParm { val, t },
        }
    }

    /// Returns the integer value if this is `Int` or `Object`.
    pub fn as_int(&self) -> (r: Option<i32>)
        ensures
            r == match self@ {
                MultiParmView::Int(v) => Some(v),
                MultiParmView::Object(o) => Some(o.0),
                _ => None,
            },
    {
        match self {
            MultiParm::Int(v) => Some(*v),
            MultiParm::Object(id) => Some(id.0),
            _ => None,
        }
    }

    /// Returns the text if this is a `String` holding UTF-8.
    pub fn as_str(&self) -> (r: Option<&str>)
        ensures
            r is Some <==> (self@ matches MultiParmView::String(b) && valid_utf8(b)),
            r matches Some(s) ==> (self@ matches MultiParmView::String(b) && s@ == decode_utf8(b)),
    {
        match self {
            MultiParm::String(bytes) => utf8_str(bytes.as_slice()),
            _ => None,
        }
    }

    /// A string value holding the text's bytes; text that a C string cannot
    /// hold (an interior NUL) gives the empty string.
    pub fn from_text(s: &str) -> (r: MultiParm)
        ensures
            !has_nul(s@) ==> r@ == MultiParmView::String(encode_utf8(s@)),
            has_nul(s@) ==> r@ == MultiParmView::String(Seq::empty()),
    {
        if crate::text::contains_nul(s) {
            let empty: Vec<u8> = Vec::new();
            MultiParm::String(empty)
        } else {
            MultiParm::String(vstd::slice::slice_to_vec(s.as_bytes()))
        }
    }
}

impl From<i32> for MultiParm {
    fn from(v: i32) -> (r: MultiParm) {
        MultiParm::Int(v)
    }
}

impl FromSpecImpl<i32> for MultiParm {
    open spec fn obeys_from_spec() -> bool {
        true
    }

    open spec fn from_spec(v: i32) -> MultiParm {
        MultiParm::Int(v)
    }
}

impl From<ObjectId> for MultiParm {
    fn from(id: ObjectId) -> (r: MultiParm) {
        MultiParm::Object(id)
    }
}

impl FromSpecImpl<ObjectId> for MultiParm {
    open spec fn obeys_from_spec() -> bool {
        true
    }

    open spec fn from_spec(id: ObjectId) -> MultiParm {
        MultiParm::Object(id)
    }
}

/// A raw value read into a typed one and written back comes out unchanged,
/// except that the integer tag 1 is written as 0 (the engine treats both as
/// integers); a string goes back at the address it was read from.
pub proof fn lemma_raw_value_round_trip(parm: sMultiParm, pointee: Seq<u8>)
    ensures
        multi_parm_into_raw(multi_parm_from_raw(parm, pointee), parm.val) == (sMultiParm {
            val: parm.val,
            t: if parm.t == 1 {
                0
            } else {
                parm.t
            },
        }),
{
}

/// A typed value written out and read back is unchanged when its raw form
/// reads back as the same kind: always for integers and objects; for an
/// `Undefined` value whose tag the engine does not interpret; for a string
/// placed at a readable address. An `Undefined` value round-trips exactly
/// when its tag is not read as an integer, object or string.
pub proof fn lemma_typed_value_round_trip(p: MultiParmView, string_address: i32)
    ensures
        p matches MultiParmView::Int(_) ==> multi_parm_from_raw(
            multi_parm_into_raw(p, string_address),
            Seq::empty(),
        ) == p,
        p matches MultiParmView::Object(_) ==> multi_parm_from_raw(
            multi_parm_into_raw(p, string_address),
            Seq::empty(),
        ) == p,
        p matches MultiParmView::Undefined { t, val } ==> (multi_parm_from_raw(
            multi_parm_into_raw(p, string_address),
            Seq::empty(),
        ) == p <==> (t != 0 && t != 1 && t != 5 && !(t == 2 && (val == 0
            || holds_string_address(sMultiParm { val, t }))))),
        p matches MultiParmView::String(b) ==> (holds_string_address(
            multi_parm_into_raw(p, string_address),
        ) ==> multi_parm_from_raw(multi_parm_into_raw(p, string_address), b) == p),
{
}

/// A link record: source object, destination object and relation.
#[derive(Debug, Copy, Clone)]
pub struct sLink {
    pub source: ObjectId,
    pub dest: ObjectId,
    pub flavor: LinkKind,
}

/// A link entry from a link query, combining the link instance ID with full link data.
#[derive(Debug, Clone, Copy)]
pub struct LinkEntry {
    pub id: LinkId,
    pub source: ObjectId,
    pub dest: ObjectId,
    pub flavor: LinkKind,
}

impl LinkEntry {
    /// The entry for one step of a link query: the link's ID and its record.
    pub fn from_link(id: LinkId, link: sLink) -> (r: LinkEntry)
        ensures
            r.id == id,
            r.source == link.source,
            r.dest == link.dest,
            r.flavor == link.flavor,
    {
        LinkEntry { id, source: link.source, dest: link.dest, flavor: link.flavor }
    }
}

/// Text carried by a message field: the C string's UTF-8 text, or empty
/// for a null pointer or bytes that are not UTF-8.
pub fn message_text(bytes: Option<&[u8]>) -> (r: String)
    ensures
        r@ == text_or_spec(c_bytes(bytes), Seq::empty()),
{
    proof {
        reveal_strlit("");
    }
    text_or(bytes, "")
}

/// Door actions, received in `sDoorMsg` script messages.
#[derive(Debug, Clone, Copy, PartialEq, Eq, Structural)]
pub enum DoorAction {
    Open,
    Close,
    Opening,
    Closing,
    Halt,
}

/// The raw engine code of each `DoorAction`.
pub open spec fn door_action_code(v: DoorAction) -> i32 {
    match v {
        DoorAction::Open => 0,
        DoorAction::Close => 1,
        DoorAction::Opening => 2,
        DoorAction::Closing => 3,
        DoorAction::Halt => 4,
    }
}

/// The `DoorAction` a raw engine code names; any other code is handed back.
pub open spec fn door_action_from_code(c: i32) -> Result<DoorAction, i32> {
    if c == 0 {
        Ok(DoorAction::Open)
    } else if c == 1 {
        Ok(DoorAction::Close)
    } else if c == 2 {
        Ok(DoorAction::Opening)
    } else if c == 3 {
        Ok(DoorAction::Closing)
    } else if c == 4 {
        Ok(DoorAction::Halt)
    } else {
        Err(c)
    }
}

/// Every `DoorAction` is read back from its code, and a code that reads as a
/// `DoorAction` is that value's code.
pub proof fn lemma_door_action_code_round_trip(v: DoorAction, c: i32)
    ensures
        door_action_from_code(door_action_code(v)) == Ok::<DoorAction, i32>(v),
        door_action_from_code(c) matches Ok(w) ==> door_action_code(w) == c,
        door_action_from_code(c) matches Err(e) ==> e == c,
{
}

/// The engine's door action codes in `sDoorMsg`: Open 0, Close 1, Opening 2, Closing 3, Halt 4.
/// Exactly the codes 0 to 4 name a value.
pub proof fn lemma_door_action_engine_codes(c: i32)
    ensures
        door_action_code(DoorAction::Open) == 0,
        door_action_code(DoorAction::Close) == 1,
        door_action_code(DoorAction::Opening) == 2,
        door_action_code(DoorAction::Closing) == 3,
        door_action_code(DoorAction::Halt) == 4,
        door_action_from_code(c) is Ok <==> 0 <= c <= 4,
{
}

impl TryFrom<i32> for DoorAction {
    type Error = i32;

    fn try_from(v: i32) -> (r: Result<Self, i32>) {
        match v {
            0 => Ok(DoorAction::Open),
            1 => Ok(DoorAction::Close),
            2 => Ok(DoorAction::Opening),
            3 => Ok(DoorAction::Closing),
            4 => Ok(DoorAction::Halt),
            _ => Err(v),
        }
    }
}

impl TryFromSpecImpl<i32> for DoorAction {
    open spec fn obeys_try_from_spec() -> bool {
        true
    }

    open spec fn try_from_spec(v: i32) -> Result<Self, i32> {
        door_action_from_code(v)
    }
}

impl DoorAction {
    /// The raw engine code of this value.
    pub fn code(self) -> (r: i32)
        ensures
            r == door_action_code(self),
    {
        match self {
            DoorAction::Open => 0,
            DoorAction::Close => 1,
            DoorAction::Opening => 2,
            DoorAction::Closing => 3,
            DoorAction::Halt => 4,
        }
    }
}

/// Door states, returned by `DoorService::get_door_state`.
/// The engine returns 5 if the object is not a door.
#[derive(Debug, Clone, Copy, PartialEq, Eq, Structural)]
pub enum DoorState {
    Closed,
    Open,
    Closing,
    Opening,
    Halted,
}

/// The raw engine code of each `DoorState`.
pub open spec fn door_state_code(v: DoorState) -> i32 {
    match v {
        DoorState::Closed => 0,
        DoorState::Open => 1,
        DoorState::Closing => 2,
        DoorState::Opening => 3,
        DoorState::Halted => 4,
    }
}

/// The `DoorState` a raw engine code names; any other code is handed back.
pub open spec fn door_state_from_code(c: i32) -> Result<DoorState, i32> {
    if c == 0 {
        Ok(DoorState::Closed)
    } else if c == 1 {
        Ok(DoorState::Open)
    } else if c == 2 {
        Ok(DoorState::Closing)
    } else if c == 3 {
        Ok(DoorState::Opening)
    } else if c == 4 {
        Ok(DoorState::Halted)
    } else {
        Err(c)
    }
}

/// Every `DoorState` is read back from its code, and a code that reads as a
/// `DoorState` is that value's code.
pub proof fn lemma_door_state_code_round_trip(v: DoorState, c: i32)
    ensures
        door_state_from_code(door_state_code(v)) == Ok::<DoorState, i32>(v),
        door_state_from_code(c) matches Ok(w) ==> door_state_code(w) == c,
        door_state_from_code(c) matches Err(e) ==> e == c,
{
}

/// The engine's door states: Closed 0, Open 1, Closing 2, Opening 3, Halted 4; the 5 it gives for a non-door names none.
/// Exactly the codes 0 to 4 name a value.
pub proof fn lemma_door_state_engine_codes(c: i32)
    ensures
        door_state_code(DoorState::Closed) == 0,
        door_state_code(DoorState::Open) == 1,
        door_state_code(DoorState::Closing) == 2,
        door_state_code(DoorState::Opening) == 3,
        door_state_code(DoorState::Halted) == 4,
        door_state_from_code(c) is Ok <==> 0 <= c <= 4,
{
}

impl TryFrom<i32> for DoorState {
    type Error = i32;

    fn try_from(v: i32) -> (r: Result<Self, i32>) {
        match v {
            0 => Ok(DoorState::Closed),
            1 => Ok(DoorState::Open),
            2 => Ok(DoorState::Closing),
            3 => Ok(DoorState::Opening),
            4 => Ok(DoorState::Halted),
            _ => Err(v),
        }
    }
}

impl TryFromSpecImpl<i32> for DoorState {
    open spec fn obeys_try_from_spec() -> bool {
        true
    }

    open spec fn try_from_spec(v: i32) -> Result<Self, i32> {
        door_state_from_code(v)
    }
}

impl DoorState {
    /// The raw engine code of this value.
    pub fn code(self) -> (r: i32)
        ensures
            r == door_state_code(self),
    {
        match self {
            DoorState::Closed => 0,
            DoorState::Open => 1,
            DoorState::Closing => 2,
            DoorState::Opening => 3,
            DoorState::Halted => 4,
        }
    }
}

/// Body action types for `sBodyMsg`.
#[derive(Debug, Clone, Copy, PartialEq, Eq, Structural)]
pub enum BodyAction {
    MotionStart,
    MotionEnd,
    MotionFlagReached,
}

/// The raw engine code of each `BodyAction`.
pub open spec fn body_action_code(v: BodyAction) -> i32 {
    match v {
        BodyAction::MotionStart => 0,
        BodyAction::MotionEnd => 1,
        BodyAction::MotionFlagReached => 2,
    }
}

/// The `BodyAction` a raw engine code names; any other code is handed back.
pub open spec fn body_action_from_code(c: i32) -> Result<BodyAction, i32> {
    if c == 0 {
        Ok(BodyAction::MotionStart)
    } else if c == 1 {
        Ok(BodyAction::MotionEnd)
    } else if c == 2 {
        Ok(BodyAction::MotionFlagReached)
    } else {
        Err(c)
    }
}

/// Every `BodyAction` is read back from its code, and a code that reads as a
/// `BodyAction` is that value's code.
pub proof fn lemma_body_action_code_round_trip(v: BodyAction, c: i32)
    ensures
        body_action_from_code(body_action_code(v)) == Ok::<BodyAction, i32>(v),
        body_action_from_code(c) matches Ok(w) ==> body_action_code(w) == c,
        body_action_from_code(c) matches Err(e) ==> e == c,
{
}

/// The engine's body action codes in `sBodyMsg`: MotionStart 0, MotionEnd 1, MotionFlagReached 2.
/// Exactly the codes 0 to 2 name a value.
pub proof fn lemma_body_action_engine_codes(c: i32)
    ensures
        body_action_code(BodyAction::MotionStart) == 0,
        body_action_code(BodyAction::MotionEnd) == 1,
        body_action_code(BodyAction::MotionFlagReached) == 2,
        body_action_from_code(c) is Ok <==> 0 <= c <= 2,
{
}

impl TryFrom<i32> for BodyAction {
    type Error = i32;

    fn try_from(v: i32) -> (r: Result<Self, i32>) {
        match v {
            0 => Ok(BodyAction::MotionStart),
            1 => Ok(BodyAction::MotionEnd),
            2 => Ok(BodyAction::MotionFlagReached),
            _ => Err(v),
        }
    }
}

impl TryFromSpecImpl<i32> for BodyAction {
    open spec fn obeys_try_from_spec() -> bool {
        true
    }

    open spec fn try_from_spec(v: i32) -> Result<Self, i32> {
        body_action_from_code(v)
    }
}

impl BodyAction {
    /// The raw engine code of this value.
    pub fn code(self) -> (r: i32)
        ensures
            r == body_action_code(self),
    {
        match self {
            BodyAction::MotionStart => 0,
            BodyAction::MotionEnd => 1,
            BodyAction::MotionFlagReached => 2,
        }
    }
}

} // verus!

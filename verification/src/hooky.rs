//! The DarkHooky C ABI vocabulary: result codes, the Windows GUID layout and
//! the standard named-pointer GUIDs.
use vstd::prelude::*;
use vstd::string::StringExecFns;
use vstd::utf8::{encode_utf8, is_ascii_chars, is_ascii_chars_encode_utf8};
use crate::text::{i32_to_decimal, signed_decimal};

verus! {

/// Current API version. Incremented when new fields are added to the API table.
pub const CURRENT_API_VERSION: u32 = 3;

/// Result codes returned by DarkHooky API functions.
///
/// Values 0–99 are reserved for DarkHooky. Bundle authors may define
/// custom codes starting at 100.
#[derive(Debug, Clone, Copy, PartialEq, Eq)]
pub enum HookResult {
    /// The call succeeded (C ABI code 0).
    Success,
    VersionMismatch,
    MissingDependency,
    InitFailed,
    Unsupported,
    TargetBundleNotFound,
    NoMessageHandler,
    /// An unrecognized error code from the C ABI.
    Unknown(i32),
}

/// The result a raw C ABI code stands for.
pub open spec fn hook_result_from_code(val: i32) -> HookResult {
    if val == 0 {
        HookResult::Success
    } else if val == 1 {
        HookResult::VersionMismatch
    } else if val == 2 {
        HookResult::MissingDependency
    } else if val == 3 {
        HookResult::InitFailed
    } else if val == 4 {
        HookResult::Unsupported
    } else if val == 10 {
        HookResult::TargetBundleNotFound
    } else if val == 11 {
        HookResult::NoMessageHandler
    } else {
        HookResult::Unknown(val)
    }
}

/// The raw C ABI code of a result.
pub open spec fn hook_result_code(r: HookResult) -> i32 {
    match r {
        HookResult::Success => 0,
        HookResult::VersionMismatch => 1,
        HookResult::MissingDependency => 2,
        HookResult::InitFailed => 3,
        HookResult::Unsupported => 4,
        HookResult::TargetBundleNotFound => 10,
        HookResult::NoMessageHandler => 11,
        HookResult::Unknown(val) => val,
    }
}

/// Codes that name one of the known results.
pub open spec fn is_named_code(val: i32) -> bool {
    val == 0 || val == 1 || val == 2 || val == 3 || val == 4 || val == 10 || val == 11
}

/// A result as `from_i32` can produce it: `Unknown` never carries a named code.
pub open spec fn is_canonical(r: HookResult) -> bool {
    r matches HookResult::Unknown(v) ==> !is_named_code(v)
}

/// The human-readable text of a result.
pub open spec fn hook_result_text(r: HookResult) -> Seq<char> {
    match r {
        HookResult::Success => "ok"@,
        HookResult::VersionMismatch => "version mismatch"@,
        HookResult::MissingDependency => "missing dependency"@,
        HookResult::InitFailed => "init failed"@,
        HookResult::Unsupported => "unsupported"@,
        HookResult::TargetBundleNotFound => "target bundle not found"@,
        HookResult::NoMessageHandler => "no message handler"@,
        HookResult::Unknown(val) => "unknown error ("@ + signed_decimal(val as int) + ")"@,
    }
}

impl HookResult {
    /// Convert a raw `i32` (from the C ABI) back into a `HookResult`.
    pub fn from_i32(val: i32) -> (r: Self)
        ensures
            r == hook_result_from_code(val),
            is_canonical(r),
    {
        match val {
            0 => Self::Success,
            1 => Self::VersionMismatch,
            2 => Self::MissingDependency,
            3 => Self::InitFailed,
            4 => Self::Unsupported,
            10 => Self::TargetBundleNotFound,
            11 => Self::NoMessageHandler,
            other => Self::Unknown(other),
        }
    }

    /// Convert to the raw `i32` representation for the C ABI.
    pub fn as_i32(&self) -> (r: i32)
        ensures
            r == hook_result_code(*self),
    {
        match self {
            Self::Success => 0,
            Self::VersionMismatch => 1,
            Self::MissingDependency => 2,
            Self::InitFailed => 3,
            Self::Unsupported => 4,
            Self::TargetBundleNotFound => 10,
            Self::NoMessageHandler => 11,
            Self::Unknown(val) => *val,
        }
    }

    /// The human-readable text of the result, e.g. `"no message handler"`
    /// or `"unknown error (142)"`.
    pub fn to_string(&self) -> (r: String)
        ensures
            r@ == hook_result_text(*self),
    {
        match self {
            Self::Success => "ok".to_owned(),
            Self::VersionMismatch => "version mismatch".to_owned(),
            Self::MissingDependency => "missing dependency".to_owned(),
            Self::InitFailed => "init failed".to_owned(),
            Self::Unsupported => "unsupported".to_owned(),
            Self::TargetBundleNotFound => "target bundle not found".to_owned(),
            Self::NoMessageHandler => "no message handler".to_owned(),
            Self::Unknown(val) => {
                let mut s = "unknown error (".to_owned();
                let digits = i32_to_decimal(*val);
                s.append(digits.as_str());
                s.append(")");
                s
            },
        }
    }
}

/// The C ABI codes: Success 0, VersionMismatch 1, MissingDependency 2,
/// InitFailed 3, Unsupported 4, TargetBundleNotFound 10, NoMessageHandler 11;
/// every other code, the custom ones from 100 on among them, is carried by
/// `Unknown` unchanged. Success alone reads as "ok".
pub proof fn lemma_hook_result_abi_codes(val: i32)
    ensures
        hook_result_code(HookResult::Success) == 0,
        hook_result_code(HookResult::VersionMismatch) == 1,
        hook_result_code(HookResult::MissingDependency) == 2,
        hook_result_code(HookResult::InitFailed) == 3,
        hook_result_code(HookResult::Unsupported) == 4,
        hook_result_code(HookResult::TargetBundleNotFound) == 10,
        hook_result_code(HookResult::NoMessageHandler) == 11,
        !(val == 0 || val == 1 || val == 2 || val == 3 || val == 4 || val == 10 || val == 11)
            ==> hook_result_from_code(val) == HookResult::Unknown(val),
        val >= 100 ==> hook_result_from_code(val) == HookResult::Unknown(val),
        hook_result_text(HookResult::Success) == "ok"@,
        hook_result_text(HookResult::VersionMismatch) == "version mismatch"@,
        hook_result_text(HookResult::MissingDependency) == "missing dependency"@,
        hook_result_text(HookResult::InitFailed) == "init failed"@,
        hook_result_text(HookResult::Unsupported) == "unsupported"@,
        hook_result_text(HookResult::TargetBundleNotFound) == "target bundle not found"@,
        hook_result_text(HookResult::NoMessageHandler) == "no message handler"@,
        hook_result_text(HookResult::Unknown(val)) == "unknown error ("@ + signed_decimal(val as int) + ")"@,
{
}

/// Every raw code survives the trip into a `HookResult` and back.
pub proof fn lemma_code_round_trip(val: i32)
    ensures
        hook_result_code(hook_result_from_code(val)) == val,
{
}

/// A result survives the trip to its raw code and back exactly when it is
/// canonical (an `Unknown` carrying a named code comes back as the named result).
pub proof fn lemma_result_round_trip(r: HookResult)
    ensures
        hook_result_from_code(hook_result_code(r)) == r <==> is_canonical(r),
{
}

/// GUID structure matching Windows layout (16 bytes).
#[derive(Clone, Copy, Debug, PartialEq, Eq)]
pub struct HookyGuid {
    pub data1: u32,
    pub data2: u16,
    pub data3: u16,
    pub data4: [u8; 8],
}

/// A 16-byte binary GUID used as a key for named pointers.
pub type NamedPointerGuid = [u8; 16];

/// Standard named pointer GUIDs defined by DarkHooky.
#[derive(Debug, Clone, Copy, PartialEq, Eq)]
pub enum StandardNamedPointers {
    /// Gamepad Mod Overlay state (shared between gamepad Dark Hooky bundle and its OSM)
    OverlayState,
}

/// The value of an ASCII hexadecimal digit, either case.
pub open spec fn hex_digit_value(b: u8) -> Option<int> {
    if 48 <= b <= 57 {
        Some(b - 48)
    } else if 97 <= b <= 102 {
        Some(b - 87)
    } else if 65 <= b <= 70 {
        Some(b - 55)
    } else {
        None
    }
}

/// The 16 bytes spelled by 32 hexadecimal digits, two per byte, high digit
/// first; nothing when a digit is not hexadecimal.
pub open spec fn hex_pairs(h: Seq<u8>) -> Option<Seq<u8>> {
    if h.len() == 32 && forall|k: int| 0 <= k < 32 ==> (#[trigger] hex_digit_value(h[k])) is Some {
        Some(
            Seq::new(
                16,
                |j: int|
                    (hex_digit_value(h[2 * j]).unwrap() * 16 + hex_digit_value(
                        h[2 * j + 1],
                    ).unwrap()) as u8,
            ),
        )
    } else {
        None
    }
}

/// Position, in a hyphenated UUID, of the `k`-th of its 32 hex digits.
pub open spec fn uuid_digit_pos(k: int) -> int {
    k + (if k >= 8 {
        1int
    } else {
        0int
    }) + (if k >= 12 {
        1int
    } else {
        0int
    }) + (if k >= 16 {
        1int
    } else {
        0int
    }) + (if k >= 20 {
        1int
    } else {
        0int
    })
}

/// The bytes of `xxxxxxxx-xxxx-xxxx-xxxx-xxxxxxxxxxxx`: hyphens at 8, 13, 18
/// and 23, hexadecimal digits elsewhere.
pub open spec fn hyphenated_uuid(s: Seq<u8>) -> Option<Seq<u8>> {
    if s.len() == 36 && s[8] == 45 && s[13] == 45 && s[18] == 45 && s[23] == 45 {
        hex_pairs(Seq::new(32, |k: int| s[uuid_digit_pos(k)]))
    } else {
        None
    }
}

/// An ASCII byte in lower case.
pub open spec fn ascii_lower(b: u8) -> u8 {
    if 65 <= b <= 90 {
        (b + 32) as u8
    } else {
        b
    }
}

/// True for `urn:uuid:` in any ASCII case.
pub open spec fn is_urn_prefix(p: Seq<u8>) -> bool {
    let urn = seq![117u8, 114u8, 110u8, 58u8, 117u8, 117u8, 105u8, 100u8, 58u8];
    p.len() == 9 && forall|i: int| 0 <= i < 9 ==> ascii_lower(#[trigger] p[i]) == urn[i]
}

/// The UUID a text spells, read from its UTF-8 bytes: 32 digits (simple),
/// the hyphenated form, the hyphenated form in braces, or the hyphenated
/// form after `urn:uuid:`; nothing for any other text.
pub open spec fn uuid_text(b: Seq<u8>) -> Option<Seq<u8>> {
    if b.len() == 32 {
        hex_pairs(b)
    } else if b.len() == 36 {
        hyphenated_uuid(b)
    } else if b.len() == 38 {
        if b[0] == 123 && b[37] == 125 {
            hyphenated_uuid(b.subrange(1, 37))
        } else {
            None
        }
    } else if b.len() == 45 {
        if is_urn_prefix(b.take(9)) {
            hyphenated_uuid(b.skip(9))
        } else {
            None
        }
    } else {
        None
    }
}

/// Parses UUID text with `uuid::Uuid::try_parse` and returns its 16 bytes.
///
/// Trusted: `try_parse` reads the text's bytes by length, as `uuid_text`
/// states: 32 hexadecimal digits; 36 bytes in the hyphenated form; 38 bytes
/// as that form between `{` and `}`; 45 bytes as that form after
/// `urn:uuid:` in any case. Each byte is two digits, high first, in either
/// case. Every other text is refused.
#[verifier::external_body]
fn parse_uuid(text: &str) -> (r: Option<[u8; 16]>)
    ensures
        match r {
            Some(b) => uuid_text(encode_utf8(text@)) == Some(b@),
            None => uuid_text(encode_utf8(text@)) is None,
        },
{
    match uuid::Uuid::try_parse(text) {
        Ok(u) => Some(*u.as_bytes()),
        Err(_) => None,
    }
}

/// The string form of each standard named pointer GUID.
pub open spec fn named_pointer_text(p: StandardNamedPointers) -> Seq<char> {
    match p {
        StandardNamedPointers::OverlayState => "E995C060-80C0-49F2-A702-9D49CB01FF16"@,
    }
}

impl StandardNamedPointers {
    /// Returns the 16-byte binary GUID for this named pointer.
    pub fn guid(&self) -> (r: NamedPointerGuid)
        ensures
            uuid_text(encode_utf8(named_pointer_text(*self))) == Some(r@),
            *self == StandardNamedPointers::OverlayState ==> r@ == seq![
                0xE9u8, 0x95u8, 0xC0u8, 0x60u8, 0x80u8, 0xC0u8, 0x49u8, 0xF2u8,
                0xA7u8, 0x02u8, 0x9Du8, 0x49u8, 0xCBu8, 0x01u8, 0xFFu8, 0x16u8,
            ],
    {
        match self {
            Self::OverlayState => {
                let text = "E995C060-80C0-49F2-A702-9D49CB01FF16";
                proof {
                    reveal_strlit("E995C060-80C0-49F2-A702-9D49CB01FF16");
                    assert(is_ascii_chars(text@));
                    is_ascii_chars_encode_utf8(text@);
                    let b = encode_utf8(text@);
                    assert(b =~= seq![
                        69u8, 57u8, 57u8, 53u8, 67u8, 48u8, 54u8, 48u8, 45u8, 56u8, 48u8, 67u8,
                        48u8, 45u8, 52u8, 57u8, 70u8, 50u8, 45u8, 65u8, 55u8, 48u8, 50u8, 45u8,
                        57u8, 68u8, 52u8, 57u8, 67u8, 66u8, 48u8, 49u8, 70u8, 70u8, 49u8, 54u8,
                    ]) by {
                        assert forall|i: int| 0 <= i < 36 implies b[i] == text@[i] as u8 by {}
                    }
                    let h = Seq::new(32, |k: int| b[uuid_digit_pos(k)]);
                    assert(forall|k: int| 0 <= k < 32 ==> (#[trigger] hex_digit_value(h[k])) is Some);
                    assert(hex_pairs(h).unwrap() =~= seq![
                        0xE9u8, 0x95u8, 0xC0u8, 0x60u8, 0x80u8, 0xC0u8, 0x49u8, 0xF2u8,
                        0xA7u8, 0x02u8, 0x9Du8, 0x49u8, 0xCBu8, 0x01u8, 0xFFu8, 0x16u8,
                    ]);
                }
                match parse_uuid(text) {
                    Some(bytes) => bytes,
                    None => [0u8; 16],
                }
            },
        }
    }
}

} // verus!

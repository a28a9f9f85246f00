//! Text helpers shared by the library: ASCII rendering of numbers, UTF-8
//! decoding of engine-provided bytes, and the C string admissibility test.
use vstd::prelude::*;
use vstd::utf8::*;

verus! {

broadcast use vstd::utf8::encode_utf8_valid_utf8, vstd::utf8::encode_utf8_decode_utf8;

/// The characters named by a sequence of ASCII bytes.
pub open spec fn ascii_chars(bytes: Seq<u8>) -> Seq<char> {
    bytes.map_values(|b: u8| b as char)
}

/// True when every byte is below 128.
pub open spec fn all_ascii(bytes: Seq<u8>) -> bool {
    forall|i: int| 0 <= i < bytes.len() ==> #[trigger] bytes[i] < 128
}

/// The upper-case hexadecimal digit for a nibble.
pub open spec fn hex_digit_byte(d: nat) -> u8 {
    if d < 10 {
        (48 + d) as u8
    } else {
        (55 + d) as u8
    }
}

/// The `width` lowest hexadecimal digits of `v`, most significant first.
pub open spec fn hex_bytes(v: nat, width: nat) -> Seq<u8>
    decreases width,
{
    if width == 0 {
        seq![]
    } else {
        hex_bytes(v / 16, (width - 1) as nat).push(hex_digit_byte(v % 16))
    }
}

/// Decimal digits of a natural number, without leading zeros.
pub open spec fn decimal_bytes(n: nat) -> Seq<u8>
    decreases n,
{
    if n < 10 {
        seq![(48 + n) as u8]
    } else {
        decimal_bytes(n / 10).push((48 + n % 10) as u8)
    }
}

/// Decimal rendering of a signed integer, as `{}` prints it.
pub open spec fn signed_decimal_bytes(v: int) -> Seq<u8> {
    if v < 0 {
        seq![45u8] + decimal_bytes((-v) as nat)
    } else {
        decimal_bytes(v as nat)
    }
}

/// Decimal rendering of a signed integer as characters.
pub open spec fn signed_decimal(v: int) -> Seq<char> {
    ascii_chars(signed_decimal_bytes(v))
}

pub proof fn lemma_hex_bytes_ascii(v: nat, width: nat)
    ensures
        all_ascii(hex_bytes(v, width)),
        hex_bytes(v, width).len() == width,
    decreases width,
{
    if width > 0 {
        lemma_hex_bytes_ascii(v / 16, (width - 1) as nat);
    }
}

pub proof fn lemma_decimal_bytes_ascii(n: nat)
    ensures
        all_ascii(decimal_bytes(n)),
        decimal_bytes(n).len() >= 1,
    decreases n,
{
    if n >= 10 {
        lemma_decimal_bytes_ascii(n / 10);
    }
}

/// True for an upper-case hexadecimal digit, `0`-`9` or `A`-`F`.
pub open spec fn is_upper_hex_digit(b: u8) -> bool {
    (48 <= b <= 57) || (65 <= b <= 70)
}

/// The value an upper-case hexadecimal digit stands for.
pub open spec fn upper_hex_digit_value(b: u8) -> int {
    if b <= 57 {
        b - 48
    } else {
        b - 55
    }
}

/// The number that a run of hexadecimal digits spells, most significant first.
pub open spec fn hex_text_value(s: Seq<u8>) -> int
    decreases s.len(),
{
    if s.len() == 0 {
        0
    } else {
        hex_text_value(s.drop_last()) * 16 + upper_hex_digit_value(s.last())
    }
}

/// Sixteen to the power `w`.
pub open spec fn pow16(w: nat) -> nat
    decreases w,
{
    if w == 0 {
        1
    } else {
        16 * pow16((w - 1) as nat)
    }
}

/// The `width` hexadecimal digits of `v` are upper-case digits that read
/// back as `v` modulo 16^width: the rendering is positional, most
/// significant digit first, zero-padded on the left.
pub proof fn lemma_hex_bytes_value(v: nat, width: nat)
    ensures
        hex_bytes(v, width).len() == width,
        forall|i: int| 0 <= i < width ==> is_upper_hex_digit(#[trigger] hex_bytes(v, width)[i]),
        hex_text_value(hex_bytes(v, width)) == v % pow16(width),
        pow16(width) > 0,
    decreases width,
{
    if width > 0 {
        let w1 = (width - 1) as nat;
        lemma_hex_bytes_value(v / 16, w1);
        let s = hex_bytes(v, width);
        assert(s.drop_last() =~= hex_bytes(v / 16, w1));
        vstd::arithmetic::div_mod::lemma_breakdown(v as int, 16, pow16(w1) as int);
        assert(pow16(width) == 16 * pow16(w1));
    }
}

/// True for an ASCII decimal digit.
pub open spec fn is_decimal_digit(b: u8) -> bool {
    48 <= b <= 57
}

/// The number that a run of decimal digits spells, most significant first.
pub open spec fn decimal_text_value(s: Seq<u8>) -> int
    decreases s.len(),
{
    if s.len() == 0 {
        0
    } else {
        decimal_text_value(s.drop_last()) * 10 + (s.last() - 48)
    }
}

/// The decimal rendering of `n` is a run of digits that reads back as `n`,
/// with no leading zero unless `n` is zero itself.
pub proof fn lemma_decimal_bytes_value(n: nat)
    ensures
        decimal_bytes(n).len() >= 1,
        forall|i: int| 0 <= i < decimal_bytes(n).len() ==> is_decimal_digit(#[trigger] decimal_bytes(n)[i]),
        decimal_text_value(decimal_bytes(n)) == n,
        n > 0 ==> decimal_bytes(n)[0] != 48,
    decreases n,
{
    if n >= 10 {
        lemma_decimal_bytes_value(n / 10);
        let s = decimal_bytes(n);
        assert(s.drop_last() =~= decimal_bytes(n / 10));
        assert(s[0] == decimal_bytes(n / 10)[0]);
        assert(s.last() == 48 + n % 10);
        assert(decimal_text_value(s) == decimal_text_value(s.drop_last()) * 10 + (s.last() - 48));
        assert(decimal_text_value(s.drop_last()) == n / 10);
        assert((n / 10) * 10 + n % 10 == n);
    } else {
        let s = decimal_bytes(n);
        assert(s.drop_last() =~= Seq::<u8>::empty());
        assert(s.last() == 48 + n);
        assert(decimal_text_value(s) == decimal_text_value(s.drop_last()) * 10 + (s.last() - 48));
        assert(decimal_text_value(s.drop_last()) == 0);
    }
}

/// The signed rendering is a minus sign before the magnitude's digits
/// exactly for a negative number, and the digits read back as the magnitude.
pub proof fn lemma_signed_decimal_value(v: int)
    ensures
        v < 0 ==> signed_decimal_bytes(v)[0] == 45 && decimal_text_value(signed_decimal_bytes(v).skip(1)) == -v,
        v >= 0 ==> is_decimal_digit(signed_decimal_bytes(v)[0]) && decimal_text_value(signed_decimal_bytes(v)) == v,
{
    if v < 0 {
        lemma_decimal_bytes_value((-v) as nat);
        assert(signed_decimal_bytes(v).skip(1) =~= decimal_bytes((-v) as nat));
    } else {
        lemma_decimal_bytes_value(v as nat);
    }
}

/// ASCII bytes are valid UTF-8 and decode to the matching characters.
pub proof fn lemma_ascii_decode(bytes: Seq<u8>)
    requires
        all_ascii(bytes),
    ensures
        valid_utf8(bytes),
        decode_utf8(bytes) == ascii_chars(bytes),
{
    let chars = ascii_chars(bytes);
    assert(is_ascii_chars(chars)) by {
        assert forall|i: int| 0 <= i < chars.len() implies '\0' <= #[trigger] chars[i] <= '\u{7f}' by {
            assert(bytes[i] < 128);
        }
    }
    is_ascii_chars_encode_utf8(chars);
    assert(encode_utf8(chars) =~= bytes) by {
        assert forall|i: int| 0 <= i < bytes.len() implies encode_utf8(chars)[i] == bytes[i] by {
            assert(chars[i] as u8 == encode_utf8(chars)[i]);
            assert(bytes[i] < 128);
        }
    }
}

/// Decodes a byte slice as UTF-8 with `std::str::from_utf8`.
///
/// Trusted: `from_utf8` returns `Ok` exactly when the bytes are well-formed
/// UTF-8 (no overlong forms, no surrogates, no truncated sequences), and the
/// string it returns holds the decoded characters.
#[verifier::external_body]
pub(crate) fn utf8_str(bytes: &[u8]) -> (r: Option<&str>)
    ensures
        r is Some <==> valid_utf8(bytes@),
        r matches Some(s) ==> s@ == decode_utf8(bytes@),
{
    std::str::from_utf8(bytes).ok()
}

/// What `String::from_utf8_lossy` produces for a byte sequence.
pub uninterp spec fn utf8_lossy_chars(bytes: Seq<u8>) -> Seq<char>;

/// Decodes bytes with `String::from_utf8_lossy`, replacing each ill-formed
/// sequence with U+FFFD.
///
/// Trusted: the result is named `utf8_lossy_chars` of the bytes; for
/// well-formed UTF-8 it is the plain decoding. How ill-formed input is
/// split into replacement characters is left unsaid.
#[verifier::external_body]
pub(crate) fn utf8_lossy(bytes: &[u8]) -> (r: String)
    ensures
        r@ == utf8_lossy_chars(bytes@),
        valid_utf8(bytes@) ==> r@ == decode_utf8(bytes@),
{
    String::from_utf8_lossy(bytes).into_owned()
}

/// Whether two string slices hold the same characters, compared one by one.
pub(crate) fn str_eq(a: &str, b: &str) -> (r: bool)
    ensures
        r == (a@ == b@),
{
    let n = a.unicode_len();
    if n != b.unicode_len() {
        return false;
    }
    let mut i: usize = 0;
    while i < n
        invariant
            n == a@.len(),
            n == b@.len(),
            i <= n,
            forall|j: int| 0 <= j < i ==> a@[j] == b@[j],
        decreases n - i,
    {
        if a.get_char(i) != b.get_char(i) {
            return false;
        }
        i = i + 1;
    }
    proof {
        assert(a@ =~= b@);
    }
    true
}

/// Builds a `String` from ASCII bytes.
pub fn ascii_string(bytes: &Vec<u8>) -> (r: String)
    requires
        all_ascii(bytes@),
    ensures
        r@ == ascii_chars(bytes@),
{
    proof {
        lemma_ascii_decode(bytes@);
    }
    match utf8_str(bytes.as_slice()) {
        Some(s) => s.to_owned(),
        None => String::new(),
    }
}

/// Appends the `width` lowest hexadecimal digits of `v`.
pub fn push_hex(out: &mut Vec<u8>, v: u32, width: u32)
    requires
        width <= 8,
    ensures
        final(out)@ == old(out)@ + hex_bytes(v as nat, width as nat),
    decreases width,
{
    if width > 0 {
        push_hex(out, v / 16, width - 1);
        let d = v % 16;
        let c: u8 = if d < 10 {
            48 + d as u8
        } else {
            55 + d as u8
        };
        out.push(c);
        assert(old(out)@ + hex_bytes(v as nat, width as nat) =~= old(out)@ + hex_bytes(
            (v / 16) as nat,
            (width - 1) as nat,
        ) + seq![c]);
    }
}

/// Appends the decimal digits of `n`.
pub fn push_decimal(out: &mut Vec<u8>, n: u32)
    ensures
        final(out)@ == old(out)@ + decimal_bytes(n as nat),
    decreases n,
{
    if n >= 10 {
        push_decimal(out, n / 10);
    }
    let c: u8 = 48 + (n % 10) as u8;
    out.push(c);
    assert(old(out)@ + decimal_bytes(n as nat) =~= (if n >= 10 {
        old(out)@ + decimal_bytes((n / 10) as nat)
    } else {
        old(out)@
    }) + seq![c]);
}

/// Renders a signed integer in decimal, as `{}` does.
pub fn i32_to_decimal(v: i32) -> (r: String)
    ensures
        r@ == signed_decimal(v as int),
{
    let mut out: Vec<u8> = Vec::new();
    let magnitude: u32 = if v < 0 {
        out.push(45u8);
        (0i64 - v as i64) as u32
    } else {
        v as u32
    };
    push_decimal(&mut out, magnitude);
    proof {
        lemma_decimal_bytes_ascii(magnitude as nat);
        assert(out@ =~= signed_decimal_bytes(v as int));
    }
    ascii_string(&out)
}

/// True when the text holds a NUL character, which a C string cannot carry.
pub open spec fn has_nul(s: Seq<char>) -> bool {
    exists|i: int| 0 <= i < s.len() && s[i] == '\0'
}

/// Whether `CString::new` would refuse the text (it refuses interior NULs).
pub fn contains_nul(s: &str) -> (r: bool)
    ensures
        r == has_nul(s@),
{
    let n = s.unicode_len();
    let mut i: usize = 0;
    while i < n
        invariant
            n == s@.len(),
            i <= n,
            forall|j: int| 0 <= j < i ==> s@[j] != '\0',
        decreases n - i,
    {
        if s.get_char(i) == '\0' {
            return true;
        }
        i = i + 1;
    }
    false
}

/// Text taken from a C string supplied by the engine or a peer: a missing
/// pointer or bytes that are not UTF-8 give `fallback`.
pub open spec fn text_or_spec(bytes: Option<Seq<u8>>, fallback: Seq<char>) -> Seq<char> {
    match bytes {
        None => fallback,
        Some(b) => if valid_utf8(b) {
            decode_utf8(b)
        } else {
            fallback
        },
    }
}

/// Reads C string bytes as UTF-8, falling back to `fallback` when the
/// pointer was null or the bytes are not UTF-8.
pub fn text_or(bytes: Option<&[u8]>, fallback: &str) -> (r: String)
    ensures
        r@ == text_or_spec(
            match bytes {
                Some(b) => Some(b@),
                None => None,
            },
            fallback@,
        ),
{
    match bytes {
        None => fallback.to_owned(),
        Some(b) => match utf8_str(b) {
            Some(s) => s.to_owned(),
            None => fallback.to_owned(),
        },
    }
}

/// Text from a C string when there is one and it is UTF-8; nothing otherwise.
pub fn optional_text(bytes: Option<&[u8]>) -> (r: Option<String>)
    ensures
        match bytes {
            None => r is None,
            Some(b) => if valid_utf8(b@) {
                r matches Some(s) && s@ == decode_utf8(b@)
            } else {
                r is None
            },
        },
{
    match bytes {
        None => None,
        Some(b) => match utf8_str(b) {
            Some(s) => Some(s.to_owned()),
            None => None,
        },
    }
}

} // verus!

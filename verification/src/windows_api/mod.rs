//! Conversions between Rust strings and the wide, nul-terminated strings of
//! the operating system, and the interpretation of what its calls report.
//!
//! Wide strings are those of the `widestring` crate. Their contents and the
//! std decoders used here are stated, not proved.

pub mod enums;
pub mod wlan;

use vstd::prelude::*;
use widestring::U16CString;

verus! {

/// The wide C string of the `widestring` crate, carried as an opaque value.
#[verifier::external_type_specification]
#[verifier::external_body]
pub struct ExU16CString(U16CString);

/// The code units of a wide string, without its nul terminator.
pub uninterp spec fn wide_units(s: U16CString) -> Seq<u16>;

/// The text that `String::from_utf16_lossy` decodes code units to.
pub uninterp spec fn utf16_lossy(units: Seq<u16>) -> Seq<char>;

/// The text that `String::from_utf8_lossy` decodes bytes to.
pub uninterp spec fn utf8_lossy(bytes: Seq<u8>) -> Seq<char>;

/// The text that code units decode to where they are well-formed UTF-16,
/// and nothing where they are not.
pub uninterp spec fn utf16_strict(units: Seq<u16>) -> Option<Seq<char>>;

/// The UTF-16 code units of one character: the character itself below
/// U+10000, a surrogate pair above.
pub open spec fn utf16_of_char(c: char) -> Seq<u16> {
    let v = c as int;
    if v < 0x10000 {
        seq![v as u16]
    } else {
        seq![(0xD800 + (v - 0x10000) / 0x400) as u16, (0xDC00 + (v - 0x10000) % 0x400) as u16]
    }
}

/// The UTF-16 code units of a text.
pub open spec fn utf16_units(text: Seq<char>) -> Seq<u16>
    decreases text.len(),
{
    if text.len() == 0 {
        Seq::empty()
    } else {
        utf16_units(text.drop_last()) + utf16_of_char(text.last())
    }
}

/// Whether a nul stands anywhere but in the last place.
pub open spec fn has_interior_nul(units: Seq<u16>) -> bool {
    exists|i: int| 0 <= i < units.len() - 1 && units[i] == 0
}

/// The units without a nul in the last place.
pub open spec fn without_terminator(units: Seq<u16>) -> Seq<u16> {
    if units.len() > 0 && units.last() == 0 {
        units.drop_last()
    } else {
        units
    }
}

/// The place of the first nul at or after `from`, or the length where there
/// is none.
pub open spec fn nul_position(units: Seq<u16>, from: int) -> int
    decreases units.len() - from,
{
    if from < 0 || from >= units.len() || units[from] == 0 {
        from
    } else {
        nul_position(units, from + 1)
    }
}

/// The units before the first nul: all of them where there is none.
pub open spec fn before_nul(units: Seq<u16>) -> Seq<u16> {
    units.subrange(0, nul_position(units, 0))
}

/// Calls `U16CString::from_str`, which encodes the text as UTF-16 and
/// refuses it where a nul stands anywhere but in the last place. A nul in
/// the last place becomes the terminator.
#[verifier::external_body]
pub(crate) fn u16cstring_from_str(text: &str) -> (wide: Option<U16CString>)
    ensures
        wide is Some <==> !has_interior_nul(utf16_units(text@)),
        wide is Some ==> wide_units(wide->0) == without_terminator(utf16_units(text@)),
{
    U16CString::from_str(text).ok()
}

/// Calls `U16CString::from_vec`, which refuses the units where a nul stands
/// anywhere but in the last place. A nul in the last place becomes the
/// terminator.
#[verifier::external_body]
pub(crate) fn u16cstring_from_vec(units: Vec<u16>) -> (wide: Option<U16CString>)
    ensures
        wide is Some <==> !has_interior_nul(units@),
        wide is Some ==> wide_units(wide->0) == without_terminator(units@),
{
    U16CString::from_vec(units).ok()
}

/// Calls `U16CStr::to_string`, which decodes the units before the
/// terminator and fails on ill-formed UTF-16.
#[verifier::external_body]
pub(crate) fn u16cstring_to_string(wide: &U16CString) -> (text: Option<String>)
    ensures
        text is Some <==> utf16_strict(wide_units(*wide)) is Some,
        text is Some ==> utf16_strict(wide_units(*wide)) == Some(text->0@),
{
    wide.to_string().ok()
}

/// Calls `String::from_utf16_lossy`, which never fails.
#[verifier::external_body]
pub(crate) fn string_from_utf16_lossy(units: &[u16]) -> (text: String)
    ensures
        text@ == utf16_lossy(units@),
{
    String::from_utf16_lossy(units)
}

/// Calls `String::from_utf8_lossy`, which never fails, and owns the result.
#[verifier::external_body]
pub(crate) fn string_from_utf8_lossy(bytes: &[u8]) -> (text: String)
    ensures
        text@ == utf8_lossy(bytes@),
{
    String::from_utf8_lossy(bytes).into_owned()
}

/// The first nul, if there is one, ends the text; nothing before it is nul.
pub proof fn lemma_nul_position(units: Seq<u16>, from: int)
    requires
        0 <= from <= units.len(),
    ensures
        from <= nul_position(units, from) <= units.len(),
        forall|i: int| from <= i < nul_position(units, from) ==> units[i] != 0,
        nul_position(units, from) < units.len() ==> units[nul_position(units, from)] == 0,
    decreases units.len() - from,
{
    if from < units.len() && units[from] != 0 {
        lemma_nul_position(units, from + 1);
    }
}

/// A character other than nul has no nul among its UTF-16 code units.
proof fn lemma_char_without_nul(c: char)
    requires
        c != '\0',
    ensures
        forall|i: int| 0 <= i < utf16_of_char(c).len() ==> #[trigger] utf16_of_char(c)[i] != 0,
{
    let v = c as int;
    assert(0 < v <= 0x10FFFF);
}

/// A text without a nul character has no nul among its UTF-16 code units,
/// so it has a wide string.
pub proof fn lemma_text_without_nul(text: Seq<char>)
    requires
        forall|j: int| 0 <= j < text.len() ==> text[j] != '\0',
    ensures
        forall|i: int| 0 <= i < utf16_units(text).len() ==> utf16_units(text)[i] != 0,
        !has_interior_nul(utf16_units(text)),
        without_terminator(utf16_units(text)) == utf16_units(text),
    decreases text.len(),
{
    if text.len() > 0 {
        let front = text.drop_last();
        let c = text.last();
        lemma_text_without_nul(front);
        lemma_char_without_nul(c);
    }
}

/// Copies the units before the first nul.
fn units_before_nul(u16_slice: &[u16]) -> (prefix: Vec<u16>)
    ensures
        prefix@ == before_nul(u16_slice@),
        forall|i: int| 0 <= i < prefix@.len() ==> prefix@[i] != 0,
{
    let mut prefix: Vec<u16> = Vec::new();
    let mut i: usize = 0;
    while i < u16_slice.len() && u16_slice[i] != 0
        invariant
            i <= u16_slice.len(),
            prefix@ == u16_slice@.subrange(0, i as int),
            forall|j: int| 0 <= j < i ==> u16_slice@[j] != 0,
            nul_position(u16_slice@, 0) == nul_position(u16_slice@, i as int),
        decreases u16_slice.len() - i,
    {
        prefix.push(u16_slice[i]);
        assert(prefix@ =~= u16_slice@.subrange(0, i + 1));
        i += 1;
    }
    prefix
}

/// Makes a wide string of a text. A text with a nul anywhere but in the
/// last place has no wide string.
pub fn convert_string_to_u16cstring(string: &String) -> (wide: Option<U16CString>)
    ensures
        wide is Some <==> !has_interior_nul(utf16_units(string@)),
        wide is Some ==> wide_units(wide->0) == without_terminator(utf16_units(string@)),
{
    u16cstring_from_str(string.as_str())
}

/// Makes a wide string of the units that stand before the first nul of a
/// buffer. This always succeeds.
pub fn convert_u16_slice_to_u16cstring(u16_slice: &[u16]) -> (wide: Option<U16CString>)
    ensures
        wide is Some,
        wide_units(wide->0) == before_nul(u16_slice@),
{
    let prefix = units_before_nul(u16_slice);
    proof {
        let units = prefix@;
        assert(!has_interior_nul(units));
        assert(without_terminator(units) == units);
    }
    u16cstring_from_vec(prefix)
}

/// Decodes the units that stand before the first nul of a buffer, replacing
/// what is not well-formed UTF-16.
pub fn convert_u16_slice_to_string(u16_slice: &[u16]) -> (text: String)
    ensures
        text@ == utf16_lossy(before_nul(u16_slice@)),
{
    let prefix = units_before_nul(u16_slice);
    string_from_utf16_lossy(prefix.as_slice())
}

/// Makes wide strings of two texts, or nothing where either has none.
pub fn create_double_u16cstring(string1: &String, string2: &String) -> (wide: Option<
    (U16CString, U16CString),
>)
    ensures
        wide is Some <==> !has_interior_nul(utf16_units(string1@)) && !has_interior_nul(
            utf16_units(string2@),
        ),
        wide matches Some(pair) ==> wide_units(pair.0) == without_terminator(
            utf16_units(string1@),
        ) && wide_units(pair.1) == without_terminator(utf16_units(string2@)),
{
    let string1_u16 = match convert_string_to_u16cstring(string1) {
        Some(string1_u16) => string1_u16,
        None => return None,
    };
    let string2_u16 = match convert_string_to_u16cstring(string2) {
        Some(string2_u16) => string2_u16,
        None => return None,
    };
    Some((string1_u16, string2_u16))
}

} // verus!

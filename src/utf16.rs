use vstd::prelude::*;

verus! {

/// UTF-16 code units of one character: one unit inside the basic plane,
/// a surrogate pair above it.
pub open spec fn char_units(c: char) -> Seq<u16> {
    let v = c as u32;
    if v < 0x10000 {
        seq![v as u16]
    } else {
        seq![(0xD800 + (v - 0x10000) / 0x400) as u16, (0xDC00 + (v - 0x10000) % 0x400) as u16]
    }
}

/// UTF-16 encoding of a text.
pub open spec fn utf16_of(s: Seq<char>) -> Seq<u16>
    decreases s.len(),
{
    if s.len() == 0 {
        Seq::empty()
    } else {
        utf16_of(s.drop_last()) + char_units(s.last())
    }
}

/// A nul character stands somewhere before the last position.
pub open spec fn has_interior_nul(s: Seq<char>) -> bool {
    exists|i: int| 0 <= i < s.len() - 1 && s[i] == '\0'
}

/// Code units with a nul terminator, added only where the last unit is not one.
pub open spec fn nul_terminated(u: Seq<u16>) -> Seq<u16> {
    if u.len() > 0 && u.last() == 0 {
        u
    } else {
        u.push(0)
    }
}

/// Relies on std's String::from_utf16: the text whose UTF-16 encoding the
/// units are, or an error when the units hold an unpaired surrogate and no
/// text encodes to them.
#[verifier::external_body]
pub(crate) fn decode_utf16(units: &[u16]) -> (r: Option<String>)
    ensures
        r matches Some(t) ==> utf16_of(t@) == units@,
        r is None ==> forall|t: Seq<char>| #[trigger] utf16_of(t) != units@,
{
    String::from_utf16(units).ok()
}

/// Relies on widestring's U16CString::from_str: the text's UTF-16 units,
/// refused where a nul unit stands before the end, and kept with one
/// terminating nul (`into_vec_with_nul`).
#[verifier::external_body]
pub(crate) fn to_wide_nul(s: &str) -> (r: Option<Vec<u16>>)
    ensures
        r is None <==> has_interior_nul(s@),
        r matches Some(w) ==> w@ == nul_terminated(utf16_of(s@)),
{
    match widestring::U16CString::from_str(s) {
        Ok(w) => Some(w.into_vec_with_nul()),
        Err(_) => None,
    }
}

} // verus!

use vstd::prelude::*;
use widestring::U16CString;

verus! {

/// The display text of the error `U16CString::from_str` gives for `s`, which names
/// the position of the first nul unit.
pub uninterp spec fn nul_error_text(s: Seq<char>) -> Seq<char>;

/// The UTF-16 units of one character: one unit in the basic plane, else a surrogate
/// pair.
pub open spec fn utf16_of(c: char) -> Seq<u16> {
    let n = c as u32 as int;
    if n < 0x10000 {
        seq![n as u16]
    } else {
        let m = n - 0x10000;
        seq![(0xD800 + m / 0x400) as u16, (0xDC00 + m % 0x400) as u16]
    }
}

/// The UTF-16 units of a string.
pub open spec fn utf16(s: Seq<char>) -> Seq<u16>
    decreases s.len(),
{
    if s.len() == 0 {
        Seq::<u16>::empty()
    } else {
        utf16(s.drop_last()) + utf16_of(s.last())
    }
}

/// The units of a wide C string for `s`: its UTF-16 units, with a nul unit added
/// unless `s` already ends in one.
pub open spec fn wide_units(s: Seq<char>) -> Seq<u16> {
    if s.len() > 0 && s.last() == '\0' {
        utf16(s)
    } else {
        utf16(s).push(0)
    }
}

/// What converting `s` to a wide C string gives: its units, or the error's text when
/// a nul stands anywhere but at the end.
pub open spec fn wide_conversion(s: Seq<char>) -> Result<Seq<u16>, Seq<char>> {
    if nul_only_at_end(s) {
        Ok(wide_units(s))
    } else {
        Err(nul_error_text(s))
    }
}

/// True when the only nul character of `s`, if any, is its last one.
pub open spec fn nul_only_at_end(s: Seq<char>) -> bool {
    forall|i: int| 0 <= i < s.len() - 1 ==> s[i] != '\0'
}

/// Relies on widestring's `U16CString::from_str`: it encodes the string as UTF-16,
/// refuses it exactly when a nul unit stands anywhere but at the very end, and
/// otherwise adds a nul terminator unless one ends it already
/// (`into_vec_with_nul` hands the units out). The error is turned into its display
/// text.
#[verifier::external_body]
pub(crate) fn to_wide(s: &str) -> (r: Result<Vec<u16>, String>)
    ensures
        r.is_ok() <==> nul_only_at_end(s@),
        match r {
            Ok(v) => v@ == wide_units(s@),
            Err(e) => e@ == nul_error_text(s@),
        },
{
    U16CString::from_str(s).map(|w| w.into_vec_with_nul()).map_err(|e| e.to_string())
}

} // verus!

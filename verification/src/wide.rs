//! Wide (UTF-16) strings as the display configuration API reports them:
//! fixed-size buffers that hold a nul-terminated string.

use vstd::prelude::*;
use widestring::{U16CStr, U16Str};

verus! {

/// `i` is the index of the first nul unit of `raw`.
pub open spec fn is_first_nul(raw: Seq<u16>, i: int) -> bool {
    &&& 0 <= i < raw.len()
    &&& raw[i] == 0u16
    &&& forall|j: int| 0 <= j < i ==> raw[j] != 0u16
}

/// The string held by a nul-terminated buffer: the units before the first
/// nul, or `None` when the buffer holds no nul at all.
pub open spec fn terminated_prefix(raw: Seq<u16>) -> Option<Seq<u16>> {
    if exists|i: int| is_first_nul(raw, i) {
        Some(raw.take(choose|i: int| is_first_nul(raw, i)))
    } else {
        None
    }
}

/// A buffer holds a string exactly when it contains some nul unit.
pub proof fn lemma_terminated_iff_has_nul(raw: Seq<u16>)
    ensures
        terminated_prefix(raw) is Some <==> exists|i: int| 0 <= i < raw.len() && raw[i] == 0u16,
    decreases raw.len(),
{
    if exists|i: int| 0 <= i < raw.len() && raw[i] == 0u16 {
        if raw[0] == 0u16 {
            assert(is_first_nul(raw, 0));
        } else {
            let rest = raw.drop_first();
            let k = choose|i: int| 0 <= i < raw.len() && raw[i] == 0u16;
            assert(rest[k - 1] == 0u16);
            lemma_terminated_iff_has_nul(rest);
            let j = choose|i: int| is_first_nul(rest, i);
            assert forall|m: int| 0 <= m < j + 1 implies raw[m] != 0u16 by {
                if m > 0 {
                    assert(raw[m] == rest[m - 1]);
                }
            }
            assert(is_first_nul(raw, j + 1));
        }
    }
}

/// What `String::from_utf16_lossy` (reached through widestring's
/// `to_string_lossy`) makes of a sequence of UTF-16 units.
pub uninterp spec fn utf16_lossy(units: Seq<u16>) -> Seq<char>;

/// Calls widestring's `U16CStr::from_slice_truncate`, which scans `raw` for
/// its first nul unit and yields the string before it, failing with
/// `MissingNulTerminator` when there is none; the result is handed back as
/// the units before the nul (`as_slice`, which leaves the terminator out).
#[verifier::external_body]
pub(crate) fn truncate_at_nul(raw: &[u16]) -> (res: Option<Vec<u16>>)
    ensures
        res is Some == terminated_prefix(raw@) is Some,
        res matches Some(v) ==> Some(v@) == terminated_prefix(raw@),
{
    match U16CStr::from_slice_truncate(raw) {
        Ok(s) => Some(s.as_slice().to_vec()),
        Err(_) => None,
    }
}

/// Calls widestring's `U16Str::to_string_lossy`, which decodes the units as
/// UTF-16 and puts U+FFFD in place of every invalid sequence; the result is
/// named, not described.
#[verifier::external_body]
pub(crate) fn decode_lossy(units: &[u16]) -> (res: String)
    ensures
        res@ == utf16_lossy(units@),
{
    U16Str::from_slice(units).to_string_lossy()
}

} // verus!

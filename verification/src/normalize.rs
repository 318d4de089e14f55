//! Normalization of names: lowercasing (always) and trimming (for raw input
//! lines only). The Unicode case and whitespace rules live in std; here each
//! gets a name that the contracts speak of.

use vstd::prelude::*;

verus! {

/// The lowercased form of a character sequence, as `str::to_lowercase`
/// computes it.
pub uninterp spec fn lower_of(s: Seq<char>) -> Seq<char>;

/// The form of a character sequence with leading and trailing whitespace
/// removed, as `str::trim` computes it.
pub uninterp spec fn trim_of(s: Seq<char>) -> Seq<char>;

/// A raw input line after normalization: trimmed, then lowercased.
pub open spec fn normalized(s: Seq<char>) -> Seq<char> {
    lower_of(trim_of(s))
}

/// Relies on `str::to_lowercase`: the result depends on the characters alone,
/// and an empty string stays empty.
#[verifier::external_body]
pub(crate) fn lowercased(s: &str) -> (r: String)
    ensures
        r@ == lower_of(s@),
        s@.len() == 0 ==> r@.len() == 0,
{
    s.to_lowercase()
}

/// Relies on `str::trim`: the result depends on the characters alone, and an
/// empty string stays empty.
#[verifier::external_body]
pub(crate) fn trimmed(s: &str) -> (r: &str)
    ensures
        r@ == trim_of(s@),
        s@.len() == 0 ==> r@.len() == 0,
{
    s.trim()
}

/// Normalizes a raw input line: trims surrounding whitespace (including the
/// line terminator), then lowercases. The result may be empty; an empty line
/// stays empty.
pub fn normalize_input(s: &str) -> (r: String)
    ensures
        r@ == normalized(s@),
        s@.len() == 0 ==> r@.len() == 0,
{
    let t = trimmed(s);
    lowercased(t)
}

} // verus!

//! Unicode character classes, as std computes them.

use vstd::prelude::*;

verus! {

/// Whether `c` has the Unicode `Alphabetic` property.
pub uninterp spec fn alphabetic_property(c: char) -> bool;

/// Whether `c` has the Unicode `Lowercase` property.
pub uninterp spec fn lowercase_property(c: char) -> bool;

/// Relies on `char::is_alphabetic`, which reports the Unicode `Alphabetic`
/// property and depends on the character alone.
#[verifier::external_body]
pub(crate) fn is_alphabetic(c: char) -> (r: bool)
    ensures
        r == alphabetic_property(c),
{
    c.is_alphabetic()
}

/// Relies on `char::is_lowercase`, which reports the Unicode `Lowercase`
/// property and depends on the character alone.
#[verifier::external_body]
pub(crate) fn is_lowercase(c: char) -> (r: bool)
    ensures
        r == lowercase_property(c),
{
    c.is_lowercase()
}

} // verus!

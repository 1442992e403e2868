//! Small immutable strings of the `smol_str` crate, as the engine uses
//! them: made from a string slice, read back, and copied.

use vstd::prelude::*;
use smol_str::SmolStr;

verus! {

#[verifier::external_type_specification]
#[verifier::external_body]
pub struct ExSmolStr(smol_str::SmolStr);

/// The characters that a small string holds.
pub uninterp spec fn smol_text(s: SmolStr) -> Seq<char>;

/// `SmolStr::new`: a small string that holds the characters of the slice.
#[verifier::external_body]
pub(crate) fn smol_new(text: &str) -> (s: SmolStr)
    ensures
        smol_text(s) == text@,
{
    SmolStr::new(text)
}

/// `SmolStr::as_str`: the characters of the small string as a slice.
#[verifier::external_body]
pub(crate) fn smol_as_str(s: &SmolStr) -> (text: &str)
    ensures
        text@ == smol_text(*s),
{
    s.as_str()
}

/// `SmolStr::clone`: a small string with the same characters.
#[verifier::external_body]
pub(crate) fn smol_clone(s: &SmolStr) -> (copy: SmolStr)
    ensures
        smol_text(copy) == smol_text(*s),
{
    s.clone()
}

} // verus!

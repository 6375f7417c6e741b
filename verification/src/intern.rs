//! Texts that are kept once for the life of the program.

use vstd::prelude::*;

verus! {

/// Interns a text.
///
/// Calls `Ustr::from` and `Ustr::as_str`. Claimed is that the interned text holds the same
/// characters.
#[verifier::external_body]
pub(crate) fn interned(text: &str) -> (r: &'static str)
    ensures
        r@ == text@,
{
    ustr::Ustr::from(text).as_str()
}

} // verus!

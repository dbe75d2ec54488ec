//! UTF-8 decoding of byte strings.

use vstd::prelude::*;

verus! {

/// The text that `bytes` encode as UTF-8, or `None` when they are not
/// valid UTF-8 (what `core::str::from_utf8` decides).
pub uninterp spec fn utf8_text(bytes: Seq<u8>) -> Option<Seq<char>>;

/// `core::str::from_utf8`, with the error dropped: the text of `bytes`
/// when they are valid UTF-8. Decoding is not restated here; the result is
/// named by `utf8_text`.
#[verifier::external_body]
pub(crate) fn str_from_utf8(bytes: &[u8]) -> (r: Option<&str>)
    ensures
        r is Some <==> utf8_text(bytes@) is Some,
        r is Some ==> r->Some_0@ == utf8_text(bytes@)->Some_0,
{
    core::str::from_utf8(bytes).ok()
}

} // verus!

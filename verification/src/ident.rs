use vstd::prelude::*;
use std::str::FromStr;

verus! {

/// Whether a text is a syntactically valid content identifier: exactly the
/// strings that `cid::Cid`'s `FromStr` accepts (a multibase-encoded,
/// self-describing identifier). The grammar is owned by the outside crate, so
/// the predicate has no body here; the wrapper below ties it to the parser.
pub uninterp spec fn is_cid_text(s: Seq<char>) -> bool;

/// Relies on `cid::Cid::from_str` (through ipld-core's re-export): it accepts
/// a string exactly when the string is a syntactically valid content
/// identifier, it never panics, and acceptance depends on the characters
/// alone.
#[verifier::external_body]
pub(crate) fn is_valid_cid(s: &str) -> (r: bool)
    ensures
        r == is_cid_text(s@),
{
    ipld_core::cid::Cid::from_str(s).is_ok()
}

} // verus!

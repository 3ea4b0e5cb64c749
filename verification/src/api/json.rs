//! Documents that the boundary parses itself.

use vstd::prelude::*;

verus! {

/// Whether a text is a JSON document, as `serde_json` reads it.
pub uninterp spec fn spec_is_json(text: Seq<char>) -> bool;

/// The list of unsigned numbers that a text holds as a JSON document, as
/// `serde_json` reads it, if it holds one.
pub uninterp spec fn spec_u64_list(text: Seq<char>) -> Option<Seq<u64>>;

/// Calls `serde_json::from_str` for a `serde_json::Value`. The contract claims
/// no more than that the answer depends on the text alone: whether it parses
/// is what `spec_is_json` stands for.
#[verifier::external_body]
pub(crate) fn is_json(text: &str) -> (ok: bool)
    ensures
        ok == spec_is_json(text@),
{
    serde_json::from_str::<serde_json::Value>(text).is_ok()
}

/// Calls `serde_json::from_str` for a `Vec<u64>`. The contract claims no more
/// than that the answer depends on the text alone: the list, or that there is
/// none, is what `spec_u64_list` stands for.
#[verifier::external_body]
pub(crate) fn u64_list(text: &str) -> (list: Option<Vec<u64>>)
    ensures
        match list {
            Some(numbers) => spec_u64_list(text@) == Some(numbers@),
            None => spec_u64_list(text@) is None,
        },
{
    serde_json::from_str::<Vec<u64>>(text).ok()
}

} // verus!

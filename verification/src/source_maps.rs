//! The reply shapes of the two error ops. Their resolvers - the cached
//! source-map index and the script-name formatter - live with the
//! embedder's compiler collaborator; these functions state what the ops
//! answer for every outcome of that collaborator: the resolved value when
//! it found one, the input unchanged when it did not.

use vstd::prelude::*;

verus! {

/// The apply-source-map op's reply: the original position the cached
/// source-map index resolved the generated position to, or the input
/// position unchanged when no mapping covers it.
pub fn apply_source_map_reply(
    filename: String,
    line: i64,
    column: i64,
    resolved: Option<(String, i64, i64)>,
) -> (r: (String, i64, i64))
    ensures
        resolved matches Some(p) ==> r == p,
        resolved is None ==> r == (filename, line, column),
{
    match resolved {
        Some(p) => p,
        None => (filename, line, column),
    }
}

/// The format-error op's reply: the collaborator's pretty-printed text,
/// or the guest's own error text unchanged when there is none.
pub fn format_error_reply(error: String, formatted: Option<String>) -> (r: String)
    ensures
        formatted matches Some(f) ==> r == f,
        formatted is None ==> r == error,
{
    match formatted {
        Some(f) => f,
        None => error,
    }
}

} // verus!

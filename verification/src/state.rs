//! The post lifecycle state model: a closed set of states and a total,
//! fallible mapping from the stored string representation.

use vstd::prelude::*;

verus! {

/// The publication lifecycle state of a post, stored as text in the
/// `state` column of the `post` table.
#[derive(Clone, Copy, PartialEq, Eq, Structural, Debug)]
pub enum PostState {
    Draft,
    Published,
    Trashed,
}

/// Error kind for a stored state string outside the declared alphabet
/// `{"draft", "published", "trashed"}`. Such a value is an
/// internal-consistency fault of the store, never silently coerced to a
/// default state.
#[derive(Clone, Copy, PartialEq, Eq, Structural, Debug)]
pub struct UnknownPostState;

/// The mapping from a stored state string to a lifecycle state: exactly
/// `"draft"`, `"published"` and `"trashed"` are recognized; every other
/// string is unrecognized.
pub open spec fn spec_parse_state(s: Seq<char>) -> Option<PostState> {
    if s == "draft"@ {
        Some(PostState::Draft)
    } else if s == "published"@ {
        Some(PostState::Published)
    } else if s == "trashed"@ {
        Some(PostState::Trashed)
    } else {
        None
    }
}

/// String equality on character content.
fn str_eq(a: &str, b: &str) -> (r: bool)
    ensures
        r == (a@ == b@),
{
    let a_owned: String = a.to_owned();
    let b_owned: String = b.to_owned();
    a_owned == b_owned
}

/// Parses a stored state string. Total over all strings: each member of the
/// declared alphabet maps to its state, and every other input yields
/// `UnknownPostState` (never a panic, never a silent default).
pub fn parse_state(raw: &str) -> (r: Result<PostState, UnknownPostState>)
    ensures
        r == (match spec_parse_state(raw@) {
            Some(st) => Ok::<PostState, UnknownPostState>(st),
            None => Err::<PostState, UnknownPostState>(UnknownPostState),
        }),
{
    if str_eq(raw, "draft") {
        Ok(PostState::Draft)
    } else if str_eq(raw, "published") {
        Ok(PostState::Published)
    } else if str_eq(raw, "trashed") {
        Ok(PostState::Trashed)
    } else {
        Err(UnknownPostState)
    }
}

} // verus!

//! The ways in which a unit of a run can fail. Each error is caught at the
//! unit that it befell and ends up as the reason of a failed outcome.

use vstd::prelude::*;
use vstd::string::StringExecFns;

verus! {

/// What stands in for a reason where a failure came without one.
pub const UNKNOWN_REASON: &'static str = "no reason was given";

/// The reason that a failed outcome carries for a failure that came with
/// `reason`: the reason itself, or the stand-in where it is empty.
pub open spec fn readable(reason: Seq<char>) -> Seq<char> {
    if reason.len() == 0 {
        UNKNOWN_REASON@
    } else {
        reason
    }
}

/// A readable reason is never empty, and leaves alone a reason that is not.
pub proof fn lemma_readable_is_not_empty(reason: Seq<char>)
    ensures
        readable(reason).len() > 0,
        reason.len() > 0 ==> readable(reason) == reason,
        readable(readable(reason)) == readable(reason),
{
    reveal_strlit("no reason was given");
}

/// Makes sure that a failure carries a reason: an empty one is replaced by
/// the stand-in.
pub fn readable_reason(reason: String) -> (out: String)
    ensures
        out@ == readable(reason@),
        out@.len() > 0,
{
    proof {
        lemma_readable_is_not_empty(reason@);
    }
    if reason.as_str().unicode_len() == 0 {
        String::from_str(UNKNOWN_REASON)
    } else {
        reason
    }
}

/// The records of a family could not be fetched.
#[derive(Clone, Debug, PartialEq, Eq)]
pub struct SourceError {
    pub reason: String,
}

/// The template engine could not render a template over its data.
#[derive(Clone, Debug, PartialEq, Eq)]
pub struct RenderingError {
    pub reason: String,
}

/// The destination store refused a read or a write.
#[derive(Clone, Debug, PartialEq, Eq)]
pub struct StoreError {
    pub reason: String,
}

} // verus!

//! Issue states and the words that name them in a configuration.

use vstd::prelude::*;
use crate::text::{eq_ignore_case, lower};

verus! {

/// The state of an issue on the tracker.
#[derive(Clone, Copy, Debug, PartialEq, Eq, Structural)]
pub enum IssueState {
    Open,
    Closed,
}

/// The states a listing of issues can be narrowed to.
#[derive(Clone, Copy, Debug, PartialEq, Eq, Structural)]
pub enum StateFilter {
    Open,
    Closed,
    All,
}

/// What a state word means: `open`, `closed` or `all` in any letter case,
/// and nothing else.
pub open spec fn state_word(s: Seq<char>) -> Option<StateFilter> {
    if lower(s) == "open"@ {
        Some(StateFilter::Open)
    } else if lower(s) == "closed"@ {
        Some(StateFilter::Closed)
    } else if lower(s) == "all"@ {
        Some(StateFilter::All)
    } else {
        None
    }
}

/// Reads a state word.
pub fn parse_state(param: &str) -> (r: Option<StateFilter>)
    ensures
        r == state_word(param@),
{
    proof {
        reveal_strlit("open");
        reveal_strlit("closed");
        reveal_strlit("all");
        assert(lower("open"@) =~= "open"@);
        assert(lower("closed"@) =~= "closed"@);
        assert(lower("all"@) =~= "all"@);
    }
    if eq_ignore_case(param, "open") {
        Some(StateFilter::Open)
    } else if eq_ignore_case(param, "closed") {
        Some(StateFilter::Closed)
    } else if eq_ignore_case(param, "all") {
        Some(StateFilter::All)
    } else {
        None
    }
}

} // verus!

use vstd::prelude::*;

use crate::chain::{chain_result, SelectionError};
use crate::text::{trim, trimmed};

verus! {

/// The text ranges of a selection, joined in order.
pub open spec fn joined(ranges: Seq<String>) -> Seq<char>
    decreases ranges.len(),
{
    if ranges.len() == 0 {
        Seq::empty()
    } else {
        joined(ranges.drop_last()) + ranges.last()@
    }
}

/// The text of the ranges that the focused control's text pattern reports as
/// selected: joined in order, then trimmed.
pub fn automation_text(ranges: &Vec<String>) -> (r: String)
    ensures
        r@ == trimmed(joined(ranges@)),
{
    let mut target = String::new();
    let n = ranges.len();
    let mut i: usize = 0;
    while i < n
        invariant
            n == ranges@.len(),
            i <= n,
            target@ == joined(ranges@.subrange(0, i as int)),
        decreases n - i,
    {
        assert(ranges@.subrange(0, i + 1).drop_last() =~= ranges@.subrange(0, i as int));
        target.append(ranges[i].as_str());
        i = i + 1;
    }
    assert(ranges@.subrange(0, n as int) =~= ranges@);
    trim(target.as_str())
}

/// The outcome of the automation query from the ranges it returned.
pub fn automation_outcome(ranges: Result<Vec<String>, SelectionError>) -> (r: Result<
    String,
    SelectionError,
>)
    ensures
        ranges matches Ok(v) ==> (r matches Ok(t) && t@ == trimmed(joined(v@))),
        ranges matches Err(e) ==> r == Err::<String, SelectionError>(e),
{
    match ranges {
        Ok(v) => Ok(automation_text(&v)),
        Err(e) => Err(e),
    }
}

/// The strategies tried on Windows, in order: the automation query, then the
/// clipboard transaction when it was run.
pub open spec fn strategies(
    automation: Result<String, SelectionError>,
    clipboard: Option<Result<String, SelectionError>>,
) -> Seq<Result<String, SelectionError>> {
    match clipboard {
        Some(c) => seq![automation, c],
        None => seq![automation],
    }
}

/// The selected text on Windows: the automation query's text, else the
/// clipboard transaction's, trimmed, else the empty text.
pub fn get_text(
    automation: Result<String, SelectionError>,
    clipboard: Option<Result<String, SelectionError>>,
) -> (r: String)
    ensures
        r@ == chain_result(strategies(automation, clipboard)),
{
    let mut outcomes: Vec<Result<String, SelectionError>> = Vec::new();
    outcomes.push(automation);
    match clipboard {
        Some(c) => outcomes.push(c),
        None => {},
    }
    proof {
        assert(outcomes@ =~= strategies(automation, clipboard));
    }
    crate::get_text(&outcomes)
}

} // verus!

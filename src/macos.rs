use vstd::prelude::*;

use crate::chain::{chain_result, SelectionError};
use crate::text::{decode_utf8, utf8_decoded};

verus! {

/// The outcome of the accessibility query: the selected-text attribute of the
/// focused element (`None` when no element has focus, `Some(None)` when it has
/// no such attribute).
pub fn accessibility_outcome(focused: Option<Option<String>>) -> (r: Result<String, SelectionError>)
    ensures
        focused matches Some(Some(t)) ==> r == Ok::<String, SelectionError>(t),
        !(focused matches Some(Some(_))) ==> r == Err::<String, SelectionError>(
            SelectionError::NotFound,
        ),
{
    match focused {
        Some(Some(t)) => Ok(t),
        _ => Err(SelectionError::NotFound),
    }
}

/// The outcome of the clipboard transaction script from whether it exited
/// with success and what it printed: the printed text, which must be UTF-8.
pub fn script_outcome(succeeded: bool, stdout: Vec<u8>) -> (r: Result<String, SelectionError>)
    ensures
        !succeeded ==> r == Err::<String, SelectionError>(SelectionError::ActionFailure),
        succeeded && utf8_decoded(stdout@) is None ==> r == Err::<String, SelectionError>(
            SelectionError::TransactionFailure,
        ),
        succeeded && utf8_decoded(stdout@) is Some ==> (r matches Ok(s) && utf8_decoded(stdout@)
            == Some(s@)),
{
    if !succeeded {
        return Err(SelectionError::ActionFailure);
    }
    match decode_utf8(stdout) {
        Some(t) => Ok(t),
        None => Err(SelectionError::TransactionFailure),
    }
}

/// The strategies tried on macOS, in order: the accessibility query, then the
/// clipboard transaction when it was run.
pub open spec fn strategies(
    accessibility: Result<String, SelectionError>,
    clipboard: Option<Result<String, SelectionError>>,
) -> Seq<Result<String, SelectionError>> {
    match clipboard {
        Some(c) => seq![accessibility, c],
        None => seq![accessibility],
    }
}

/// The selected text on macOS: the accessibility query's text, else the
/// clipboard transaction's, trimmed, else the empty text.
pub fn get_text(
    accessibility: Result<String, SelectionError>,
    clipboard: Option<Result<String, SelectionError>>,
) -> (r: String)
    ensures
        r@ == chain_result(strategies(accessibility, clipboard)),
{
    let mut outcomes: Vec<Result<String, SelectionError>> = Vec::new();
    outcomes.push(accessibility);
    match clipboard {
        Some(c) => outcomes.push(c),
        None => {},
    }
    proof {
        assert(outcomes@ =~= strategies(accessibility, clipboard));
    }
    crate::get_text(&outcomes)
}

} // verus!

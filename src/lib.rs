use vstd::prelude::*;

pub mod chain;
pub mod clipboard;
pub mod linux;
pub mod macos;
pub mod text;
pub mod windows;

use crate::chain::{chain_result, lemma_chain_result_trimmed, select, SelectionError};
use crate::text::{is_white_space, lemma_strip_ends, trim, Padding};

verus! {

/// The selected text, from the outcomes of the platform's strategies in the
/// order they are tried: the first non-empty one, trimmed, or the empty text
/// when none gave any.
pub fn get_text(outcomes: &Vec<Result<String, SelectionError>>) -> (r: String)
    ensures
        r@ == chain_result(outcomes@),
        r@.len() > 0 ==> !is_white_space(r@[0]) && !is_white_space(r@.last()),
{
    let picked = select(outcomes);
    proof {
        lemma_chain_result_trimmed(outcomes@);
        lemma_strip_ends(picked@, Padding::WhiteSpace);
    }
    trim(picked.as_str())
}

} // verus!

use vstd::prelude::*;

use crate::text::{lemma_strip_idempotent, trim, trimmed, Padding};

verus! {

/// Why one retrieval strategy gave no text.
#[derive(Clone, Copy, PartialEq, Eq, Debug)]
pub enum SelectionError {
    /// No focused element, no selection attribute, or no matching content type.
    NotFound,
    /// Permission not granted, service absent, or environment signal unreadable.
    Unavailable,
    /// A clipboard read, write or restore failed during a transaction.
    TransactionFailure,
    /// The copy trigger or the input synthesis did not run.
    ActionFailure,
}

/// What one strategy contributes to a chain: its trimmed text when it gave any.
pub open spec fn found(outcome: Result<String, SelectionError>) -> Option<Seq<char>> {
    match outcome {
        Ok(t) => if trimmed(t@).len() > 0 {
            Some(trimmed(t@))
        } else {
            None
        },
        Err(_) => None,
    }
}

/// The text a chain of strategies yields, their outcomes taken in order: the
/// first non-empty trimmed text, or the empty text when none gave any.
pub open spec fn chain_result(outcomes: Seq<Result<String, SelectionError>>) -> Seq<char>
    decreases outcomes.len(),
{
    if outcomes.len() == 0 {
        Seq::empty()
    } else {
        match found(outcomes[0]) {
            Some(t) => t,
            None => chain_result(outcomes.drop_first()),
        }
    }
}

/// What a chain does next.
#[derive(PartialEq, Eq, Debug)]
pub enum Step {
    /// Run the strategy with this index.
    Run(usize),
    /// Stop with this text.
    Finish(String),
}

/// The first step of a chain of `count` strategies.
pub fn start(count: usize) -> (s: Step)
    ensures
        count > 0 ==> s == Step::Run(0),
        count == 0 ==> (s matches Step::Finish(t) && t@.len() == 0),
{
    if count > 0 {
        Step::Run(0)
    } else {
        Step::Finish(String::new())
    }
}

/// The step after strategy `index` of `count` came back with `outcome`: stop
/// with its text when it found some, else run the next one, else stop empty.
pub fn advance(index: usize, count: usize, outcome: Result<String, SelectionError>) -> (s: Step)
    requires
        index < count,
    ensures
        found(outcome) matches Some(t) ==> (s matches Step::Finish(r) && r@ == t),
        found(outcome) is None && index + 1 < count ==> s == Step::Run((index + 1) as usize),
        found(outcome) is None && index + 1 == count ==> (s matches Step::Finish(r)
            && r@.len() == 0),
{
    match outcome {
        Ok(t) => {
            let text = trim(t.as_str());
            if text.unicode_len() > 0 {
                return Step::Finish(text);
            }
        },
        Err(_) => {},
    }
    if index + 1 < count {
        Step::Run(index + 1)
    } else {
        Step::Finish(String::new())
    }
}

/// The text that a chain yields from the outcomes of all its strategies.
pub fn select(outcomes: &Vec<Result<String, SelectionError>>) -> (r: String)
    ensures
        r@ == chain_result(outcomes@),
{
    let n = outcomes.len();
    let mut i: usize = 0;
    assert(outcomes@.subrange(0, n as int) =~= outcomes@);
    while i < n
        invariant
            n == outcomes@.len(),
            i <= n,
            chain_result(outcomes@) == chain_result(outcomes@.subrange(i as int, n as int)),
        decreases n - i,
    {
        let ghost rest = outcomes@.subrange(i as int, n as int);
        assert(rest.drop_first() =~= outcomes@.subrange(i + 1, n as int));
        match &outcomes[i] {
            Ok(t) => {
                let text = trim(t.as_str());
                if text.unicode_len() > 0 {
                    return text;
                }
            },
            Err(_) => {},
        }
        i = i + 1;
    }
    String::new()
}

/// The text of a chain is trimmed: white space never starts or ends it.
pub proof fn lemma_chain_result_trimmed(outcomes: Seq<Result<String, SelectionError>>)
    ensures
        trimmed(chain_result(outcomes)) == chain_result(outcomes),
    decreases outcomes.len(),
{
    if outcomes.len() > 0 {
        match outcomes[0] {
            Ok(t) => lemma_strip_idempotent(t@, Padding::WhiteSpace),
            Err(_) => {},
        }
        lemma_chain_result_trimmed(outcomes.drop_first());
    }
}

/// A strategy that fails hands the chain on: the text is then what the
/// strategies after it would give alone.
pub proof fn lemma_failed_first(
    first: Result<String, SelectionError>,
    rest: Seq<Result<String, SelectionError>>,
)
    requires
        first is Err,
    ensures
        chain_result(seq![first] + rest) == chain_result(rest),
{
    assert((seq![first] + rest).drop_first() =~= rest);
}

/// Strategies that found nothing are passed over: when none before `index`
/// found text, the chain yields what the strategies from `index` on yield,
/// which is where `advance` carries a chain on to.
pub proof fn lemma_steps_agree(outcomes: Seq<Result<String, SelectionError>>, index: int)
    requires
        0 <= index < outcomes.len(),
        forall|k: int| 0 <= k < index ==> (#[trigger] found(outcomes[k])) is None,
    ensures
        chain_result(outcomes) == chain_result(outcomes.subrange(index, outcomes.len() as int)),
    decreases index,
{
    if index > 0 {
        assert(outcomes.subrange(1, outcomes.len() as int) =~= outcomes.drop_first());
        let tail = outcomes.drop_first();
        assert forall|k: int| 0 <= k < index - 1 implies (#[trigger] found(tail[k])) is None by {
            assert(tail[k] == outcomes[k + 1]);
        }
        assert(found(outcomes[0]) is None);
        lemma_steps_agree(tail, index - 1);
        assert(tail.subrange(index - 1, tail.len() as int) =~= outcomes.subrange(
            index,
            outcomes.len() as int,
        ));
    } else {
        assert(outcomes.subrange(0, outcomes.len() as int) =~= outcomes);
    }
}

} // verus!

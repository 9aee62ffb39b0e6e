use vstd::prelude::*;

use crate::chain::SelectionError;
use crate::text::{trim, trimmed};

verus! {

/// An image held on the clipboard: its size in pixels and its RGBA bytes.
#[derive(Clone, PartialEq, Eq, Debug)]
pub struct ImageData {
    pub width: usize,
    pub height: usize,
    pub bytes: Vec<u8>,
}

/// What the clipboard held before a transaction.
#[derive(Clone, PartialEq, Eq, Debug)]
pub enum Snapshot {
    Text(String),
    Image(ImageData),
    Empty,
}

/// The snapshot of a clipboard that read as `text` and as `image`: its text
/// when it has one, else its image, else empty.
pub open spec fn snapshot_of(text: Option<String>, image: Option<ImageData>) -> Snapshot {
    match text {
        Some(t) => Snapshot::Text(t),
        None => match image {
            Some(i) => Snapshot::Image(i),
            None => Snapshot::Empty,
        },
    }
}

/// Takes the snapshot of a clipboard that read as `text` and as `image`.
pub fn capture(text: Option<String>, image: Option<ImageData>) -> (s: Snapshot)
    ensures
        s == snapshot_of(text, image),
{
    match text {
        Some(t) => Snapshot::Text(t),
        None => match image {
            Some(i) => Snapshot::Image(i),
            None => Snapshot::Empty,
        },
    }
}

/// The ways a transaction makes the focused control copy its selection.
#[derive(Clone, Copy, PartialEq, Eq, Debug)]
pub enum CopyTrigger {
    /// A copy command sent straight to the focused control.
    Direct,
    /// A synthesised control+C key chord, with every modifier released first.
    Chord,
}

/// Whether to fall back to the key chord after `trigger` was tried and the
/// revision counter went from `before` to `after`: only a direct command that
/// left the clipboard unchanged calls for it.
pub fn escalate(trigger: CopyTrigger, before: u32, after: u32) -> (r: bool)
    ensures
        r == (trigger == CopyTrigger::Direct && before == after),
{
    match trigger {
        CopyTrigger::Direct => before == after,
        CopyTrigger::Chord => false,
    }
}

/// How a clipboard transaction ends once the copy has been tried.
#[derive(Debug)]
pub struct Conclusion {
    /// The text the transaction yields, or why it yields none.
    pub result: Result<String, SelectionError>,
    /// What to write back to the clipboard, if anything.
    pub restore: Option<Snapshot>,
}

/// The result of a transaction whose revision counter went from `before` to
/// `after` and whose clipboard then read as `copied`.
pub open spec fn conclusion_result(before: u32, after: u32, copied: Option<String>) -> Result<
    Seq<char>,
    SelectionError,
> {
    if before == after {
        Ok(Seq::empty())
    } else {
        match copied {
            Some(t) => Ok(trimmed(t@)),
            None => Err(SelectionError::TransactionFailure),
        }
    }
}

/// What such a transaction writes back: nothing when the clipboard did not
/// change, else the snapshot taken before the copy.
pub open spec fn conclusion_restore(snapshot: Snapshot, before: u32, after: u32) -> Option<
    Snapshot,
> {
    if before == after {
        None
    } else {
        Some(snapshot)
    }
}

/// The clipboard once `restore` has been written over `current`.
pub open spec fn after_restore(current: Snapshot, restore: Option<Snapshot>) -> Snapshot {
    match restore {
        Some(s) => s,
        None => current,
    }
}

/// Ends a transaction: with the revision counter unchanged nothing was
/// selected, which yields the empty text and leaves the clipboard alone;
/// otherwise the copied text is taken, trimmed, and the snapshot is written back.
pub fn conclude(snapshot: Snapshot, before: u32, after: u32, copied: Option<String>) -> (c:
    Conclusion)
    ensures
        c.restore == conclusion_restore(snapshot, before, after),
        c.result is Ok <==> conclusion_result(before, after, copied) is Ok,
        c.result matches Ok(t) ==> conclusion_result(before, after, copied) == Ok::<
            Seq<char>,
            SelectionError,
        >(t@),
        c.result matches Err(e) ==> conclusion_result(before, after, copied) == Err::<
            Seq<char>,
            SelectionError,
        >(e),
{
    if before == after {
        Conclusion { result: Ok(String::new()), restore: None }
    } else {
        let result = match copied {
            Some(t) => Ok(trim(t.as_str())),
            None => Err(SelectionError::TransactionFailure),
        };
        Conclusion { result, restore: Some(snapshot) }
    }
}

/// The outcome of a transaction once the write-back was tried: a failed
/// write-back is a transaction failure whatever was copied.
pub fn settle(result: Result<String, SelectionError>, restored: bool) -> (r: Result<
    String,
    SelectionError,
>)
    ensures
        restored ==> r == result,
        !restored ==> r == Err::<String, SelectionError>(SelectionError::TransactionFailure),
{
    if restored {
        result
    } else {
        Err(SelectionError::TransactionFailure)
    }
}

/// A transaction leaves the clipboard as it found it. When nothing is
/// selected the copy leaves the clipboard untouched and nothing is written
/// back; when something is, whatever the copy put there is overwritten with
/// the snapshot of what was there before.
pub proof fn lemma_clipboard_kept(found: Snapshot, before: u32, after: u32, copied: Snapshot)
    ensures
        after_restore(
            if before == after {
                found
            } else {
                copied
            },
            conclusion_restore(found, before, after),
        ) == found,
{
}

} // verus!

use vstd::prelude::*;

use crate::chain::{chain_result, SelectionError};
use crate::text::{buffer_text, lossy_utf8, strip, trimmed, Padding};

verus! {

/// The process-wide session signals: the session type and the backend
/// override, each absent when unset or unreadable.
#[derive(Clone, Debug)]
pub struct PlatformContext {
    pub session: Option<String>,
    pub backend: Option<String>,
}

/// The context as plain character sequences.
pub struct ContextView {
    pub session: Option<Seq<char>>,
    pub backend: Option<Seq<char>>,
}

pub open spec fn text_of(s: Option<String>) -> Option<Seq<char>> {
    match s {
        Some(t) => Some(t@),
        None => None,
    }
}

impl View for PlatformContext {
    type V = ContextView;

    open spec fn view(&self) -> ContextView {
        ContextView { session: text_of(self.session), backend: text_of(self.backend) }
    }
}

/// The windowing session that decides how the selection is read.
#[derive(Clone, Copy, PartialEq, Eq, Debug)]
pub enum Session {
    X11,
    Wayland,
    Unknown,
}

pub open spec fn session_of(v: ContextView) -> Session {
    match v.session {
        Some(s) => if s == "x11"@ {
            Session::X11
        } else if s == "wayland"@ {
            Session::Wayland
        } else {
            Session::Unknown
        },
        None => Session::Unknown,
    }
}

/// The context after the one-time move to the X11 path: both signals say `x11`.
pub open spec fn downgraded(v: ContextView) -> ContextView {
    ContextView { session: Some("x11"@), backend: Some("x11"@) }
}

impl PlatformContext {
    /// The session that the session-type signal names.
    pub fn session(&self) -> (s: Session)
        ensures
            s == session_of(self@),
    {
        match &self.session {
            Some(t) => {
                let x11 = "x11".to_owned();
                let wayland = "wayland".to_owned();
                if t.eq(&x11) {
                    Session::X11
                } else if t.eq(&wayland) {
                    Session::Wayland
                } else {
                    Session::Unknown
                }
            },
            None => Session::Unknown,
        }
    }

    /// Moves the session for good to the X11 path.
    pub fn downgrade(&mut self)
        ensures
            final(self)@ == downgraded(old(self)@),
    {
        self.session = Some("x11".to_owned());
        self.backend = Some("x11".to_owned());
    }
}

/// Moving to the X11 path a second time changes nothing.
pub proof fn lemma_downgrade_idempotent(v: ContextView)
    ensures
        downgraded(downgraded(v)) == downgraded(v),
{
}

/// Where a Wayland session reads the selection from.
#[derive(Clone, Copy, PartialEq, Eq, Debug)]
pub enum WaylandPath {
    /// The compositor has a primary selection: read it.
    Primary,
    /// It has none, or the probe failed: the context was moved to X11.
    X11,
}

/// Acts on the probe for primary-selection support (`None` when the probe
/// itself failed): without support the context moves to the X11 path.
pub fn after_probe(ctx: &mut PlatformContext, supported: Option<bool>) -> (p: WaylandPath)
    ensures
        supported == Some(true) ==> p == WaylandPath::Primary && final(ctx)@ == old(ctx)@,
        supported != Some(true) ==> p == WaylandPath::X11 && final(ctx)@ == downgraded(
            old(ctx)@,
        ),
{
    match supported {
        Some(true) => WaylandPath::Primary,
        _ => {
            ctx.downgrade();
            WaylandPath::X11
        },
    }
}

/// Why reading the X11 primary selection failed.
#[derive(Clone, Copy, PartialEq, Eq, Debug)]
pub enum X11Failure {
    /// No connection to the X server.
    Connection,
    /// The selection owner did not answer in time.
    Timeout,
    /// The selection has no owner.
    NoOwner,
    /// Any other protocol error.
    Protocol,
}

pub open spec fn x11_error(f: X11Failure) -> SelectionError {
    match f {
        X11Failure::Connection => SelectionError::Unavailable,
        X11Failure::Timeout => SelectionError::NotFound,
        X11Failure::NoOwner => SelectionError::NotFound,
        X11Failure::Protocol => SelectionError::TransactionFailure,
    }
}

/// The text of the X11 primary selection from what reading it gave.
pub fn x11_outcome(load: Result<Vec<u8>, X11Failure>) -> (r: Result<String, SelectionError>)
    ensures
        load matches Ok(b) ==> (r matches Ok(t) && t@ == trimmed(
            strip(lossy_utf8(b@), Padding::Nul),
        )),
        load matches Err(f) ==> r == Err::<String, SelectionError>(x11_error(f)),
{
    match load {
        Ok(bytes) => Ok(buffer_text(&bytes)),
        Err(X11Failure::Connection) => Err(SelectionError::Unavailable),
        Err(X11Failure::Timeout) => Err(SelectionError::NotFound),
        Err(X11Failure::NoOwner) => Err(SelectionError::NotFound),
        Err(X11Failure::Protocol) => Err(SelectionError::TransactionFailure),
    }
}

/// Why reading the Wayland primary selection failed.
#[derive(Clone, Copy, PartialEq, Eq, Debug)]
pub enum PasteFailure {
    /// The compositor has no seats.
    NoSeats,
    /// The clipboard of the seat is empty.
    ClipboardEmpty,
    /// No offered content type is text.
    NoMimeType,
    /// The compositor could not be reached or lacks a protocol.
    Compositor,
    /// The content pipe could not be read.
    Read,
}

/// The text of the Wayland primary selection from what reading it gave: the
/// failures that mean nothing is selected give the empty text.
pub fn wayland_outcome(paste: Result<Vec<u8>, PasteFailure>) -> (r: Result<String, SelectionError>)
    ensures
        paste matches Ok(b) ==> (r matches Ok(t) && t@ == trimmed(
            strip(lossy_utf8(b@), Padding::Nul),
        )),
        paste matches Err(f) && (f == PasteFailure::NoSeats || f == PasteFailure::ClipboardEmpty
            || f == PasteFailure::NoMimeType) ==> (r matches Ok(t) && t@.len() == 0),
        paste == Err::<Vec<u8>, PasteFailure>(PasteFailure::Compositor) ==> r == Err::<
            String,
            SelectionError,
        >(SelectionError::Unavailable),
        paste == Err::<Vec<u8>, PasteFailure>(PasteFailure::Read) ==> r == Err::<
            String,
            SelectionError,
        >(SelectionError::TransactionFailure),
{
    match paste {
        Ok(bytes) => Ok(buffer_text(&bytes)),
        Err(PasteFailure::NoSeats) => Ok(String::new()),
        Err(PasteFailure::ClipboardEmpty) => Ok(String::new()),
        Err(PasteFailure::NoMimeType) => Ok(String::new()),
        Err(PasteFailure::Compositor) => Err(SelectionError::Unavailable),
        Err(PasteFailure::Read) => Err(SelectionError::TransactionFailure),
    }
}

/// The selected text on Linux, where a single path is taken: its text,
/// trimmed, or the empty text when it failed.
pub fn get_text(outcome: Result<String, SelectionError>) -> (r: String)
    ensures
        r@ == chain_result(seq![outcome]),
{
    let mut outcomes: Vec<Result<String, SelectionError>> = Vec::new();
    outcomes.push(outcome);
    crate::get_text(&outcomes)
}

} // verus!

use selection::chain::{advance, select, start, SelectionError, Step};
use selection::clipboard::{capture, conclude, escalate, settle, CopyTrigger, ImageData, Snapshot};
use selection::get_text;
use selection::macos::{accessibility_outcome, script_outcome};
use selection::linux::{
    after_probe, wayland_outcome, x11_outcome, PasteFailure, PlatformContext, Session,
    WaylandPath, X11Failure,
};
use selection::text::{buffer_text, is_whitespace, strip_ends, trim, Padding};
use selection::windows::{automation_outcome, automation_text};

fn ok(s: &str) -> Result<String, SelectionError> {
    Ok(s.to_string())
}

#[test]
fn it_works() {
    println!("{}", get_text(&vec![]));
}

#[test]
fn trim_removes_surrounding_white_space() {
    assert_eq!(trim("  \t hello world \n\r "), "hello world");
    assert_eq!(trim("\u{3000}x\u{00a0}"), "x");
    assert_eq!(trim("   "), "");
    assert_eq!(trim(""), "");
    assert_eq!(trim("a b"), "a b");
}

#[test]
fn white_space_matches_std() {
    for u in 0u32..0x3100 {
        if let Some(c) = char::from_u32(u) {
            assert_eq!(is_whitespace(c), c.is_whitespace(), "{u:#x}");
        }
    }
}

#[test]
fn strip_nul_keeps_inner_text() {
    assert_eq!(strip_ends("\0\0ab\0c\0", Padding::Nul), "ab\0c");
    assert_eq!(strip_ends(" a ", Padding::Nul), " a ");
}

#[test]
fn buffer_text_strips_nul_then_white_space() {
    assert_eq!(buffer_text(&b"  hi there \0\0".to_vec()), "hi there");
    assert_eq!(buffer_text(&vec![]), "");
    assert_eq!(buffer_text(&vec![0x61, 0xff, 0x62]), "a\u{fffd}b");
}

#[test]
fn chain_takes_first_non_empty() {
    let outcomes = vec![ok("   "), Err(SelectionError::NotFound), ok(" two "), ok("three")];
    assert_eq!(get_text(&outcomes), "two");
    assert_eq!(select(&outcomes), "two");
}

#[test]
fn chain_with_failing_first_equals_second_alone() {
    let second = ok("  from clipboard ");
    let both = vec![Err(SelectionError::Unavailable), second.clone()];
    assert_eq!(get_text(&both), get_text(&vec![second]));
    assert_eq!(get_text(&both), "from clipboard");
}

#[test]
fn chain_exhausted_is_empty() {
    let outcomes = vec![Err(SelectionError::NotFound), ok(" \n ")];
    assert_eq!(get_text(&outcomes), "");
    assert_eq!(get_text(&vec![]), "");
}

#[test]
fn steps_follow_the_chain() {
    assert_eq!(start(2), Step::Run(0));
    assert_eq!(start(0), Step::Finish(String::new()));
    assert_eq!(advance(0, 2, Err(SelectionError::Unavailable)), Step::Run(1));
    assert_eq!(advance(0, 2, ok("  ")), Step::Run(1));
    assert_eq!(advance(1, 2, ok(" abc ")), Step::Finish("abc".to_string()));
    assert_eq!(advance(1, 2, Err(SelectionError::ActionFailure)), Step::Finish(String::new()));
}

#[test]
fn snapshot_prefers_text_then_image() {
    let img = ImageData { width: 1, height: 1, bytes: vec![1, 2, 3, 4] };
    assert_eq!(capture(Some("t".to_string()), Some(img.clone())), Snapshot::Text("t".to_string()));
    assert_eq!(capture(None, Some(img.clone())), Snapshot::Image(img));
    assert_eq!(capture(None, None), Snapshot::Empty);
}

#[test]
fn unchanged_clipboard_is_left_alone() {
    let snap = Snapshot::Text("keep".to_string());
    let c = conclude(snap, 7, 7, Some("keep".to_string()));
    assert_eq!(c.result, Ok(String::new()));
    assert_eq!(c.restore, None);
}

#[test]
fn transaction_restores_old_clipboard() {
    let old = capture(Some("xyz".to_string()), None);
    let c = conclude(old, 3, 4, Some("abc".to_string()));
    assert_eq!(c.result, ok("abc"));
    assert_eq!(c.restore, Some(Snapshot::Text("xyz".to_string())));
    let text = selection::macos::get_text(Err(SelectionError::Unavailable), Some(c.result));
    assert_eq!(text, "abc");
}

#[test]
fn transaction_without_text_fails() {
    let c = conclude(Snapshot::Empty, 1, 2, None);
    assert_eq!(c.result, Err(SelectionError::TransactionFailure));
    assert_eq!(c.restore, Some(Snapshot::Empty));
}

#[test]
fn failed_restore_fails_transaction() {
    assert_eq!(settle(ok("abc"), false), Err(SelectionError::TransactionFailure));
    assert_eq!(settle(ok("abc"), true), ok("abc"));
}

#[test]
fn session_from_signal() {
    let mut ctx = PlatformContext { session: Some("x11".to_string()), backend: None };
    assert_eq!(ctx.session(), Session::X11);
    ctx.session = Some("wayland".to_string());
    assert_eq!(ctx.session(), Session::Wayland);
    ctx.session = Some("tty".to_string());
    assert_eq!(ctx.session(), Session::Unknown);
    ctx.session = None;
    assert_eq!(ctx.session(), Session::Unknown);
}

#[test]
fn downgrade_twice_equals_once() {
    let start_ctx = PlatformContext { session: Some("wayland".to_string()), backend: None };
    let mut once = start_ctx.clone();
    assert_eq!(after_probe(&mut once, Some(false)), WaylandPath::X11);
    let mut twice = start_ctx.clone();
    assert_eq!(after_probe(&mut twice, None), WaylandPath::X11);
    twice.downgrade();
    assert_eq!(once.session, Some("x11".to_string()));
    assert_eq!(once.backend, Some("x11".to_string()));
    assert_eq!(once.session, twice.session);
    assert_eq!(once.backend, twice.backend);
    assert_eq!(once.session(), Session::X11);
}

#[test]
fn supported_primary_keeps_context() {
    let mut ctx = PlatformContext { session: Some("wayland".to_string()), backend: None };
    assert_eq!(after_probe(&mut ctx, Some(true)), WaylandPath::Primary);
    assert_eq!(ctx.session, Some("wayland".to_string()));
    assert_eq!(ctx.backend, None);
}

#[test]
fn x11_timeout_gives_empty_text() {
    let outcome = x11_outcome(Err(X11Failure::Timeout));
    assert_eq!(outcome, Err(SelectionError::NotFound));
    assert_eq!(selection::linux::get_text(outcome), "");
}

#[test]
fn x11_buffer_is_cleaned() {
    assert_eq!(x11_outcome(Ok(b" sel\0".to_vec())), ok("sel"));
    assert_eq!(x11_outcome(Err(X11Failure::Connection)), Err(SelectionError::Unavailable));
}

#[test]
fn wayland_nothing_selected_is_empty() {
    assert_eq!(wayland_outcome(Err(PasteFailure::NoSeats)), ok(""));
    assert_eq!(wayland_outcome(Err(PasteFailure::ClipboardEmpty)), ok(""));
    assert_eq!(wayland_outcome(Err(PasteFailure::NoMimeType)), ok(""));
    assert_eq!(wayland_outcome(Err(PasteFailure::Read)), Err(SelectionError::TransactionFailure));
    assert_eq!(wayland_outcome(Ok(b"\nword\n".to_vec())), ok("word"));
}

#[test]
fn automation_joins_ranges() {
    let ranges = vec!["Hello ".to_string(), "World".to_string()];
    assert_eq!(automation_text(&ranges), "Hello World");
    assert_eq!(automation_outcome(Ok(ranges)), ok("Hello World"));
    assert_eq!(automation_text(&vec![]), "");
    let text = selection::windows::get_text(automation_outcome(Ok(vec![" a".to_string(), "b ".to_string()])), None);
    assert_eq!(text, "ab");
}

#[test]
fn macos_accessibility_and_script() {
    assert_eq!(accessibility_outcome(None), Err(SelectionError::NotFound));
    assert_eq!(accessibility_outcome(Some(None)), Err(SelectionError::NotFound));
    assert_eq!(accessibility_outcome(Some(Some("x".to_string()))), ok("x"));
    assert_eq!(script_outcome(false, b"x".to_vec()), Err(SelectionError::ActionFailure));
    assert_eq!(script_outcome(true, vec![0xff]), Err(SelectionError::TransactionFailure));
    assert_eq!(script_outcome(true, b"copied\n".to_vec()), ok("copied\n"));
    let text = selection::macos::get_text(ok("  "), Some(script_outcome(true, b" copied\n".to_vec())));
    assert_eq!(text, "copied");
}

#[test]
fn chord_only_after_direct_copy_changed_nothing() {
    assert!(escalate(CopyTrigger::Direct, 5, 5));
    assert!(!escalate(CopyTrigger::Direct, 5, 6));
    assert!(!escalate(CopyTrigger::Chord, 5, 5));
}

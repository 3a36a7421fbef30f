//! Behaviour of the timeline scanner on concrete scripts.

use typewriter::script::{EventKind, Timeline, TypedLine};
use typewriter::scan;

fn line(text: &str, time_to_type: u64, time_to_wait: u64) -> TypedLine {
    TypedLine { text: text.to_string(), time_to_type, time_to_wait }
}

fn timeline(lines: Vec<TypedLine>) -> Timeline {
    Timeline::from_lines(&lines)
}

fn chars(s: &str) -> Vec<char> {
    s.chars().collect()
}

#[test]
fn determinism_repeated_scans() {
    let tl = timeline(vec![line("Hello", 100, 50), line("World", 100, 0)]);
    let first = scan(&tl, 130);
    let second = scan(&tl, 130);
    assert_eq!(first, second);
    let third = scan(&tl, 130);
    assert_eq!(first, third);
}

#[test]
fn monotonic_reveal_progression() {
    let tl = timeline(vec![line("ABCD", 100, 0)]);
    assert_eq!(scan(&tl, 0), (chars(""), false));
    assert_eq!(scan(&tl, 24), (chars(""), false));
    assert_eq!(scan(&tl, 25), (chars("A"), false));
    assert_eq!(scan(&tl, 50), (chars("AB"), false));
    assert_eq!(scan(&tl, 99), (chars("ABC"), false));
    assert_eq!(scan(&tl, 100), (chars("ABCD\n"), true));
    assert_eq!(scan(&tl, 100_000), (chars("ABCD\n"), true));
    let mut previous: usize = 0;
    for elapsed in 0..120u64 {
        let (text, _) = scan(&tl, elapsed);
        assert!(text.len() >= previous);
        previous = text.len();
    }
}

#[test]
fn short_window_reveals_all_at_once() {
    // A typing window shorter than the text gives a zero per-character
    // share, which reveals the whole text immediately.
    let tl = timeline(vec![line("ABC", 2, 0)]);
    assert_eq!(scan(&tl, 0), (chars("ABC"), false));
    assert_eq!(scan(&tl, 1), (chars("ABC"), false));
    assert_eq!(scan(&tl, 2), (chars("ABC\n"), true));
}

#[test]
fn zero_length_text_pause() {
    let tl = timeline(vec![line("", 40, 60), line("X", 0, 0)]);
    assert_eq!(scan(&tl, 0).0, chars(""));
    assert_eq!(scan(&tl, 39).0, chars(""));
    assert_eq!(scan(&tl, 40).0, chars(""));
    assert_eq!(scan(&tl, 99).0, chars(""));
    assert_eq!(scan(&tl, 100), (chars("X\n"), true));
}

#[test]
fn empty_text_adds_no_terminator_line() {
    let tl = timeline(vec![line("A", 0, 0), line("", 0, 0), line("B", 0, 0)]);
    assert_eq!(scan(&tl, 0), (chars("A\nB\n"), true));
}

#[test]
fn clear_semantics() {
    let tl = timeline(vec![line("AB", 100, 0), line("CLEAR", 50, 0), line("C", 100, 0)]);
    // While the clearing event's windows last, the old text holds on.
    assert_eq!(scan(&tl, 120), (chars("AB\n"), true));
    assert_eq!(scan(&tl, 149), (chars("AB\n"), true));
    // Once they have passed, the buffer is empty and "C" is being typed.
    assert_eq!(scan(&tl, 150), (chars(""), false));
    assert_eq!(scan(&tl, 200), (chars(""), false));
    assert_eq!(scan(&tl, 249), (chars(""), false));
    assert_eq!(scan(&tl, 250), (chars("C\n"), true));
}

#[test]
fn clear_erases_earlier_lines() {
    let tl = timeline(vec![line("AB", 0, 0), line("CD", 0, 0), line("CLEAR", 0, 0)]);
    assert_eq!(scan(&tl, 5), (chars(""), true));
}

#[test]
fn backspace_instantaneous() {
    let tl = timeline(vec![line("AB", 0, 0), line("BACK", 0, 0), line("C", 0, 0)]);
    // The backspace removes the final character (the just-written line
    // terminator) at every elapsed time alike, with no time cost.
    assert_eq!(scan(&tl, 0), (chars("ABC\n"), true));
    assert_eq!(scan(&tl, 5), (chars("ABC\n"), true));
    assert_eq!(scan(&tl, 123_456), (chars("ABC\n"), true));
}

#[test]
fn backspace_on_empty_buffer() {
    let tl = timeline(vec![line("BACK", 0, 0), line("A", 0, 0)]);
    assert_eq!(scan(&tl, 0), (chars("A\n"), true));
}

#[test]
fn empty_timeline_settles_immediately() {
    let tl = timeline(vec![]);
    assert_eq!(scan(&tl, 0), (chars(""), true));
    assert_eq!(scan(&tl, u64::MAX), (chars(""), true));
}

#[test]
fn waiting_window_pauses_next_event() {
    let tl = timeline(vec![line("A", 10, 90), line("B", 10, 0)]);
    assert_eq!(scan(&tl, 10), (chars("A\n"), true));
    assert_eq!(scan(&tl, 99), (chars("A\n"), true));
    assert_eq!(scan(&tl, 100), (chars("A\n"), false));
    assert_eq!(scan(&tl, 110), (chars("A\nB\n"), true));
}

#[test]
fn budget_fits_ordinary_script() {
    let tl = timeline(vec![line("Hello", 100, 50), line("CLEAR", 50, 0)]);
    assert!(tl.budget_fits());
    assert!(timeline(vec![]).budget_fits());
}

#[test]
fn budget_fits_rejects_overflowing_script() {
    let tl = timeline(vec![line("A", u64::MAX, 0), line("B", 1, 0)]);
    assert!(!tl.budget_fits());
    let tl = timeline(vec![line("A", u64::MAX - 1, 2)]);
    assert!(!tl.budget_fits());
    let tl = timeline(vec![line("A", u64::MAX - 1, 1)]);
    assert!(tl.budget_fits());
}

#[test]
fn from_lines_classifies_reserved_texts() {
    let tl = timeline(vec![line("CLEAR", 1, 2), line("BACK", 3, 4), line("hi", 5, 6)]);
    assert!(matches!(tl.events[0].kind, EventKind::Clear));
    assert_eq!(tl.events[0].type_duration, 1);
    assert_eq!(tl.events[0].wait_duration, 2);
    assert!(matches!(tl.events[1].kind, EventKind::Backspace));
    match &tl.events[2].kind {
        EventKind::Type(text) => assert_eq!(*text, chars("hi")),
        _ => panic!("literal text must load as a typing event"),
    }
}

//! Behaviour of the viewport compositor, the blink clock and the full
//! render pipeline on concrete inputs.

use typewriter::script::TypedLine;
use typewriter::{clip, is_visible, locate_caret, TypeWriter};

fn line(text: &str, time_to_type: u64, time_to_wait: u64) -> TypedLine {
    TypedLine { text: text.to_string(), time_to_type, time_to_wait }
}

fn chars(s: &str) -> Vec<char> {
    s.chars().collect()
}

#[test]
fn clip_keeps_last_lines() {
    assert_eq!(clip(&chars("A\nB\nC\n"), 2), chars("B\nC"));
    assert_eq!(clip(&chars("A\nB\nC\n"), 3), chars("A\nB\nC\n"));
    assert_eq!(clip(&chars("A\nB\nC\n"), 10), chars("A\nB\nC\n"));
}

#[test]
fn clip_unterminated_last_line() {
    assert_eq!(clip(&chars("A\nB\nCD"), 2), chars("B\nCD"));
    assert_eq!(clip(&chars("A\nB\nCD"), 1), chars("CD"));
}

#[test]
fn clip_degenerate_height() {
    assert_eq!(clip(&chars("AB"), 0), chars(""));
    assert_eq!(clip(&chars("A\nB\n"), 0), chars(""));
    assert_eq!(clip(&chars(""), 0), chars(""));
}

#[test]
fn caret_advances_and_wraps() {
    // Ten characters in a three-cell-wide viewport wrap after every third.
    assert_eq!(locate_caret(&chars("HelloWorld"), 3, 4), Some((3, 1)));
    // Too small a height puts the caret off screen.
    assert_eq!(locate_caret(&chars("HelloWorld"), 3, 2), None);
}

#[test]
fn caret_after_terminator_starts_next_row() {
    assert_eq!(locate_caret(&chars("AB\n"), 10, 5), Some((1, 0)));
    assert_eq!(locate_caret(&chars("AB"), 10, 5), Some((0, 2)));
}

#[test]
fn caret_on_empty_text() {
    assert_eq!(locate_caret(&chars(""), 10, 5), Some((0, 0)));
    assert_eq!(locate_caret(&chars(""), 10, 0), None);
}

#[test]
fn caret_degenerate_width() {
    assert_eq!(locate_caret(&chars(""), 0, 5), None);
    assert_eq!(locate_caret(&chars("AB"), 0, 5), None);
}

#[test]
fn blink_periodicity() {
    assert!(is_visible(0, 500));
    assert!(is_visible(499, 500));
    assert!(!is_visible(500, 500));
    assert!(!is_visible(999, 500));
    assert!(is_visible(1000, 500));
    assert!(is_visible(1499, 500));
    assert!(!is_visible(1500, 500));
}

#[test]
fn blink_zero_period_never_hides() {
    assert!(is_visible(0, 0));
    assert!(is_visible(12_345, 0));
}

#[test]
fn new_preserves_configuration() {
    let tw = TypeWriter::new(7, 500, vec![line("hi", 5, 6)]);
    assert_eq!(tw.started_at, 7);
    assert_eq!(tw.blinking_cursor_speed, 500);
    assert_eq!(tw.timeline.events.len(), 1);
}

#[test]
fn render_text_pairs_scan_with_blink() {
    let tw = TypeWriter::new(0, 500, vec![line("ABCD", 100, 0)]);
    assert_eq!(tw.render_text(50), (chars("AB"), true));
    assert_eq!(tw.render_text(600), (chars("ABCD\n"), false));
}

#[test]
fn render_full_pipeline() {
    let tw = TypeWriter::new(0, 500, vec![line("Hi", 0, 0)]);
    let state = tw.render(10, 10, 5);
    assert_eq!(state.visible_text, chars("Hi\n"));
    assert_eq!(state.caret_cell, Some((1, 0)));
    assert!(state.caret_visible);
}

#[test]
fn render_clips_overflowing_transcript() {
    let tw = TypeWriter::new(0, 500, vec![line("A", 0, 0), line("B", 0, 0), line("C", 0, 0)]);
    let state = tw.render(0, 10, 2);
    assert_eq!(state.visible_text, chars("B\nC"));
    assert_eq!(state.caret_cell, Some((1, 1)));
}

#[test]
fn render_hides_blinked_off_caret() {
    let tw = TypeWriter::new(0, 500, vec![line("Hi", 0, 0)]);
    let state = tw.render(700, 10, 5);
    assert_eq!(state.visible_text, chars("Hi\n"));
    assert_eq!(state.caret_cell, Some((1, 0)));
    assert!(!state.caret_visible);
}

#[test]
fn render_clamps_time_before_session_start() {
    let tw = TypeWriter::new(100, 500, vec![line("ABCD", 100, 0)]);
    let early = tw.render(40, 10, 5);
    let at_start = tw.render(100, 10, 5);
    assert_eq!(early.visible_text, at_start.visible_text);
    assert_eq!(early.visible_text, chars(""));
    assert_eq!(early.caret_cell, Some((0, 0)));
}

#[test]
fn render_mid_typing_puts_caret_after_partial_text() {
    let tw = TypeWriter::new(0, 500, vec![line("Hello", 100, 0)]);
    let state = tw.render(50, 10, 5);
    assert_eq!(state.visible_text, chars("He"));
    assert_eq!(state.caret_cell, Some((0, 2)));
    assert!(state.caret_visible);
}

#[test]
fn render_degenerate_geometry() {
    let tw = TypeWriter::new(0, 500, vec![line("Hi", 0, 0)]);
    let zero_width = tw.render(0, 0, 5);
    assert_eq!(zero_width.caret_cell, None);
    assert!(!zero_width.caret_visible);
    let zero_height = tw.render(0, 10, 0);
    assert_eq!(zero_height.visible_text, chars(""));
    assert_eq!(zero_height.caret_cell, None);
    assert!(!zero_height.caret_visible);
}

#[test]
fn render_off_screen_caret_not_drawn() {
    let tw = TypeWriter::new(0, 500, vec![line("HelloWorld", 0, 0)]);
    // Width one wraps every character; the caret lands below the viewport.
    let state = tw.render(0, 1, 3);
    assert_eq!(state.caret_cell, None);
    assert!(!state.caret_visible);
}

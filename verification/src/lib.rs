//! A time-driven incremental text reveal engine: given a fixed start
//! instant and a scripted sequence of typing, clearing and backspacing
//! events, it computes which text is visible at any later instant, clips
//! that text to a bounded viewport, and places a blinking caret after the
//! last revealed character. Every render is a fresh, total function of the
//! elapsed time; no state survives between frames.

pub mod blink;
pub mod scan;
pub mod script;
pub mod viewport;

pub use blink::is_visible;
pub use scan::scan;
pub use script::{EventKind, ScriptEvent, Timeline, TypedLine};
pub use viewport::{clip, locate_caret};

use vstd::prelude::*;
use crate::blink::blink_spec;
use crate::scan::scan_text;
use crate::script::line_matches_event;
use crate::viewport::{caret_spec, cell_view, clip_spec};

verus! {

/// The typewriter display: a fixed timeline, the caret's blink period and
/// the session's fixed start instant, all in milliseconds of the host's
/// clock. Only read during playback; every render recomputes its output
/// from scratch.
pub struct TypeWriter {
    /// The scripted timeline, fixed at construction.
    pub timeline: Timeline,
    /// The caret's blink period, in milliseconds.
    pub blinking_cursor_speed: u64,
    /// The session's start instant, in the host's millisecond clock.
    pub started_at: u64,
}

/// What one render tick draws: the clipped visible text (lines separated
/// by `'\n'`), the caret cell as `(row, column)` when it lies inside the
/// viewport, and whether the caret glyph is drawn there this tick.
pub struct RenderState {
    pub visible_text: Vec<char>,
    pub caret_cell: Option<(usize, usize)>,
    pub caret_visible: bool,
}

/// The time passed since the session started; an earlier instant clamps
/// to zero rather than faulting.
pub open spec fn elapsed_of(now: int, started_at: int) -> int {
    if now >= started_at {
        now - started_at
    } else {
        0
    }
}

impl TypeWriter {
    /// The machine-range bound the scanner needs of its timeline.
    pub open spec fn wf(self) -> bool {
        self.timeline.wf()
    }

    /// Builds the display from script rows, classifying each row once at
    /// load time.
    pub fn new(started_at: u64, blinking_cursor_speed: u64, pages: Vec<TypedLine>) -> (r:
        TypeWriter)
        ensures
            r.started_at == started_at,
            r.blinking_cursor_speed == blinking_cursor_speed,
            r.timeline@.len() == pages@.len(),
            forall|i: int|
                0 <= i < pages@.len() ==> line_matches_event(pages@[i], #[trigger] r.timeline@[i]),
    {
        TypeWriter {
            timeline: Timeline::from_lines(&pages),
            blinking_cursor_speed: blinking_cursor_speed,
            started_at: started_at,
        }
    }

    /// The text revealed at `elapsed` milliseconds into the session, and
    /// whether the caret blink is in its visible phase.
    pub fn render_text(&self, elapsed: u64) -> (r: (Vec<char>, bool))
        requires
            self.wf(),
        ensures
            r.0@ == scan_text(self.timeline@, elapsed as int),
            r.1 == blink_spec(elapsed as int, self.blinking_cursor_speed as int),
    {
        let scanned: (Vec<char>, bool) = scan(&self.timeline, elapsed);
        let visible: bool = is_visible(elapsed, self.blinking_cursor_speed);
        (scanned.0, visible)
    }

    /// One full render tick: derives the elapsed time from the session
    /// start (clamping an earlier `now` to zero), scans the timeline,
    /// clips the text to the viewport and locates the caret. The caret is
    /// drawn only when its cell lies inside the viewport and the blink
    /// phase is visible.
    pub fn render(&self, now: u64, viewport_width: usize, viewport_height: usize) -> (r:
        RenderState)
        requires
            self.wf(),
        ensures
            ({
                let elapsed: int = elapsed_of(now as int, self.started_at as int);
                let clipped: Seq<char> = clip_spec(
                    scan_text(self.timeline@, elapsed),
                    viewport_height as int,
                );
                let caret: Option<(int, int)> = caret_spec(
                    clipped,
                    viewport_width as int,
                    viewport_height as int,
                );
                &&& r.visible_text@ == clipped
                &&& cell_view(r.caret_cell) == caret
                &&& r.caret_visible == (blink_spec(elapsed, self.blinking_cursor_speed as int)
                    && caret is Some)
            }),
    {
        let elapsed: u64 = if now >= self.started_at {
            now - self.started_at
        } else {
            0
        };
        let scanned: (Vec<char>, bool) = scan(&self.timeline, elapsed);
        let visible_text: Vec<char> = clip(&scanned.0, viewport_height);
        let caret_cell: Option<(usize, usize)> = locate_caret(
            &visible_text,
            viewport_width,
            viewport_height,
        );
        let blink_on: bool = is_visible(elapsed, self.blinking_cursor_speed);
        let caret_visible: bool = blink_on && caret_cell.is_some();
        RenderState { visible_text, caret_cell, caret_visible }
    }
}

} // verus!

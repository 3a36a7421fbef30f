//! The timeline scanner: walks the scripted events, accumulating a virtual
//! clock and a text buffer, and determines what is visible at a given
//! elapsed time, including the partial reveal of the event in progress.

use vstd::prelude::*;
use vstd::arithmetic::div_mod::{lemma_div_is_ordered, lemma_div_pos_is_pos};
use crate::script::{EventKind, ScriptEvent, Timeline, budget_from, lemma_budget_nonneg};

verus! {

/// How many characters of an in-progress typing event are revealed after
/// `delta` of its window has passed: whole multiples of the per-character
/// share `dur / len`, clamped to the text length. A zero share (a window
/// shorter than the text, or no window at all) reveals everything at once.
pub open spec fn chars_revealed(len: int, dur: int, delta: int) -> int {
    if len == 0 {
        0
    } else {
        let per_char: int = dur / len;
        if per_char == 0 {
            len
        } else if delta / per_char > len {
            len
        } else {
            delta / per_char
        }
    }
}

/// The scanner's outcome from event `i` on, given the clock already
/// consumed and the text already revealed. The result pairs the visible
/// characters (each settled line closed by `'\n'`) with a flag that is
/// false exactly when the scan stopped in the middle of revealing a
/// typing event's text.
///
/// A clearing event consumes its typing window first; while its waiting
/// window has not passed, the scan stops with the buffer still intact, so
/// the old text holds on until the window expires and only then vanishes.
/// A backspacing event removes one character and consumes no clock at all.
/// An empty typing event contributes no characters and no terminator but
/// still consumes both its windows, acting as a timed pause.
pub open spec fn scan_from(
    events: Seq<ScriptEvent>,
    elapsed: int,
    i: int,
    clock: int,
    buf: Seq<char>,
) -> (Seq<char>, bool)
    decreases events.len() - i,
{
    if i < 0 || i >= events.len() {
        (buf, true)
    } else {
        let ev = events[i];
        match ev.kind {
            EventKind::Clear => {
                let settled_at: int = clock + ev.type_duration;
                if settled_at + ev.wait_duration > elapsed {
                    (buf, true)
                } else {
                    scan_from(events, elapsed, i + 1, settled_at + ev.wait_duration, Seq::empty())
                }
            },
            EventKind::Backspace => {
                let popped: Seq<char> = if buf.len() > 0 {
                    buf.drop_last()
                } else {
                    buf
                };
                scan_from(events, elapsed, i + 1, clock, popped)
            },
            EventKind::Type(text) => {
                let t: Seq<char> = text@;
                if clock + ev.type_duration > elapsed {
                    (
                        buf + t.take(
                            chars_revealed(t.len() as int, ev.type_duration as int, elapsed - clock),
                        ),
                        false,
                    )
                } else {
                    let full: Seq<char> = if t.len() == 0 {
                        buf
                    } else {
                        buf + t + seq!['\n']
                    };
                    let settled_at: int = clock + ev.type_duration;
                    if settled_at + ev.wait_duration > elapsed {
                        (full, true)
                    } else {
                        scan_from(events, elapsed, i + 1, settled_at + ev.wait_duration, full)
                    }
                }
            },
        }
    }
}

/// The characters visible at `elapsed`, with `'\n'` closing each settled
/// line.
pub open spec fn scan_text(events: Seq<ScriptEvent>, elapsed: int) -> Seq<char> {
    scan_from(events, elapsed, 0, 0, Seq::empty()).0
}

/// Whether no event is partially revealed at `elapsed`.
pub open spec fn scan_settled(events: Seq<ScriptEvent>, elapsed: int) -> bool {
    scan_from(events, elapsed, 0, 0, Seq::empty()).1
}

/// Computes `chars_revealed` in machine arithmetic.
fn revealed_count(len: usize, dur: u64, delta: u64) -> (k: usize)
    ensures
        k as int == chars_revealed(len as int, dur as int, delta as int),
        k <= len,
{
    if len == 0 {
        0
    } else {
        let per_char: u64 = dur / (len as u64);
        if per_char == 0 {
            len
        } else {
            let q: u64 = delta / per_char;
            if q > len as u64 {
                len
            } else {
                q as usize
            }
        }
    }
}

/// Appends the first `k` characters of `text` to `buf`.
fn append_prefix(buf: &mut Vec<char>, text: &Vec<char>, k: usize)
    requires
        k <= text@.len(),
    ensures
        final(buf)@ == old(buf)@ + text@.take(k as int),
{
    let mut j: usize = 0;
    while j < k
        invariant
            k <= text@.len(),
            j <= k,
            buf@ == old(buf)@ + text@.take(j as int),
        decreases k - j,
    {
        buf.push(text[j]);
        proof {
            assert(text@.take(j + 1) =~= text@.take(j as int).push(text@[j as int]));
            assert(old(buf)@ + text@.take(j + 1) =~= (old(buf)@ + text@.take(j as int)).push(
                text@[j as int],
            ));
        }
        j += 1;
    }
}

/// Walks the timeline and returns the text visible at `elapsed` together
/// with the settled flag: false exactly when a typing event is caught in
/// the middle of revealing its text. Two calls with the same timeline and
/// the same elapsed time return the same result.
pub fn scan(timeline: &Timeline, elapsed: u64) -> (r: (Vec<char>, bool))
    requires
        timeline.wf(),
    ensures
        r.0@ == scan_text(timeline@, elapsed as int),
        r.1 == scan_settled(timeline@, elapsed as int),
{
    let ghost events: Seq<ScriptEvent> = timeline@;
    let n: usize = timeline.events.len();
    let mut buf: Vec<char> = Vec::new();
    let mut clock: u64 = 0;
    let mut settled: bool = true;
    let mut i: usize = 0;
    while i < n
        invariant_except_break
            n == events.len(),
            events == timeline@,
            timeline.wf(),
            i <= n,
            settled,
            clock <= elapsed,
            clock + budget_from(events, i as int) <= u64::MAX,
            scan_from(events, elapsed as int, 0, 0, Seq::empty()) == scan_from(
                events,
                elapsed as int,
                i as int,
                clock as int,
                buf@,
            ),
        ensures
            (buf@, settled) == scan_from(events, elapsed as int, 0, 0, Seq::empty()),
            events == timeline@,
        decreases n - i,
    {
        let ev = &timeline.events[i];
        proof {
            assert(budget_from(events, i as int) == ev.type_duration + ev.wait_duration
                + budget_from(events, i + 1));
            lemma_budget_nonneg(events, i + 1);
        }
        match &ev.kind {
            EventKind::Clear => {
                let settled_at: u64 = clock + ev.type_duration;
                if settled_at + ev.wait_duration > elapsed {
                    settled = true;
                    break;
                } else {
                    buf = Vec::new();
                    clock = settled_at + ev.wait_duration;
                    i += 1;
                }
            },
            EventKind::Backspace => {
                if buf.len() > 0 {
                    buf.pop();
                }
                i += 1;
            },
            EventKind::Type(text) => {
                let typed_until: u64 = clock + ev.type_duration;
                if typed_until > elapsed {
                    let k: usize = revealed_count(text.len(), ev.type_duration, elapsed - clock);
                    append_prefix(&mut buf, text, k);
                    settled = false;
                    break;
                } else {
                    if text.len() > 0 {
                        let ghost before: Seq<char> = buf@;
                        append_prefix(&mut buf, text, text.len());
                        buf.push('\n');
                        proof {
                            assert(text@.take(text@.len() as int) =~= text@);
                            assert(buf@ =~= before + text@ + seq!['\n']);
                        }
                    }
                    if typed_until + ev.wait_duration > elapsed {
                        settled = true;
                        break;
                    } else {
                        clock = typed_until + ev.wait_duration;
                        i += 1;
                    }
                }
            },
        }
    }
    (buf, settled)
}

/// The revealed count stays between zero and the text length, and never
/// decreases as more of the typing window passes.
pub proof fn lemma_chars_revealed_monotonic(len: int, dur: int, d1: int, d2: int)
    requires
        len >= 0,
        dur >= 0,
        0 <= d1 <= d2,
    ensures
        0 <= chars_revealed(len, dur, d1) <= chars_revealed(len, dur, d2) <= len,
{
    if len > 0 {
        lemma_div_pos_is_pos(dur, len);
        let per_char: int = dur / len;
        if per_char > 0 {
            lemma_div_pos_is_pos(d1, per_char);
            lemma_div_is_ordered(d1, d2, per_char);
        }
    }
}

/// Monotonic reveal: with a single typing event, the number of visible
/// characters never decreases as the elapsed time grows. While the typing
/// window lasts the visible text is the revealed prefix of the event's
/// text; from `type_duration` on, the full text closed by its terminator
/// is visible (or nothing at all for an empty text).
pub proof fn lemma_monotonic_reveal(ev: ScriptEvent, e1: int, e2: int)
    requires
        ev.kind is Type,
        0 <= e1 <= e2,
    ensures
        scan_text(seq![ev], e1).len() <= scan_text(seq![ev], e2).len(),
        e1 < ev.type_duration ==> scan_text(seq![ev], e1) == ev.kind->Type_0@.take(
            chars_revealed(ev.kind->Type_0@.len() as int, ev.type_duration as int, e1),
        ),
        e1 >= ev.type_duration && ev.kind->Type_0@.len() > 0 ==> scan_text(seq![ev], e1)
            == ev.kind->Type_0@ + seq!['\n'],
        e1 >= ev.type_duration && ev.kind->Type_0@.len() == 0 ==> scan_text(seq![ev], e1)
            == Seq::<char>::empty(),
{
    let events: Seq<ScriptEvent> = seq![ev];
    let t: Seq<char> = ev.kind->Type_0@;
    let dur: int = ev.type_duration as int;
    assert(events[0] == ev);
    lemma_single_type_shape(ev, e1);
    lemma_single_type_shape(ev, e2);
    if e1 < dur && e2 < dur {
        lemma_chars_revealed_monotonic(t.len() as int, dur, e1, e2);
    } else if e1 < dur {
        lemma_chars_revealed_monotonic(t.len() as int, dur, e1, e1);
    }
}

/// The visible text of a one-event timeline holding a single typing
/// event: the revealed prefix during the typing window, the full
/// terminated text afterwards.
proof fn lemma_single_type_shape(ev: ScriptEvent, elapsed: int)
    requires
        ev.kind is Type,
        elapsed >= 0,
    ensures
        elapsed < ev.type_duration ==> scan_text(seq![ev], elapsed) == ev.kind->Type_0@.take(
            chars_revealed(ev.kind->Type_0@.len() as int, ev.type_duration as int, elapsed),
        ),
        elapsed >= ev.type_duration && ev.kind->Type_0@.len() > 0 ==> scan_text(seq![ev], elapsed)
            == ev.kind->Type_0@ + seq!['\n'],
        elapsed >= ev.type_duration && ev.kind->Type_0@.len() == 0 ==> scan_text(seq![ev], elapsed)
            == Seq::<char>::empty(),
{
    let events: Seq<ScriptEvent> = seq![ev];
    let t: Seq<char> = ev.kind->Type_0@;
    let dur: int = ev.type_duration as int;
    assert(events[0] == ev);
    if elapsed < dur {
        let k: int = chars_revealed(t.len() as int, dur, elapsed);
        assert(Seq::<char>::empty() + t.take(k) =~= t.take(k));
    } else {
        if t.len() > 0 {
            let full: Seq<char> = Seq::<char>::empty() + t + seq!['\n'];
            assert(full =~= t + seq!['\n']);
            assert(scan_from(events, elapsed, 1, dur + ev.wait_duration, full) == (full, true));
        } else {
            assert(scan_from(
                events,
                elapsed,
                1,
                dur + ev.wait_duration,
                Seq::<char>::empty(),
            ) == (Seq::<char>::empty(), true));
        }
    }
}

/// Shifting the queried instant and the consumed clock together does not
/// change the scan's outcome: only their difference matters.
pub proof fn lemma_scan_shift(
    events: Seq<ScriptEvent>,
    elapsed: int,
    i: int,
    clock: int,
    buf: Seq<char>,
    d: int,
)
    ensures
        scan_from(events, elapsed + d, i, clock + d, buf) == scan_from(
            events,
            elapsed,
            i,
            clock,
            buf,
        ),
    decreases events.len() - i,
{
    if 0 <= i && i < events.len() {
        let ev = events[i];
        match ev.kind {
            EventKind::Clear => {
                lemma_scan_shift(
                    events,
                    elapsed,
                    i + 1,
                    clock + ev.type_duration + ev.wait_duration,
                    Seq::empty(),
                    d,
                );
            },
            EventKind::Backspace => {
                let popped: Seq<char> = if buf.len() > 0 {
                    buf.drop_last()
                } else {
                    buf
                };
                lemma_scan_shift(events, elapsed, i + 1, clock, popped, d);
            },
            EventKind::Type(text) => {
                let t: Seq<char> = text@;
                let full: Seq<char> = if t.len() == 0 {
                    buf
                } else {
                    buf + t + seq!['\n']
                };
                lemma_scan_shift(
                    events,
                    elapsed,
                    i + 1,
                    clock + ev.type_duration + ev.wait_duration,
                    full,
                    d,
                );
            },
        }
    }
}

/// Events already consumed do not matter: scanning from index `i` equals
/// scanning the remaining events from their start.
pub proof fn lemma_scan_skip(
    events: Seq<ScriptEvent>,
    elapsed: int,
    i: int,
    k: int,
    clock: int,
    buf: Seq<char>,
)
    requires
        0 <= k <= i,
        k <= events.len(),
    ensures
        scan_from(events, elapsed, i, clock, buf) == scan_from(
            events.skip(k),
            elapsed,
            i - k,
            clock,
            buf,
        ),
    decreases events.len() - i,
{
    if i < events.len() {
        assert(events.skip(k)[i - k] == events[i]);
        let ev = events[i];
        match ev.kind {
            EventKind::Clear => {
                lemma_scan_skip(
                    events,
                    elapsed,
                    i + 1,
                    k,
                    clock + ev.type_duration + ev.wait_duration,
                    Seq::empty(),
                );
            },
            EventKind::Backspace => {
                let popped: Seq<char> = if buf.len() > 0 {
                    buf.drop_last()
                } else {
                    buf
                };
                lemma_scan_skip(events, elapsed, i + 1, k, clock, popped);
            },
            EventKind::Type(text) => {
                let t: Seq<char> = text@;
                let full: Seq<char> = if t.len() == 0 {
                    buf
                } else {
                    buf + t + seq!['\n']
                };
                lemma_scan_skip(
                    events,
                    elapsed,
                    i + 1,
                    k,
                    clock + ev.type_duration + ev.wait_duration,
                    full,
                );
            },
        }
    }
}

/// Zero-length text pause: an empty typing event contributes no
/// characters and no terminator while its two windows last, and only once
/// both have passed does the scan continue into the rest of the timeline,
/// exactly as if the rest had started that much later.
pub proof fn lemma_empty_type_pause(events: Seq<ScriptEvent>, elapsed: int)
    requires
        events.len() >= 1,
        events[0].kind is Type,
        events[0].kind->Type_0@.len() == 0,
        elapsed >= 0,
    ensures
        elapsed < events[0].type_duration + events[0].wait_duration ==> scan_text(events, elapsed)
            == Seq::<char>::empty(),
        elapsed >= events[0].type_duration + events[0].wait_duration ==> scan_text(events, elapsed)
            == scan_text(
            events.skip(1),
            elapsed - events[0].type_duration - events[0].wait_duration,
        ),
        elapsed >= events[0].type_duration + events[0].wait_duration ==> scan_settled(
            events,
            elapsed,
        ) == scan_settled(
            events.skip(1),
            elapsed - events[0].type_duration - events[0].wait_duration,
        ),
{
    let ev = events[0];
    let t: Seq<char> = ev.kind->Type_0@;
    let dur: int = ev.type_duration as int;
    let wait: int = ev.wait_duration as int;
    if elapsed < dur {
        assert(Seq::<char>::empty() + t.take(chars_revealed(0, dur, elapsed)) =~= Seq::<
            char,
        >::empty());
    } else if elapsed < dur + wait {
    } else {
        let rest: int = elapsed - dur - wait;
        assert(scan_from(events, elapsed, 0, 0, Seq::empty()) == scan_from(
            events,
            elapsed,
            1,
            dur + wait,
            Seq::empty(),
        ));
        lemma_scan_shift(events, rest, 1, 0, Seq::empty(), dur + wait);
        lemma_scan_skip(events, rest, 1, 1, 0, Seq::empty());
    }
}

/// A backspace consumes no clock budget: between two instantaneous typing
/// events it removes the just-written terminator at every elapsed time
/// alike, merging the two texts into a single settled line.
pub proof fn lemma_backspace_instantaneous(
    first: ScriptEvent,
    bs: ScriptEvent,
    second: ScriptEvent,
    elapsed: int,
)
    requires
        elapsed >= 0,
        first.kind is Type,
        first.kind->Type_0@.len() > 0,
        first.type_duration == 0,
        first.wait_duration == 0,
        bs.kind is Backspace,
        second.kind is Type,
        second.kind->Type_0@.len() > 0,
        second.type_duration == 0,
        second.wait_duration == 0,
    ensures
        scan_text(seq![first, bs, second], elapsed) == first.kind->Type_0@ + second.kind->Type_0@
            + seq!['\n'],
        scan_settled(seq![first, bs, second], elapsed),
{
    let events: Seq<ScriptEvent> = seq![first, bs, second];
    let a: Seq<char> = first.kind->Type_0@;
    let b: Seq<char> = second.kind->Type_0@;
    assert(events[0] == first && events[1] == bs && events[2] == second);
    let buf1: Seq<char> = Seq::<char>::empty() + a + seq!['\n'];
    assert(scan_from(events, elapsed, 0, 0, Seq::empty()) == scan_from(
        events,
        elapsed,
        1,
        0,
        buf1,
    ));
    let buf2: Seq<char> = buf1.drop_last();
    assert(scan_from(events, elapsed, 1, 0, buf1) == scan_from(events, elapsed, 2, 0, buf2));
    let buf3: Seq<char> = buf2 + b + seq!['\n'];
    assert(scan_from(events, elapsed, 2, 0, buf2) == scan_from(events, elapsed, 3, 0, buf3));
    assert(scan_from(events, elapsed, 3, 0, buf3) == (buf3, true));
    assert(buf2 =~= a);
    assert(buf3 =~= a + b + seq!['\n']);
}

} // verus!

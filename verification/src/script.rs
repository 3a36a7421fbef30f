//! The script data model: raw script rows, the tagged events they load
//! into, and the timeline that drives the reveal.

use vstd::prelude::*;
use vstd::string::*;

verus! {

/// One row of the script source: literal text plus two durations in
/// milliseconds. The reserved texts `"CLEAR"` and `"BACK"` select the
/// clearing and backspacing behaviours instead of literal text.
#[derive(Clone)]
pub struct TypedLine {
    /// Text to type, or one of the reserved values `"CLEAR"` / `"BACK"`.
    pub text: String,
    /// Time over which the text is revealed, in milliseconds.
    pub time_to_type: u64,
    /// Time the fully revealed state persists, in milliseconds.
    pub time_to_wait: u64,
}

/// The behaviour of one timeline entry, chosen once when the script rows
/// are loaded rather than by re-reading sentinel strings during playback.
#[derive(Clone)]
pub enum EventKind {
    /// Reveal the given characters one by one.
    Type(Vec<char>),
    /// Erase the whole buffer once this event's windows have passed.
    Clear,
    /// Instantly remove the final character of the buffer.
    Backspace,
}

/// One entry of the timeline: a kind plus its typing and waiting windows,
/// both in milliseconds.
#[derive(Clone)]
pub struct ScriptEvent {
    pub kind: EventKind,
    pub type_duration: u64,
    pub wait_duration: u64,
}

/// An ordered, immutable script of events, fixed at construction and only
/// read during playback.
#[derive(Clone)]
pub struct Timeline {
    pub events: Vec<ScriptEvent>,
}

impl View for Timeline {
    type V = Seq<ScriptEvent>;

    open spec fn view(&self) -> Seq<ScriptEvent> {
        self.events@
    }
}

/// Total clock budget (typing plus waiting) of the events from index `i`
/// to the end of the timeline.
pub open spec fn budget_from(events: Seq<ScriptEvent>, i: int) -> int
    decreases events.len() - i,
{
    if i < 0 || i >= events.len() {
        0
    } else {
        events[i].type_duration + events[i].wait_duration + budget_from(events, i + 1)
    }
}

/// The whole timeline's clock budget.
pub open spec fn total_budget(events: Seq<ScriptEvent>) -> int {
    budget_from(events, 0)
}

/// The remaining budget never goes negative.
pub proof fn lemma_budget_nonneg(events: Seq<ScriptEvent>, i: int)
    ensures
        budget_from(events, i) >= 0,
    decreases events.len() - i,
{
    if 0 <= i && i < events.len() {
        lemma_budget_nonneg(events, i + 1);
    }
}

impl Timeline {
    /// The scanner's running clock stays within machine range exactly when
    /// the whole budget fits a `u64`.
    pub open spec fn wf(self) -> bool {
        total_budget(self@) <= u64::MAX
    }

    /// Decides whether the script's clock budget fits the scanner's `u64`
    /// clock, so a host can test the scanner's precondition once at load
    /// time.
    pub fn budget_fits(&self) -> (r: bool)
        ensures
            r == self.wf(),
    {
        let ghost events: Seq<ScriptEvent> = self@;
        let n: usize = self.events.len();
        let mut total: u64 = 0;
        let mut i: usize = 0;
        while i < n
            invariant_except_break
                n == events.len(),
                events == self@,
                i <= n,
                total + budget_from(events, i as int) == total_budget(events),
            ensures
                i <= n,
                i == n ==> total == total_budget(events),
                i < n ==> total_budget(events) > u64::MAX,
            decreases n - i,
        {
            let ev = &self.events[i];
            proof {
                assert(budget_from(events, i as int) == ev.type_duration + ev.wait_duration
                    + budget_from(events, i + 1));
                lemma_budget_nonneg(events, i + 1);
            }
            if ev.type_duration > u64::MAX - total {
                break;
            }
            total = total + ev.type_duration;
            if ev.wait_duration > u64::MAX - total {
                break;
            }
            total = total + ev.wait_duration;
            i += 1;
        }
        i == n
    }
}

/// How one script row maps to a timeline event: the reserved texts select
/// `Clear` and `Backspace`; anything else is typed literally.
pub open spec fn line_matches_event(line: TypedLine, ev: ScriptEvent) -> bool {
    &&& ev.type_duration == line.time_to_type
    &&& ev.wait_duration == line.time_to_wait
    &&& if line.text@ == "CLEAR"@ {
        ev.kind is Clear
    } else if line.text@ == "BACK"@ {
        ev.kind is Backspace
    } else {
        ev.kind is Type && ev.kind->Type_0@ == line.text@
    }
}

/// Collects the characters of a string slice into a vector.
fn chars_vec(s: &str) -> (r: Vec<char>)
    ensures
        r@ == s@,
{
    let n: usize = s.unicode_len();
    let mut r: Vec<char> = Vec::new();
    let mut i: usize = 0;
    while i < n
        invariant
            n == s@.len(),
            i <= n,
            r@ == s@.take(i as int),
        decreases n - i,
    {
        let c = s.get_char(i);
        r.push(c);
        proof {
            assert(s@.take(i + 1) =~= s@.take(i as int).push(s@[i as int]));
        }
        i += 1;
    }
    proof {
        assert(s@.take(n as int) =~= s@);
    }
    r
}

impl Timeline {
    /// Builds the timeline from script rows, classifying each row once, at
    /// load time.
    pub fn from_lines(lines: &Vec<TypedLine>) -> (r: Timeline)
        ensures
            r@.len() == lines@.len(),
            forall|i: int|
                0 <= i < lines@.len() ==> line_matches_event(lines@[i], #[trigger] r@[i]),
    {
        let clear_text: String = String::from_str("CLEAR");
        let back_text: String = String::from_str("BACK");
        let mut events: Vec<ScriptEvent> = Vec::new();
        let mut i: usize = 0;
        while i < lines.len()
            invariant
                clear_text@ == "CLEAR"@,
                back_text@ == "BACK"@,
                i <= lines@.len(),
                events@.len() == i,
                forall|j: int|
                    0 <= j < i ==> line_matches_event(lines@[j], #[trigger] events@[j]),
            decreases lines@.len() - i,
        {
            let line = &lines[i];
            let kind: EventKind;
            if line.text == clear_text {
                kind = EventKind::Clear;
            } else if line.text == back_text {
                kind = EventKind::Backspace;
            } else {
                kind = EventKind::Type(chars_vec(line.text.as_str()));
            }
            events.push(
                ScriptEvent {
                    kind: kind,
                    type_duration: line.time_to_type,
                    wait_duration: line.time_to_wait,
                },
            );
            i += 1;
        }
        Timeline { events }
    }
}

} // verus!

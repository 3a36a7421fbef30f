//! The viewport compositor: clips the revealed text to the last lines
//! that fit a bounded height, and places the caret cell after the last
//! rendered character, soft-wrapping at a bounded width.

use vstd::prelude::*;

verus! {

/// Number of line terminators at or after position `i`.
pub open spec fn newlines_from(s: Seq<char>, i: int) -> int
    decreases s.len() - i,
{
    if i < 0 || i >= s.len() {
        0
    } else {
        (if s[i] == '\n' {
            1int
        } else {
            0int
        }) + newlines_from(s, i + 1)
    }
}

/// How many lines the text renders as: each terminator closes one line,
/// and a final unterminated line counts too.
pub open spec fn line_count(s: Seq<char>) -> int {
    newlines_from(s, 0) + if s.len() > 0 && s.last() != '\n' {
        1int
    } else {
        0int
    }
}

/// The index just past the `k`-th line terminator at or after `i`, or the
/// text's length when fewer than `k` remain.
pub open spec fn cut_from(s: Seq<char>, k: int, i: int) -> int
    decreases s.len() - i,
{
    if i < 0 || i >= s.len() {
        s.len() as int
    } else if s[i] == '\n' {
        if k <= 1 {
            i + 1
        } else {
            cut_from(s, k - 1, i + 1)
        }
    } else {
        cut_from(s, k, i + 1)
    }
}

/// Drops a single trailing line terminator, as rejoining clipped lines
/// does.
pub open spec fn drop_final_newline(s: Seq<char>) -> Seq<char> {
    if s.len() > 0 && s.last() == '\n' {
        s.drop_last()
    } else {
        s
    }
}

/// The text clipped to the viewport: when more lines are present than fit
/// the height, only the last `height` lines remain, rejoined without a
/// trailing terminator; otherwise the text is unchanged.
pub open spec fn clip_spec(s: Seq<char>, height: int) -> Seq<char> {
    if line_count(s) <= height {
        s
    } else {
        drop_final_newline(s.skip(cut_from(s, line_count(s) - height, 0)))
    }
}

/// At most one terminator fits per position.
proof fn lemma_newlines_bound(s: Seq<char>, i: int)
    requires
        0 <= i <= s.len(),
    ensures
        newlines_from(s, i) <= s.len() - i,
        s.len() > i && s.last() != '\n' ==> newlines_from(s, i) <= s.len() - i - 1,
    decreases s.len() - i,
{
    if i < s.len() {
        lemma_newlines_bound(s, i + 1);
    }
}

/// The cut index never leaves the text.
proof fn lemma_cut_in_range(s: Seq<char>, k: int, i: int)
    requires
        0 <= i <= s.len(),
    ensures
        i <= cut_from(s, k, i) <= s.len(),
    decreases s.len() - i,
{
    if i < s.len() {
        lemma_cut_in_range(s, k, i + 1);
        lemma_cut_in_range(s, k - 1, i + 1);
    }
}

/// Counts the rendered lines of the text.
pub fn count_lines(text: &Vec<char>) -> (n: usize)
    ensures
        n as int == line_count(text@),
        n <= text@.len(),
{
    let len: usize = text.len();
    let mut c: usize = 0;
    let mut i: usize = 0;
    while i < len
        invariant
            len == text@.len(),
            i <= len,
            c <= i,
            c + newlines_from(text@, i as int) == newlines_from(text@, 0),
        decreases len - i,
    {
        if text[i] == '\n' {
            c += 1;
        }
        i += 1;
    }
    proof {
        lemma_newlines_bound(text@, 0);
    }
    if len > 0 && text[len - 1] != '\n' {
        c + 1
    } else {
        c
    }
}

/// Copies the characters in `[from, to)` into a fresh vector.
fn copy_range(text: &Vec<char>, from: usize, to: usize) -> (r: Vec<char>)
    requires
        from <= to <= text@.len(),
    ensures
        r@ == text@.subrange(from as int, to as int),
{
    let mut r: Vec<char> = Vec::new();
    let mut j: usize = from;
    proof {
        assert(r@ =~= text@.subrange(from as int, from as int));
    }
    while j < to
        invariant
            from <= j <= to <= text@.len(),
            r@ == text@.subrange(from as int, j as int),
        decreases to - j,
    {
        r.push(text[j]);
        proof {
            assert(text@.subrange(from as int, j + 1) =~= text@.subrange(
                from as int,
                j as int,
            ).push(text@[j as int]));
        }
        j += 1;
    }
    r
}

/// Finds the index just past the `k`-th line terminator.
fn cut_index(text: &Vec<char>, k: usize) -> (p: usize)
    requires
        k >= 1,
    ensures
        p as int == cut_from(text@, k as int, 0),
        p <= text@.len(),
{
    let len: usize = text.len();
    let mut p: usize = len;
    let mut left: usize = k;
    let mut i: usize = 0;
    while i < len
        invariant_except_break
            len == text@.len(),
            i <= len,
            1 <= left <= k,
            p == len,
            cut_from(text@, k as int, 0) == cut_from(text@, left as int, i as int),
        ensures
            p as int == cut_from(text@, k as int, 0),
            p <= text@.len(),
        decreases len - i,
    {
        if text[i] == '\n' {
            if left == 1 {
                p = i + 1;
                break;
            }
            left -= 1;
        }
        i += 1;
    }
    p
}

/// Clips the revealed text to a scrolling transcript of at most
/// `viewport_height` lines, keeping the newest ones.
pub fn clip(text: &Vec<char>, viewport_height: usize) -> (r: Vec<char>)
    ensures
        r@ == clip_spec(text@, viewport_height as int),
{
    let n: usize = count_lines(text);
    if n <= viewport_height {
        copy_range(text, 0, text.len())
    } else {
        let p: usize = cut_index(text, n - viewport_height);
        proof {
            lemma_cut_in_range(text@, n - viewport_height, 0);
        }
        let mut r: Vec<char> = copy_range(text, p, text.len());
        proof {
            assert(text@.subrange(p as int, text@.len() as int) =~= text@.skip(p as int));
        }
        if r.len() > 0 && r[r.len() - 1] == '\n' {
            r.pop();
        }
        r
    }
}

/// The cell reached after walking the text from `(x, y)`: a terminator or
/// a full row moves the walk to the start of the next row, any other
/// character advances one column.
pub open spec fn caret_walk(s: Seq<char>, width: int, i: int, x: int, y: int) -> (int, int)
    decreases s.len() - i,
{
    if i < 0 || i >= s.len() {
        (x, y)
    } else if s[i] == '\n' {
        caret_walk(s, width, i + 1, 0, y + 1)
    } else if x + 1 >= width {
        caret_walk(s, width, i + 1, 0, y + 1)
    } else {
        caret_walk(s, width, i + 1, x + 1, y)
    }
}

/// Where the caret sits after the whole visible text, as `(row, column)`,
/// or `None` when it falls outside the viewport. Degenerate zero-width
/// geometry has no cell to draw in, so it yields `None` as well.
pub open spec fn caret_spec(s: Seq<char>, width: int, height: int) -> Option<(int, int)> {
    if width <= 0 {
        None
    } else {
        let cell: (int, int) = caret_walk(s, width, 0, 0, 0);
        if cell.1 < height {
            Some((cell.1, cell.0))
        } else {
            None
        }
    }
}

/// Converts a concrete caret cell for comparison with `caret_spec`.
pub open spec fn cell_view(c: Option<(usize, usize)>) -> Option<(int, int)> {
    match c {
        Some(cell) => Some((cell.0 as int, cell.1 as int)),
        None => None,
    }
}

/// Walks the already clipped text and returns the caret cell as
/// `(row, column)`, or `None` when the caret may not be drawn. A returned
/// row always lies inside the viewport height, and a returned column
/// inside the viewport width.
pub fn locate_caret(text: &Vec<char>, viewport_width: usize, viewport_height: usize) -> (r: Option<
    (usize, usize),
>)
    ensures
        cell_view(r) == caret_spec(text@, viewport_width as int, viewport_height as int),
        r matches Some(cell) ==> cell.0 < viewport_height && cell.1 < viewport_width,
{
    if viewport_width == 0 {
        return None;
    }
    let len: usize = text.len();
    let mut x: usize = 0;
    let mut y: usize = 0;
    let mut i: usize = 0;
    while i < len
        invariant
            len == text@.len(),
            i <= len,
            viewport_width > 0,
            x < viewport_width,
            y <= i,
            caret_walk(text@, viewport_width as int, 0, 0, 0) == caret_walk(
                text@,
                viewport_width as int,
                i as int,
                x as int,
                y as int,
            ),
        decreases len - i,
    {
        if text[i] == '\n' {
            x = 0;
            y += 1;
        } else if x + 1 >= viewport_width {
            x = 0;
            y += 1;
        } else {
            x += 1;
        }
        i += 1;
    }
    if y < viewport_height {
        Some((y, x))
    } else {
        None
    }
}

} // verus!

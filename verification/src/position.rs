//! From a character offset to line, column and the bounds of the excerpt.

use vstd::prelude::*;
use crate::text::chars_of;

verus! {

/// How many lines above the offending one an excerpt shows at most.
pub const CONTEXT_LINES: usize = 3;

/// Why a position could not be resolved.
#[derive(Clone, Copy, Debug, PartialEq, Eq, Structural)]
pub enum PositionError {
    /// The offset is negative or lies behind the end of the text.
    OutOfBounds,
}

/// Line number (from 1) and column (from 0) reached after scanning the first
/// `p` characters of `s`: every character advances the column, and a line
/// break then starts the next line at column 0.
pub open spec fn scan(s: Seq<char>, p: int) -> (int, int)
    decreases p,
{
    if p <= 0 {
        (1, 0)
    } else if s[p - 1] == '\n' {
        (scan(s, p - 1).0 + 1, 0)
    } else {
        (scan(s, p - 1).0, scan(s, p - 1).1 + 1)
    }
}

/// Offset of the first character of the line that holds offset `p`: just
/// behind the nearest line break before `p`, or 0 where there is none.
pub open spec fn line_start_of(s: Seq<char>, p: int) -> int
    decreases p,
{
    if p <= 0 {
        0
    } else if s[p - 1] == '\n' {
        p
    } else {
        line_start_of(s, p - 1)
    }
}

/// Start of the `n`-th line above the line that starts at `start`, stopping
/// at offset 0 where the text has fewer lines above.
pub open spec fn nth_preceding_line_start(s: Seq<char>, start: int, n: nat) -> int
    decreases n,
{
    if n == 0 {
        start
    } else if start <= 0 {
        0
    } else {
        nth_preceding_line_start(s, line_start_of(s, start - 1), (n - 1) as nat)
    }
}

/// Offset of the first line break at or behind `p`, if there is one.
pub open spec fn next_line_break(s: Seq<char>, p: int) -> Option<int>
    decreases s.len() - p,
{
    if p < 0 || p >= s.len() {
        None
    } else if s[p] == '\n' {
        Some(p)
    } else {
        next_line_break(s, p + 1)
    }
}

/// Number of line breaks among the characters `from..to` of `s`.
pub open spec fn line_breaks_between(s: Seq<char>, from: int, to: int) -> nat
    decreases to - from,
{
    if to <= from {
        0
    } else if s[to - 1] == '\n' {
        line_breaks_between(s, from, to - 1) + 1
    } else {
        line_breaks_between(s, from, to - 1)
    }
}

/// Where the excerpt for offset `p` begins.
pub open spec fn context_start_of(s: Seq<char>, p: int) -> int {
    nth_preceding_line_start(s, line_start_of(s, p), CONTEXT_LINES as nat)
}

/// Where the excerpt for offset `p` ends: at the line break that closes the
/// line, or at the end of the text where no line break follows.
pub open spec fn excerpt_end_of(s: Seq<char>, p: int) -> int {
    match next_line_break(s, p) {
        Some(end) => end,
        None => s.len() as int,
    }
}

/// A position in a text, resolved to its line and to the bounds of the
/// excerpt shown around it.
#[derive(Clone, Copy, Debug, PartialEq, Eq, Structural)]
pub struct ResolvedPosition {
    /// Line that holds the position, counted from 1.
    pub line_no: usize,
    /// Characters between the start of that line and the position.
    pub column: usize,
    /// Offset of the first character of that line.
    pub line_start: usize,
    /// Offset of the first character of the excerpt.
    pub context_start: usize,
    /// Offset of the line break that closes the line, if the text has one.
    pub line_end: Option<usize>,
}

impl ResolvedPosition {
    /// That this value is the resolution of offset `p` in `s`.
    pub open spec fn locates(self, s: Seq<char>, p: int) -> bool {
        &&& self.line_no == scan(s, p).0
        &&& self.column == scan(s, p).1
        &&& self.line_start == line_start_of(s, p)
        &&& self.context_start == context_start_of(s, p)
        &&& match self.line_end {
            Some(end) => next_line_break(s, p) == Some(end as int),
            None => next_line_break(s, p) is None,
        }
    }

    /// Offset at which the excerpt ends in a text of `len` characters.
    pub open spec fn excerpt_end_in(self, len: int) -> int {
        match self.line_end {
            Some(end) => end as int,
            None => len,
        }
    }

    /// Offset at which the excerpt ends in a text of `len` characters: the
    /// closing line break, or the end of the text where there is none.
    pub fn excerpt_end(&self, len: usize) -> (end: usize)
        ensures
            end == self.excerpt_end_in(len as int),
    {
        match self.line_end {
            Some(end) => end,
            None => len,
        }
    }
}

/// The line start lies at or before the offset, directly behind a line break
/// or at the start of the text, and no line break stands between the two.
pub proof fn lemma_line_start(s: Seq<char>, p: int)
    requires
        0 <= p <= s.len(),
    ensures
        0 <= line_start_of(s, p) <= p,
        line_start_of(s, p) == 0 || s[line_start_of(s, p) - 1] == '\n',
        forall|i: int| line_start_of(s, p) <= i < p ==> s[i] != '\n',
    decreases p,
{
    if p > 0 && s[p - 1] != '\n' {
        lemma_line_start(s, p - 1);
    }
}

/// Walking up lines never moves forward and never leaves the text.
pub proof fn lemma_preceding_line_start(s: Seq<char>, start: int, n: nat)
    requires
        0 <= start <= s.len(),
    ensures
        0 <= nth_preceding_line_start(s, start, n) <= start,
        nth_preceding_line_start(s, start, n) == 0 || nth_preceding_line_start(s, start, n)
            == start || s[nth_preceding_line_start(s, start, n) - 1] == '\n',
    decreases n,
{
    if n > 0 && start > 0 {
        lemma_line_start(s, start - 1);
        lemma_preceding_line_start(s, line_start_of(s, start - 1), (n - 1) as nat);
    }
}

/// A line break found at or behind `p` is the first one there; where none is
/// found, none stands between `p` and the end of the text.
pub proof fn lemma_next_line_break(s: Seq<char>, p: int)
    requires
        0 <= p <= s.len(),
    ensures
        match next_line_break(s, p) {
            Some(end) => p <= end < s.len() && s[end] == '\n' && forall|i: int|
                p <= i < end ==> s[i] != '\n',
            None => forall|i: int| p <= i < s.len() ==> s[i] != '\n',
        },
    decreases s.len() - p,
{
    if p < s.len() && s[p] != '\n' {
        lemma_next_line_break(s, p + 1);
    }
}

/// The scan counts lines from 1, and its column is the distance from the
/// start of the line.
pub proof fn lemma_scan(s: Seq<char>, p: int)
    requires
        0 <= p <= s.len(),
    ensures
        1 <= scan(s, p).0 <= p + 1,
        scan(s, p).1 == p - line_start_of(s, p),
        0 <= scan(s, p).1 <= p,
    decreases p,
{
    if p > 0 {
        lemma_scan(s, p - 1);
    }
}

/// The line number is one more than the number of line breaks before the
/// position.
pub proof fn lemma_line_number(s: Seq<char>, p: int)
    requires
        0 <= p <= s.len(),
    ensures
        scan(s, p).0 == 1 + line_breaks_between(s, 0, p),
    decreases p,
{
    if p > 0 {
        lemma_line_number(s, p - 1);
    }
}

/// Line breaks are counted piece by piece.
pub proof fn lemma_line_breaks_split(s: Seq<char>, from: int, mid: int, to: int)
    requires
        from <= mid <= to,
    ensures
        line_breaks_between(s, from, to) == line_breaks_between(s, from, mid)
            + line_breaks_between(s, mid, to),
    decreases to - mid,
{
    if mid < to {
        lemma_line_breaks_split(s, from, mid, to - 1);
    }
}

/// A stretch without line breaks counts none.
pub proof fn lemma_no_line_breaks(s: Seq<char>, from: int, to: int)
    requires
        forall|i: int| from <= i < to ==> s[i] != '\n',
    ensures
        line_breaks_between(s, from, to) == 0,
    decreases to - from,
{
    if from < to {
        lemma_no_line_breaks(s, from, to - 1);
    }
}

/// Walking `n` lines up from a line start passes exactly `n` line breaks,
/// or fewer where the walk ends at the start of the text.
pub proof fn lemma_context_window(s: Seq<char>, start: int, n: nat)
    requires
        0 <= start <= s.len(),
        start == 0 || s[start - 1] == '\n',
    ensures
        line_breaks_between(s, nth_preceding_line_start(s, start, n), start) <= n,
        nth_preceding_line_start(s, start, n) == 0 || line_breaks_between(
            s,
            nth_preceding_line_start(s, start, n),
            start,
        ) == n,
    decreases n,
{
    if n > 0 && start > 0 {
        let above = line_start_of(s, start - 1);
        lemma_line_start(s, start - 1);
        lemma_context_window(s, above, (n - 1) as nat);
        lemma_preceding_line_start(s, above, (n - 1) as nat);
        lemma_line_breaks_split(s, nth_preceding_line_start(s, above, (n - 1) as nat), above, start);
        lemma_no_line_breaks(s, above, start - 1);
    }
}

/// The excerpt shows the offending line and at most `CONTEXT_LINES` lines
/// above it: exactly that many unless it starts with the text.
pub proof fn lemma_excerpt_context(s: Seq<char>, p: int)
    requires
        0 <= p <= s.len(),
    ensures
        line_breaks_between(s, context_start_of(s, p), line_start_of(s, p)) <= CONTEXT_LINES,
        context_start_of(s, p) == 0 || line_breaks_between(
            s,
            context_start_of(s, p),
            line_start_of(s, p),
        ) == CONTEXT_LINES,
        line_breaks_between(s, line_start_of(s, p), p) == 0,
{
    lemma_line_start(s, p);
    lemma_context_window(s, line_start_of(s, p), CONTEXT_LINES as nat);
    lemma_no_line_breaks(s, line_start_of(s, p), p);
}

/// The excerpt bounds enclose the position: the excerpt starts at or before
/// the line, the line at or before the position, and the excerpt ends at or
/// behind it, inside the text.
pub proof fn lemma_excerpt_bounds(s: Seq<char>, p: int)
    requires
        0 <= p <= s.len(),
    ensures
        0 <= context_start_of(s, p) <= line_start_of(s, p) <= p <= excerpt_end_of(s, p) <= s.len(),
{
    lemma_line_start(s, p);
    lemma_preceding_line_start(s, line_start_of(s, p), CONTEXT_LINES as nat);
    lemma_next_line_break(s, p);
}

/// Offset of the first character of the line that holds offset `p`.
pub fn line_start_at(chars: &Vec<char>, p: usize) -> (start: usize)
    requires
        p <= chars.len(),
    ensures
        start == line_start_of(chars@, p as int),
        start <= p,
{
    let mut i: usize = p;
    while i > 0 && chars[i - 1] != '\n'
        invariant
            i <= p <= chars.len(),
            line_start_of(chars@, p as int) == line_start_of(chars@, i as int),
        decreases i,
    {
        i -= 1;
    }
    i
}

/// Start of the `n`-th line above the line that starts at `start`, or 0
/// where the text has fewer lines above.
pub fn preceding_line_start(chars: &Vec<char>, start: usize, n: usize) -> (found: usize)
    requires
        start <= chars.len(),
    ensures
        found == nth_preceding_line_start(chars@, start as int, n as nat),
{
    let mut at: usize = start;
    let mut left: usize = n;
    while left > 0 && at > 0
        invariant
            at <= chars.len(),
            nth_preceding_line_start(chars@, start as int, n as nat) == nth_preceding_line_start(
                chars@,
                at as int,
                left as nat,
            ),
        decreases left,
    {
        proof {
            lemma_line_start(chars@, at - 1);
        }
        at = line_start_at(chars, at - 1);
        left -= 1;
    }
    proof {
        lemma_walk_from_zero(chars@, left as nat);
    }
    at
}

/// From the start of the text every walk up ends at the start of the text.
proof fn lemma_walk_from_zero(s: Seq<char>, n: nat)
    ensures
        nth_preceding_line_start(s, 0, n) == 0,
{
}

/// Offset of the first line break at or behind `p`, if there is one.
pub fn line_break_from(chars: &Vec<char>, p: usize) -> (found: Option<usize>)
    requires
        p <= chars.len(),
    ensures
        match found {
            Some(end) => next_line_break(chars@, p as int) == Some(end as int),
            None => next_line_break(chars@, p as int) is None,
        },
{
    let mut i: usize = p;
    while i < chars.len() && chars[i] != '\n'
        invariant
            p <= i <= chars.len(),
            next_line_break(chars@, p as int) == next_line_break(chars@, i as int),
        decreases chars.len() - i,
    {
        i += 1;
    }
    if i < chars.len() {
        Some(i)
    } else {
        None
    }
}

/// Line and column reached after scanning the first `p` characters.
fn scan_to(chars: &Vec<char>, p: usize) -> (reached: (usize, usize))
    requires
        p <= chars.len(),
        p < usize::MAX,
    ensures
        reached.0 == scan(chars@, p as int).0,
        reached.1 == scan(chars@, p as int).1,
{
    let mut line_no: usize = 1;
    let mut column: usize = 0;
    let mut index: usize = 0;
    while index < p
        invariant
            index <= p <= chars.len(),
            p < usize::MAX,
            line_no == scan(chars@, index as int).0,
            column == scan(chars@, index as int).1,
        decreases p - index,
    {
        proof {
            lemma_scan(chars@, index as int);
        }
        column += 1;
        if chars[index] == '\n' {
            line_no += 1;
            column = 0;
        }
        index += 1;
    }
    (line_no, column)
}

/// Resolves an offset in a text given as characters.
pub fn resolve_chars(chars: &Vec<char>, position: i32) -> (resolved: Result<
    ResolvedPosition,
    PositionError,
>)
    ensures
        resolved is Ok <==> 0 <= position <= chars@.len(),
        resolved is Ok ==> resolved->Ok_0.locates(chars@, position as int),
        resolved is Err ==> resolved->Err_0 == PositionError::OutOfBounds,
{
    if position < 0 {
        return Err(PositionError::OutOfBounds);
    }
    let p: usize = position as usize;
    if p > chars.len() {
        return Err(PositionError::OutOfBounds);
    }
    let reached = scan_to(chars, p);
    let line_start: usize = line_start_at(chars, p);
    let context_start: usize = preceding_line_start(chars, line_start, CONTEXT_LINES);
    let line_end = line_break_from(chars, p);
    Ok(
        ResolvedPosition {
            line_no: reached.0,
            column: reached.1,
            line_start,
            context_start,
            line_end,
        },
    )
}

/// Resolves the character offset `position` in `block_text`: its line and
/// column, the start of its line, and the bounds of the excerpt around it.
/// An offset outside the text is refused.
pub fn resolve(block_text: &str, position: i32) -> (resolved: Result<
    ResolvedPosition,
    PositionError,
>)
    ensures
        resolved is Ok <==> 0 <= position <= block_text@.len(),
        resolved is Ok ==> resolved->Ok_0.locates(block_text@, position as int),
        resolved is Err ==> resolved->Err_0 == PositionError::OutOfBounds,
{
    let chars = chars_of(block_text);
    resolve_chars(&chars, position)
}

/// At the very start of a text the position is line 1, column 0, and the
/// excerpt starts there too.
pub proof fn lemma_start_of_text(s: Seq<char>)
    ensures
        scan(s, 0) == (1int, 0int),
        line_start_of(s, 0) == 0,
        context_start_of(s, 0) == 0,
{
    lemma_walk_from_zero(s, CONTEXT_LINES as nat);
}

/// In a text without line breaks every position is on line 1, its column is
/// the offset itself, and the excerpt spans the whole text.
pub proof fn lemma_single_line(s: Seq<char>, p: int)
    requires
        0 <= p <= s.len(),
        forall|i: int| 0 <= i < s.len() ==> s[i] != '\n',
    ensures
        scan(s, p) == (1int, p),
        line_start_of(s, p) == 0,
        context_start_of(s, p) == 0,
        next_line_break(s, p) is None,
        excerpt_end_of(s, p) == s.len(),
    decreases p,
{
    if p > 0 {
        lemma_single_line(s, p - 1);
    }
    lemma_walk_from_zero(s, CONTEXT_LINES as nat);
    lemma_next_line_break(s, p);
}

/// Directly behind a line break the column is 0 and the line starts at the
/// position itself.
pub proof fn lemma_after_line_break(s: Seq<char>, p: int)
    requires
        0 < p <= s.len(),
        s[p - 1] == '\n',
    ensures
        scan(s, p).1 == 0,
        scan(s, p).0 == scan(s, p - 1).0 + 1,
        line_start_of(s, p) == p,
{
}

} // verus!

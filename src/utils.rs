use vstd::prelude::*;
use vstd::string::StrSliceExecFns;
use crate::unparser::{emit, indent, write_indent};

verus! {

/// Width of one tab stop, used by the scanner's column accounting and by the
/// unparser's indentation.
pub const TAB_SIZE: usize = 8;

/// A rectangular span of source text: 1-based lines and columns, both ends
/// inclusive.
#[derive(Clone, Copy, Debug, PartialEq, Eq, Structural)]
pub struct SourcePosition {
    pub line_start: usize,
    pub line_finish: usize,
    pub char_start: usize,
    pub char_end: usize,
}

impl SourcePosition {
    pub fn new(line_start: usize, line_finish: usize, char_start: usize, char_end: usize) -> (r:
        Self)
        ensures
            r.line_start == line_start,
            r.line_finish == line_finish,
            r.char_start == char_start,
            r.char_end == char_end,
    {
        Self { line_start, line_finish, char_start, char_end }
    }

    /// The start of `self` is at or before the start of `other`, ordering by
    /// line, then by column.
    pub open spec fn starts_no_later_than(self, other: SourcePosition) -> bool {
        self.line_start < other.line_start || (self.line_start == other.line_start
            && self.char_start <= other.char_start)
    }
}

/// The span from the start of `a` to the end of `b`.
pub open spec fn spec_finish_position(a: SourcePosition, b: SourcePosition) -> SourcePosition {
    SourcePosition {
        line_start: a.line_start,
        line_finish: b.line_finish,
        char_start: a.char_start,
        char_end: b.char_end,
    }
}

/// Combines two positions: the start of `init` with the end of `end`.
pub fn finish_position(init: &SourcePosition, end: &SourcePosition) -> (r: SourcePosition)
    ensures
        r == spec_finish_position(*init, *end),
{
    SourcePosition::new(init.line_start, end.line_finish, init.char_start, end.char_end)
}

/// Where the last segment of a `::`-separated path within `s[0..n]` starts.
pub open spec fn segment_start(s: Seq<char>, n: int) -> int
    decreases n,
{
    if n < 2 {
        0
    } else if s[n - 2] == ':' && s[n - 1] == ':' {
        n
    } else {
        segment_start(s, n - 1)
    }
}

/// The part of `s` after its last `::`, or all of `s`.
pub open spec fn last_segment(s: Seq<char>) -> Seq<char> {
    s.subrange(segment_start(s, s.len() as int), s.len() as int)
}

proof fn lemma_segment_start(s: Seq<char>, n: int)
    requires
        0 <= n,
    ensures
        0 <= segment_start(s, n) <= n,
    decreases n,
{
    if n >= 2 {
        lemma_segment_start(s, n - 1);
    }
}

/// The last segment of the path `s` (a node's type name), indented by
/// `depth` tab stops.
pub fn generate_tabbed_string(s: &str, depth: usize) -> (r: String)
    ensures
        r@ == indent(depth as nat) + last_segment(s@),
{
    let n = s.unicode_len();
    let mut start: usize = 0;
    let mut k: usize = if n < 2 {
        n
    } else {
        2
    };
    if n >= 2 && s.get_char(0) == ':' && s.get_char(1) == ':' {
        start = 2;
    }
    assert(n >= 2 ==> segment_start(s@, 1) == 0);
    while k < n
        invariant
            n == s@.len(),
            n >= 2 ==> 2 <= k,
            n < 2 ==> k == n,
            k <= n,
            start as int == segment_start(s@, k as int),
        decreases n - k,
    {
        if s.get_char(k - 1) == ':' && s.get_char(k) == ':' {
            start = k + 1;
        }
        k = k + 1;
    }
    proof {
        lemma_segment_start(s@, n as int);
    }
    let mut out = String::new();
    write_indent(depth, &mut out);
    emit(&mut out, s.substring_char(start, n));
    out
}

} // verus!

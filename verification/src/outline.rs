//! The outline of a buffer as a prompt shows it: one line per outline item,
//! indented by depth, except around the user's selection, where the text of
//! the innermost items that touch the selection is shown with the selection
//! marked `<|...|>`.
//!
//! The plan says which lines to write; the buffer's text for the ranges of
//! an excerpt is read where the buffer is, and the lines are written by
//! `item_line` and `excerpt_line`.
use vstd::prelude::*;
use std::ops::Range;
use vstd::string::StringExecFns;

verus! {

/// An item of a buffer's outline: its range in the buffer, its depth, its
/// text, and the ranges of its name relative to its start.
pub struct OutlineItem {
    pub range: Range<usize>,
    pub depth: usize,
    pub text: String,
    pub name_ranges: Vec<Range<usize>>,
}

/// A line of the outline: an item's text at its depth, or an excerpt of the
/// buffer around the selection, at the depth of its outermost item.
pub enum OutlineLine {
    Item { depth: usize, text: String },
    Excerpt { depth: usize, before: Range<usize>, selection: Range<usize>, after: Range<usize> },
}

/// Where the walk over the items stands.
pub struct OutlineWalk {
    pub intersected: bool,
    pub intersection_indent: usize,
    pub extended_start: usize,
    pub extended_end: usize,
    pub lines: Seq<OutlineLine>,
}

/// Whether the item lies apart from the selection.
pub open spec fn apart(item: OutlineItem, range: Range<usize>) -> bool {
    item.range.end < range.start || item.range.start > range.end
}

/// Whether the item at `idx` has no child after it.
pub open spec fn is_terminal(items: Seq<OutlineItem>, idx: int) -> bool {
    idx + 1 >= items.len() || items[idx + 1].depth <= items[idx].depth
}

/// Where the item's name starts in the buffer.
pub open spec fn name_start(item: OutlineItem) -> int {
    item.range.start + item.name_ranges@[0].start
}

/// Where the item's name ends in the buffer.
pub open spec fn name_end(item: OutlineItem) -> int {
    item.range.start + item.name_ranges@.last().end
}

/// Whether the item at `idx` can be walked: an item that touches the
/// selection and has children must have a name, within the buffer's
/// offsets.
pub open spec fn walkable(items: Seq<OutlineItem>, range: Range<usize>, idx: int) -> bool {
    !apart(items[idx], range) && !is_terminal(items, idx) ==> {
        &&& items[idx].name_ranges@.len() > 0
        &&& name_start(items[idx]) <= usize::MAX
        &&& name_end(items[idx]) <= usize::MAX
    }
}

/// The walk after the item at `idx`.
pub open spec fn outline_step(
    items: Seq<OutlineItem>,
    range: Range<usize>,
    idx: int,
    w: OutlineWalk,
) -> OutlineWalk {
    let item = items[idx];
    let w1 = if apart(item, range) {
        OutlineWalk { lines: w.lines.push(OutlineLine::Item { depth: item.depth, text: item.text }), ..w }
    } else if is_terminal(items, idx) {
        let moved = item.range.start <= w.extended_start;
        OutlineWalk {
            intersected: true,
            intersection_indent: if moved { item.depth } else { w.intersection_indent },
            extended_start: if moved { item.range.start } else { w.extended_start },
            extended_end: if item.range.end > w.extended_end { item.range.end } else { w.extended_end },
            lines: w.lines,
        }
    } else if range.start > name_end(item) {
        OutlineWalk {
            intersected: true,
            lines: w.lines.push(OutlineLine::Item { depth: item.depth, text: item.text }),
            ..w
        }
    } else {
        let moved = name_start(item) <= w.extended_start;
        OutlineWalk {
            intersected: true,
            intersection_indent: if moved { item.depth } else { w.intersection_indent },
            extended_start: if moved { item.range.start } else { w.extended_start },
            extended_end: if name_end(item) > w.extended_end {
                name_end(item) as usize
            } else {
                w.extended_end
            },
            lines: w.lines,
        }
    };
    if w1.intersected && (idx + 1 >= items.len() || items[idx + 1].range.start > range.end) {
        OutlineWalk {
            intersected: false,
            lines: w1.lines.push(
                OutlineLine::Excerpt {
                    depth: w1.intersection_indent,
                    before: w1.extended_start..range.start,
                    selection: range,
                    after: range.end..w1.extended_end,
                },
            ),
            ..w1
        }
    } else {
        w1
    }
}

/// The walk over the first `n` items.
pub open spec fn outline_walk(items: Seq<OutlineItem>, range: Range<usize>, n: int) -> OutlineWalk
    decreases n,
{
    if n <= 0 {
        OutlineWalk {
            intersected: false,
            intersection_indent: 0,
            extended_start: range.start,
            extended_end: range.end,
            lines: Seq::empty(),
        }
    } else {
        outline_step(items, range, n - 1, outline_walk(items, range, n - 1))
    }
}

/// The item lines of the first `n` items.
pub open spec fn item_lines(items: Seq<OutlineItem>, n: int) -> Seq<OutlineLine>
    decreases n,
{
    if n <= 0 {
        Seq::empty()
    } else {
        item_lines(items, n - 1).push(
            OutlineLine::Item { depth: items[n - 1].depth, text: items[n - 1].text },
        )
    }
}

/// Where no item touches the selection, the outline is every item's line,
/// in order, and shows no excerpt.
pub proof fn lemma_outline_away_from_selection(items: Seq<OutlineItem>, range: Range<usize>, n: int)
    requires
        0 <= n <= items.len(),
        forall|i: int| 0 <= i < n ==> #[trigger] apart(items[i], range),
    ensures
        outline_walk(items, range, n).lines == item_lines(items, n),
        !outline_walk(items, range, n).intersected,
        outline_walk(items, range, n).extended_start == range.start,
        outline_walk(items, range, n).extended_end == range.end,
        outline_walk(items, range, n).intersection_indent == 0,
    decreases n,
{
    if n > 0 {
        lemma_outline_away_from_selection(items, range, n - 1);
        assert(apart(items[n - 1], range));
    }
}

/// Whether `line` is the line of one of the first `n` items, or an excerpt
/// around the selection `range` (the text before it ending where the
/// selection starts, the text after it starting where the selection ends).
pub open spec fn line_of(items: Seq<OutlineItem>, range: Range<usize>, n: int, line: OutlineLine) -> bool {
    match line {
        OutlineLine::Item { depth, text } => exists|i: int|
            0 <= i < n && #[trigger] items[i].depth == depth && items[i].text == text,
        OutlineLine::Excerpt { depth, before, selection, after } => {
            &&& selection == range
            &&& before.end == range.start
            &&& after.start == range.end
        },
    }
}

/// Each line of the outline is an item's line or an excerpt that marks
/// exactly the selection, and once every item is walked no excerpt is left
/// unwritten.
pub proof fn lemma_outline_lines(items: Seq<OutlineItem>, range: Range<usize>, n: int)
    requires
        0 <= n <= items.len(),
    ensures
        forall|k: int|
            0 <= k < outline_walk(items, range, n).lines.len() ==> line_of(
                items,
                range,
                n,
                #[trigger] outline_walk(items, range, n).lines[k],
            ),
        n == items.len() ==> !outline_walk(items, range, n).intersected,
    decreases n,
{
    if n > 0 {
        lemma_outline_lines(items, range, n - 1);
        let w = outline_walk(items, range, n - 1);
        let w2 = outline_walk(items, range, n);
        assert forall|k: int| 0 <= k < w2.lines.len() implies line_of(
            items,
            range,
            n,
            #[trigger] w2.lines[k],
        ) by {
            if k < w.lines.len() {
                assert(w2.lines[k] == w.lines[k]);
                assert(line_of(items, range, n - 1, w.lines[k]));
                match w.lines[k] {
                    OutlineLine::Item { depth, text } => {
                        let i = choose|i: int|
                            0 <= i < n - 1 && #[trigger] items[i].depth == depth && items[i].text
                                == text;
                        assert(items[i].depth == depth);
                    },
                    _ => {},
                }
            } else {
                match w2.lines[k] {
                    OutlineLine::Item { depth, text } => {
                        assert(items[n - 1].depth == depth);
                    },
                    _ => {},
                }
            }
        }
    }
}

/// Whether the item at `idx` is shown by its own line: it lies apart from
/// the selection, or it has children and its name ends before the selection
/// starts.
pub open spec fn shown_as_line(items: Seq<OutlineItem>, range: Range<usize>, idx: int) -> bool {
    apart(items[idx], range) || (!is_terminal(items, idx) && range.start > name_end(items[idx]))
}

/// The lines of those of the first `n` items that are shown by their own
/// line, in order.
pub open spec fn shown_lines(items: Seq<OutlineItem>, range: Range<usize>, n: int) -> Seq<OutlineLine>
    decreases n,
{
    if n <= 0 {
        Seq::empty()
    } else if shown_as_line(items, range, n - 1) {
        shown_lines(items, range, n - 1).push(
            OutlineLine::Item { depth: items[n - 1].depth, text: items[n - 1].text },
        )
    } else {
        shown_lines(items, range, n - 1)
    }
}

/// The item lines among `lines`, in order.
pub open spec fn item_lines_among(lines: Seq<OutlineLine>) -> Seq<OutlineLine>
    decreases lines.len(),
{
    if lines.len() == 0 {
        Seq::empty()
    } else if lines.last() is Item {
        item_lines_among(lines.drop_last()).push(lines.last())
    } else {
        item_lines_among(lines.drop_last())
    }
}

/// Leaving out the excerpts, the outline is the line of each item that lies
/// apart from the selection or whose name ends before it, in order; every
/// other item is shown only inside an excerpt.
pub proof fn lemma_outline_item_lines(items: Seq<OutlineItem>, range: Range<usize>, n: int)
    requires
        0 <= n <= items.len(),
    ensures
        item_lines_among(outline_walk(items, range, n).lines) == shown_lines(items, range, n),
    decreases n,
{
    if n > 0 {
        lemma_outline_item_lines(items, range, n - 1);
        let w = outline_walk(items, range, n - 1);
        let item = items[n - 1];
        let line = OutlineLine::Item { depth: item.depth, text: item.text };
        let with_line = w.lines.push(line);
        assert(with_line.drop_last() =~= w.lines);
        assert(item_lines_among(with_line) == item_lines_among(w.lines).push(line));
        let w1 = if shown_as_line(items, range, n - 1) {
            with_line
        } else {
            w.lines
        };
        assert forall|e: OutlineLine| e is Excerpt implies item_lines_among(#[trigger] w1.push(e))
            == item_lines_among(w1) by {
            assert(w1.push(e).drop_last() =~= w1);
        }
    }
}

fn copy_text(s: &String) -> (c: String)
    ensures
        c == *s,
{
    s.clone()
}

/// The lines of the outline around the selection `range`.
pub fn outline_plan(items: &Vec<OutlineItem>, range: Range<usize>) -> (lines: Vec<OutlineLine>)
    requires
        forall|idx: int| 0 <= idx < items@.len() ==> walkable(items@, range, idx),
    ensures
        lines@ == outline_walk(items@, range, items@.len() as int).lines,
        item_lines_among(lines@) == shown_lines(items@, range, items@.len() as int),
        forall|k: int|
            0 <= k < lines@.len() ==> line_of(items@, range, items@.len() as int, #[trigger] lines@[k]),
{
    let mut lines: Vec<OutlineLine> = Vec::new();
    let mut intersected = false;
    let mut intersection_indent: usize = 0;
    let mut extended_start: usize = range.start;
    let mut extended_end: usize = range.end;
    let n = items.len();
    let mut idx: usize = 0;
    while idx < n
        invariant
            n == items@.len(),
            idx <= n,
            forall|i: int| 0 <= i < items@.len() ==> walkable(items@, range, i),
            ({
                let w = outline_walk(items@, range, idx as int);
                &&& w.intersected == intersected
                &&& w.intersection_indent == intersection_indent
                &&& w.extended_start == extended_start
                &&& w.extended_end == extended_end
                &&& w.lines == lines@
            }),
        decreases n - idx,
    {
        let item = &items[idx];
        let ghost w = outline_walk(items@, range, idx as int);
        assert(walkable(items@, range, idx as int));
        if item.range.end < range.start || item.range.start > range.end {
            lines.push(OutlineLine::Item { depth: item.depth, text: copy_text(&item.text) });
        } else {
            intersected = true;
            let is_terminal = idx + 1 >= n || items[idx + 1].depth <= item.depth;
            if is_terminal {
                if item.range.start <= extended_start {
                    extended_start = item.range.start;
                    intersection_indent = item.depth;
                }
                if item.range.end > extended_end {
                    extended_end = item.range.end;
                }
            } else {
                let first = item.name_ranges[0].start;
                let last = item.name_ranges[item.name_ranges.len() - 1].end;
                let name_start = item.range.start + first;
                let name_end = item.range.start + last;
                if range.start > name_end {
                    lines.push(OutlineLine::Item { depth: item.depth, text: copy_text(&item.text) });
                } else {
                    if name_start <= extended_start {
                        extended_start = item.range.start;
                        intersection_indent = item.depth;
                    }
                    if name_end > extended_end {
                        extended_end = name_end;
                    }
                }
            }
        }
        if intersected && (idx + 1 >= n || items[idx + 1].range.start > range.end) {
            intersected = false;
            lines.push(
                OutlineLine::Excerpt {
                    depth: intersection_indent,
                    before: extended_start..range.start,
                    selection: range.start..range.end,
                    after: range.end..extended_end,
                },
            );
        }
        proof {
            let w2 = outline_step(items@, range, idx as int, w);
            assert(w2.lines =~= lines@);
        }
        idx += 1;
    }
    proof {
        lemma_outline_item_lines(items@, range, n as int);
        lemma_outline_lines(items@, range, n as int);
    }
    lines
}

/// `indent` written `depth` times.
pub open spec fn repeated(indent: Seq<char>, depth: nat) -> Seq<char>
    decreases depth,
{
    if depth == 0 {
        Seq::empty()
    } else {
        repeated(indent, (depth - 1) as nat) + indent
    }
}

fn indentation(indent: &str, depth: usize) -> (s: String)
    ensures
        s@ == repeated(indent@, depth as nat),
{
    let mut s = String::new();
    let mut i: usize = 0;
    while i < depth
        invariant
            i <= depth,
            s@ == repeated(indent@, i as nat),
        decreases depth - i,
    {
        s.append(indent);
        i += 1;
    }
    s
}

/// The line of an item: its text at its depth.
pub fn item_line(indent: &str, depth: usize, text: &str) -> (line: String)
    ensures
        line@ == repeated(indent@, depth as nat) + text@ + seq!['\n'],
{
    let mut line = indentation(indent, depth);
    line.append(text);
    line.append("\n");
    proof {
        reveal_strlit("\n");
    }
    line
}

/// The line of an excerpt: the text before the selection, the selection
/// between `<|` and `|>`, and the text after it, at its depth.
pub fn excerpt_line(
    indent: &str,
    depth: usize,
    before: &str,
    selection: &str,
    after: &str,
) -> (line: String)
    ensures
        line@ == repeated(indent@, depth as nat) + before@ + seq!['<', '|'] + selection@ + seq![
            '|',
            '>',
        ] + after@ + seq!['\n'],
{
    let mut line = indentation(indent, depth);
    line.append(before);
    line.append("<|");
    line.append(selection);
    line.append("|>");
    line.append(after);
    line.append("\n");
    proof {
        reveal_strlit("<|");
        reveal_strlit("|>");
        reveal_strlit("\n");
    }
    line
}

} // verus!

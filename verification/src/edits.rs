//! Applying the edits that an assistant suggests in a conversation: which
//! suggestions the user selected, and the list of edits of a buffer, kept
//! in order of position with at most one edit starting at each position.
//! Positions are offsets into the conversation or the buffer.
use vstd::prelude::*;
use std::ops::Range;

verus! {

/// Whether the selection and the suggestion overlap or touch.
pub open spec fn intersects(selection: Range<usize>, suggestion: Range<usize>) -> bool {
    selection.end >= suggestion.start && selection.start <= suggestion.end
}

/// Whether some selection overlaps or touches the suggestion.
pub open spec fn selected_by(selections: Seq<Range<usize>>, suggestion: Range<usize>) -> bool {
    exists|i: int| 0 <= i < selections.len() && #[trigger] intersects(selections[i], suggestion)
}

/// Whether the ranges start in order.
pub open spec fn starts_in_order(ranges: Seq<Range<usize>>) -> bool {
    forall|i: int, j: int| 0 <= i <= j < ranges.len() ==> ranges[i].start <= ranges[j].start
}

/// From position `j` on, the first selection that does not end before the
/// suggestion starts (the length of `selections` if there is none).
pub open spec fn skip_ended(selections: Seq<Range<usize>>, j: int, suggestion: Range<usize>) -> int
    decreases selections.len() - j,
{
    if 0 <= j < selections.len() && selections[j].end < suggestion.start {
        skip_ended(selections, j + 1, suggestion)
    } else {
        j
    }
}

/// Where the walk over the selections stands when it comes to the
/// suggestion at `k`: each suggestion moves it past the selections that
/// end before that suggestion starts.
pub open spec fn walk_position(
    selections: Seq<Range<usize>>,
    suggestions: Seq<Range<usize>>,
    k: int,
) -> int
    decreases k,
{
    if k <= 0 {
        0
    } else {
        skip_ended(selections, walk_position(selections, suggestions, k - 1), suggestions[k - 1])
    }
}

/// Whether the walk selects the suggestion at `k`: the selection it stops
/// at exists and does not start after the suggestion ends.
pub open spec fn walk_selects(
    selections: Seq<Range<usize>>,
    suggestions: Seq<Range<usize>>,
    k: int,
) -> bool {
    let p = skip_ended(selections, walk_position(selections, suggestions, k), suggestions[k]);
    0 <= p < selections.len() && selections[p].start <= suggestions[k].end
}

/// For each suggestion, whether the user selected it.  Both lists are
/// walked once, together: for each suggestion the walk passes the
/// selections that end before it starts, and the suggestion is selected
/// when the next selection does not start after it ends.  A selected
/// suggestion always touches some selection; where both lists start in
/// order (as the editor keeps them), every suggestion that touches a
/// selection is selected.
pub fn select_suggestions(
    selections: &Vec<Range<usize>>,
    suggestions: &Vec<Range<usize>>,
) -> (selected: Vec<bool>)
    ensures
        selected@.len() == suggestions@.len(),
        forall|k: int|
            0 <= k < suggestions@.len() ==> #[trigger] selected@[k] == walk_selects(
                selections@,
                suggestions@,
                k,
            ),
        forall|k: int|
            0 <= k < suggestions@.len() && #[trigger] selected@[k] ==> selected_by(
                selections@,
                suggestions@[k],
            ),
        starts_in_order(selections@) && starts_in_order(suggestions@) ==> forall|k: int|
            0 <= k < suggestions@.len() && selected_by(selections@, suggestions@[k])
                ==> #[trigger] selected@[k],
{
    let ghost sorted = starts_in_order(selections@) && starts_in_order(suggestions@);
    let mut selected: Vec<bool> = Vec::new();
    let mut j: usize = 0;
    let mut k: usize = 0;
    while k < suggestions.len()
        invariant
            k <= suggestions.len(),
            j <= selections.len(),
            k == 0 ==> j == 0,
            j == walk_position(selections@, suggestions@, k as int),
            selected@.len() == k,
            forall|m: int|
                0 <= m < k ==> #[trigger] selected@[m] == walk_selects(selections@, suggestions@, m),
            sorted == (starts_in_order(selections@) && starts_in_order(suggestions@)),
            forall|m: int|
                0 <= m < k && #[trigger] selected@[m] ==> selected_by(selections@, suggestions@[m]),
            sorted ==> forall|m: int|
                0 <= m < k && selected_by(selections@, suggestions@[m]) ==> #[trigger] selected@[m],
            sorted && k > 0 ==> forall|i: int|
                0 <= i < j ==> selections@[i].end < suggestions@[k - 1].start,
        decreases suggestions.len() - k,
    {
        let suggestion = &suggestions[k];
        let mut found = false;
        let ghost start_j = j;
        loop
            invariant
                k < suggestions.len(),
                start_j <= j <= selections.len(),
                suggestion == suggestions@[k as int],
                skip_ended(selections@, j as int, *suggestion) == skip_ended(
                    selections@,
                    start_j as int,
                    *suggestion,
                ),
                sorted == (starts_in_order(selections@) && starts_in_order(suggestions@)),
                sorted && k > 0 ==> forall|i: int|
                    0 <= i < start_j ==> selections@[i].end < suggestions@[k - 1].start,
                forall|i: int| start_j <= i < j ==> selections@[i].end < suggestion.start,
                found ==> j < selections.len() && intersects(selections@[j as int], *suggestion),
            ensures
                j == skip_ended(selections@, start_j as int, *suggestion),
                found == (j < selections.len() && selections@[j as int].start <= suggestion.end),
                found ==> j < selections.len() && intersects(selections@[j as int], *suggestion),
                !found ==> (j == selections.len() || selections@[j as int].start > suggestion.end),
                forall|i: int| start_j <= i < j ==> selections@[i].end < suggestion.start,
            decreases selections.len() - j,
        {
            if j >= selections.len() {
                break;
            }
            let selection = &selections[j];
            if selection.end < suggestion.start {
                j += 1;
                continue;
            }
            if selection.start > suggestion.end {
                break;
            }
            found = true;
            break;
        }
        proof {
            if found {
                assert(intersects(selections@[j as int], suggestions@[k as int]));
            }
            if sorted {
                assert forall|i: int| 0 <= i < j implies selections@[i].end < suggestions@[k as int].start by {
                    if i < start_j && k > 0 {
                        assert(suggestions@[k - 1].start <= suggestions@[k as int].start);
                    }
                }
                if !found {
                    assert forall|i: int| 0 <= i < selections@.len() implies !intersects(
                        selections@[i],
                        suggestions@[k as int],
                    ) by {
                        if i >= j {
                            assert(selections@[j as int].start <= selections@[i].start);
                        }
                    }
                }
            }
        }
        selected.push(found);
        k += 1;
    }
    selected
}

/// Whether the edits start in strictly increasing order.
pub open spec fn edits_in_order(edits: Seq<(Range<usize>, String)>) -> bool {
    forall|i: int, j: int| 0 <= i < j < edits.len() ==> edits[i].0.start < edits[j].0.start
}

/// Whether some edit starts at `start`.
pub open spec fn has_edit_at(edits: Seq<(Range<usize>, String)>, start: usize) -> bool {
    exists|i: int| 0 <= i < edits.len() && #[trigger] edits[i].0.start == start
}

/// Adds the edit that replaces `range` by `new_text`, at its place in
/// order of start, unless an edit starts there already; says whether it
/// was added.  The place is found by binary search, so the order is only
/// kept for edits that were in order.
pub fn insert_edit(
    edits: &mut Vec<(Range<usize>, String)>,
    range: Range<usize>,
    new_text: String,
) -> (added: bool)
    ensures
        !added ==> final(edits)@ == old(edits)@,
        added ==> exists|ix: int|
            0 <= ix <= old(edits)@.len() && final(edits)@ == old(edits)@.insert(
                ix,
                (range, new_text),
            ),
        edits_in_order(old(edits)@) ==> {
            &&& added == !has_edit_at(old(edits)@, range.start)
            &&& edits_in_order(final(edits)@)
        },
{
    let mut lo: usize = 0;
    let mut hi: usize = edits.len();
    while lo < hi
        invariant
            lo <= hi <= edits.len(),
            edits@ == old(edits)@,
            edits_in_order(edits@) ==> forall|i: int| 0 <= i < lo ==> edits@[i].0.start < range.start,
            edits_in_order(edits@) ==> forall|i: int|
                hi <= i < edits@.len() ==> edits@[i].0.start > range.start,
        decreases hi - lo,
    {
        let mid = lo + (hi - lo) / 2;
        let start = edits[mid].0.start;
        if start == range.start {
            proof {
                assert(has_edit_at(old(edits)@, range.start)) by {
                    assert(old(edits)@[mid as int].0.start == range.start);
                }
            }
            return false;
        } else if start < range.start {
            lo = mid + 1;
        } else {
            hi = mid;
        }
    }
    let ghost before = edits@;
    let entry = (range, new_text);
    edits.insert(lo, entry);
    proof {
        if edits_in_order(before) {
            assert(!has_edit_at(before, range.start)) by {
                if has_edit_at(before, range.start) {
                    let i = choose|i: int| 0 <= i < before.len() && #[trigger] before[i].0.start == range.start;
                    assert(i < lo || i >= hi);
                }
            }
            assert forall|i: int, j: int| 0 <= i < j < edits@.len() implies edits@[i].0.start
                < edits@[j].0.start by {
                if j < lo {
                } else if j == lo {
                } else if i == lo {
                    assert(edits@[j] == before[j - 1]);
                } else if i < lo {
                    assert(edits@[j] == before[j - 1]);
                } else {
                    assert(edits@[j] == before[j - 1]);
                    assert(edits@[i] == before[i - 1]);
                }
            }
        }
    }
    true
}

} // verus!

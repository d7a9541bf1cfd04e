//! Splitting overlapping highlight ranges into disjoint runs, each tagged
//! with the highlights that cover it.
use std::ops::Range;
use vstd::prelude::*;

verus! {

/// Range `i` of `r` is a real, non-empty range.
pub open spec fn non_empty(r: Seq<Range<usize>>, i: int) -> bool {
    0 <= i < r.len() && r[i].start < r[i].end
}

/// `p` is the start or the end of some non-empty range of `r`.
pub open spec fn is_endpoint(r: Seq<Range<usize>>, p: int) -> bool {
    exists|i: int| non_empty(r, i) && (r[i].start == p || r[i].end == p)
}

/// Range `i` of `r` covers all of `a..b`.
pub open spec fn covers(r: Seq<Range<usize>>, i: int, a: int, b: int) -> bool {
    non_empty(r, i) && r[i].start <= a && b <= r[i].end
}

/// The runs of `segs` are non-empty and ordered left to right without overlap.
pub open spec fn runs_ordered(segs: Seq<(Range<usize>, Vec<usize>)>) -> bool {
    &&& forall|k: int| 0 <= k < segs.len() ==> #[trigger] segs[k].0.start < segs[k].0.end
    &&& forall|k: int, l: int| 0 <= k < l < segs.len() ==> segs[k].0.end <= segs[l].0.start
}

/// Each run lies between two consecutive endpoints of `r` and lists, in
/// increasing order, exactly the ranges that cover it, at least one, each
/// by its position in `r`.
pub open spec fn runs_exact(r: Seq<Range<usize>>, segs: Seq<(Range<usize>, Vec<usize>)>) -> bool {
    forall|k: int|
        0 <= k < segs.len() ==> {
            let s = #[trigger] segs[k];
            &&& is_endpoint(r, s.0.start as int)
            &&& is_endpoint(r, s.0.end as int)
            &&& forall|x: int| s.0.start < x < s.0.end ==> !is_endpoint(r, x)
            &&& s.1.len() > 0
            &&& forall|a: int, b: int| 0 <= a < b < s.1.len() ==> s.1[a] < s.1[b]
            &&& forall|j: int| 0 <= j < s.1.len() ==> s.1[j] < r.len()
            &&& forall|i: int| s.1@.contains(i as usize) && 0 <= i < r.len() <==> covers(
                r,
                i,
                s.0.start as int,
                s.0.end as int,
            )
        }
}

/// Position `x` lies inside the non-empty range `i` of `r`.
pub open spec fn covered_by(r: Seq<Range<usize>>, i: int, x: int) -> bool {
    non_empty(r, i) && r[i].start <= x < r[i].end
}

/// Position `x` lies inside run `k` of `segs`.
pub open spec fn in_run(segs: Seq<(Range<usize>, Vec<usize>)>, k: int, x: int) -> bool {
    0 <= k < segs.len() && segs[k].0.start <= x < segs[k].0.end
}

/// Every position covered by some range lies in some run.
pub open spec fn runs_complete(r: Seq<Range<usize>>, segs: Seq<(Range<usize>, Vec<usize>)>) -> bool {
    forall|i: int, x: int| #[trigger] covered_by(r, i, x) ==> exists|k: int| #[trigger] in_run(segs, k, x)
}

/// `q` lies above `after` (every position does when `after` is `None`).
pub open spec fn above(after: Option<usize>, q: int) -> bool {
    after matches Some(a) ==> a < q
}

/// The smallest endpoint of `r` above `after` (any endpoint when `after`
/// is `None`).
fn next_endpoint(r: &Vec<Range<usize>>, after: Option<usize>) -> (p: Option<usize>)
    ensures
        match p {
            Some(p) => {
                &&& is_endpoint(r@, p as int)
                &&& above(after, p as int)
                &&& forall|q: int| #[trigger] is_endpoint(r@, q) && above(after, q) ==> p <= q
            },
            None => forall|q: int| #[trigger] is_endpoint(r@, q) ==> !above(after, q),
        },
{
    let mut best: Option<usize> = None;
    let mut i: usize = 0;
    while i < r.len()
        invariant
            i <= r.len(),
            match best {
                Some(p) => {
                    &&& is_endpoint(r@, p as int)
                    &&& above(after, p as int)
                    &&& forall|j: int|
                        0 <= j < i && #[trigger] non_empty(r@, j) ==> (above(after, r@[j].start as int)
                            ==> p <= r@[j].start) && (above(after, r@[j].end as int) ==> p <= r@[j].end)
                },
                None => forall|j: int|
                    0 <= j < i && #[trigger] non_empty(r@, j) ==> !above(after, r@[j].start as int)
                        && !above(after, r@[j].end as int),
            },
        decreases r.len() - i,
    {
        let s = r[i].start;
        let e = r[i].end;
        proof {
            if s < e {
                assert(non_empty(r@, i as int));
                assert(is_endpoint(r@, s as int));
                assert(is_endpoint(r@, e as int));
            }
        }
        if s < e {
            let above_s = match after {
                Some(a) => a < s,
                None => true,
            };
            if above_s {
                best = match best {
                    Some(b) => if s < b { Some(s) } else { Some(b) },
                    None => Some(s),
                };
            }
            let above_e = match after {
                Some(a) => a < e,
                None => true,
            };
            if above_e {
                best = match best {
                    Some(b) => if e < b { Some(e) } else { Some(b) },
                    None => Some(e),
                };
            }
        }
        i += 1;
    }
    best
}

/// The indices whose flag is set, in increasing order.
fn flagged(flags: &Vec<bool>) -> (ids: Vec<usize>)
    ensures
        forall|a: int, b: int| 0 <= a < b < ids.len() ==> ids[a] < ids[b],
        forall|i: int| ids@.contains(i as usize) && 0 <= i < flags.len() <==> 0 <= i < flags.len() && flags[i],
        forall|k: int| 0 <= k < ids.len() ==> ids[k] < flags.len(),
{
    let mut ids: Vec<usize> = Vec::new();
    let mut i: usize = 0;
    while i < flags.len()
        invariant
            i <= flags.len(),
            forall|a: int, b: int| 0 <= a < b < ids.len() ==> ids[a] < ids[b],
            forall|k: int| 0 <= k < ids.len() ==> ids[k] < i,
            forall|j: int| 0 <= j < i ==> (ids@.contains(j as usize) <==> flags[j]),
        decreases flags.len() - i,
    {
        if flags[i] {
            let ghost before = ids@;
            ids.push(i);
            assert forall|j: int| 0 <= j < i + 1 implies (ids@.contains(j as usize) <==> flags[j]) by {
                if j < i {
                    if before.contains(j as usize) {
                        let k = choose|k: int| 0 <= k < before.len() && before[k] == j as usize;
                        assert(ids@[k] == j as usize);
                    }
                    if ids@.contains(j as usize) {
                        let k = choose|k: int| 0 <= k < ids.len() && ids@[k] == j as usize;
                        assert(k < before.len());
                        assert(before[k] == j as usize);
                    }
                } else {
                    assert(ids@[ids.len() - 1] == i);
                }
            }
        } else {
            assert forall|j: int| 0 <= j < i + 1 implies (ids@.contains(j as usize) <==> flags[j]) by {
                if j == i && ids@.contains(j as usize) {
                    let k = choose|k: int| 0 <= k < ids.len() && ids@[k] == j as usize;
                    assert(ids[k] < i);
                }
            }
        }
        i += 1;
    }
    assert forall|i: int| ids@.contains(i as usize) && 0 <= i < flags.len() <==> 0 <= i < flags.len() && flags[i] by {}
    ids
}

/// Marks the ranges that start at `p` and unmarks those that end at `p`.
fn step_flags(r: &Vec<Range<usize>>, flags: &mut Vec<bool>, p: usize)
    requires
        old(flags).len() == r.len(),
    ensures
        final(flags).len() == r.len(),
        forall|i: int|
            0 <= i < r.len() ==> #[trigger] final(flags)[i] == if non_empty(r@, i) && r@[i].start == p {
                true
            } else if non_empty(r@, i) && r@[i].end == p {
                false
            } else {
                old(flags)[i]
            },
{
    let mut i: usize = 0;
    while i < r.len()
        invariant
            i <= r.len(),
            flags.len() == r.len(),
            forall|j: int|
                i <= j < r.len() ==> #[trigger] flags[j] == old(flags)[j],
            forall|j: int|
                0 <= j < i ==> #[trigger] flags[j] == if non_empty(r@, j) && r@[j].start == p {
                    true
                } else if non_empty(r@, j) && r@[j].end == p {
                    false
                } else {
                    old(flags)[j]
                },
        decreases r.len() - i,
    {
        if r[i].start < r[i].end {
            if r[i].start == p {
                flags.set(i, true);
            } else if r[i].end == p {
                flags.set(i, false);
            }
        }
        i += 1;
    }
}

/// Splits the highlight ranges of `a` followed by those of `b` into
/// disjoint runs between consecutive range endpoints. Each run carries the
/// positions, in `a` then `b`, of the non-empty ranges covering it; runs
/// that no range covers are left out.
pub fn combine_highlights(a: Vec<Range<usize>>, b: Vec<Range<usize>>) -> (segs: Vec<
    (Range<usize>, Vec<usize>),
>)
    requires
        a.len() + b.len() <= usize::MAX,
    ensures
        runs_ordered(segs@),
        runs_exact(a@ + b@, segs@),
        runs_complete(a@ + b@, segs@),
{
    let mut r: Vec<Range<usize>> = Vec::new();
    let mut flags: Vec<bool> = Vec::new();
    let mut i: usize = 0;
    while i < a.len()
        invariant
            i <= a.len(),
            r@ == a@.subrange(0, i as int),
            flags.len() == r.len(),
            forall|j: int| 0 <= j < flags.len() ==> !flags[j],
        decreases a.len() - i,
    {
        r.push(a[i].start..a[i].end);
        flags.push(false);
        i += 1;
    }
    let mut i: usize = 0;
    while i < b.len()
        invariant
            i <= b.len(),
            r@ == a@ + b@.subrange(0, i as int),
            flags.len() == r.len(),
            forall|j: int| 0 <= j < flags.len() ==> !flags[j],
        decreases b.len() - i,
    {
        r.push(b[i].start..b[i].end);
        flags.push(false);
        i += 1;
    }
    assert(r@ =~= a@ + b@);
    combine_ranges(&r, flags)
}

fn combine_ranges(r: &Vec<Range<usize>>, flags: Vec<bool>) -> (segs: Vec<(Range<usize>, Vec<usize>)>)
    requires
        flags.len() == r.len(),
        forall|j: int| 0 <= j < flags.len() ==> !flags[j],
    ensures
        runs_ordered(segs@),
        runs_exact(r@, segs@),
        runs_complete(r@, segs@),
{
    let mut flags = flags;
    let mut segs: Vec<(Range<usize>, Vec<usize>)> = Vec::new();
    let first = next_endpoint(r, None);
    let mut cur = match first {
        None => {
            assert forall|i: int, x: int| #[trigger] covered_by(r@, i, x) implies exists|k: int| #[trigger] in_run(segs@, k, x) by {
                assert(is_endpoint(r@, r@[i].start as int));
            }
            return segs;
        },
        Some(p) => p,
    };
    proof {
        assert forall|i: int| 0 <= i < r.len() && non_empty(r@, i) implies cur <= r@[i].start by {
            assert(is_endpoint(r@, r@[i].start as int));
        }
    }
    step_flags(r, &mut flags, cur);
    loop
        invariant
            flags.len() == r.len(),
            is_endpoint(r@, cur as int),
            forall|i: int| 0 <= i < r.len() ==> #[trigger] flags[i] == (non_empty(r@, i) && r@[i].start <= cur < r@[i].end),
            runs_ordered(segs@),
            runs_exact(r@, segs@),
            forall|k: int| 0 <= k < segs.len() ==> #[trigger] segs[k].0.end <= cur,
            forall|i: int, x: int| #[trigger] covered_by(r@, i, x) && x < cur ==> exists|k: int| #[trigger] in_run(segs@, k, x),
        decreases usize::MAX - cur,
    {
        let next = next_endpoint(r, Some(cur));
        match next {
            None => {
                assert forall|i: int, x: int| #[trigger] covered_by(r@, i, x) implies exists|k: int| #[trigger] in_run(segs@, k, x) by {
                    assert(is_endpoint(r@, r@[i].end as int));
                }
                return segs;
            },
            Some(p) => {
                let ids = flagged(&flags);
                let ghost old_segs = segs@;
                proof {
                    assert forall|i: int| 0 <= i < r.len() implies #[trigger] flags[i] == covers(r@, i, cur as int, p as int) by {
                        if non_empty(r@, i) && r@[i].start <= cur < r@[i].end {
                            assert(is_endpoint(r@, r@[i].end as int));
                        }
                    }
                }
                if ids.len() > 0 {
                    segs.push((cur..p, ids));
                    proof {
                        assert(segs@[segs.len() - 1] == (cur..p, ids));
                        assert forall|k: int| 0 <= k < segs.len() implies #[trigger] segs[k].0.end <= p by {
                            if k < old_segs.len() {
                                assert(segs[k] == old_segs[k]);
                            }
                        }
                        assert(runs_exact(r@, segs@)) by {
                            assert forall|k: int| 0 <= k < segs.len() implies {
                                let s = #[trigger] segs@[k];
                                &&& is_endpoint(r@, s.0.start as int)
                                &&& is_endpoint(r@, s.0.end as int)
                                &&& forall|x: int| s.0.start < x < s.0.end ==> !is_endpoint(r@, x)
                                &&& s.1.len() > 0
                                &&& forall|a: int, b: int| 0 <= a < b < s.1.len() ==> s.1[a] < s.1[b]
                                &&& forall|j: int| 0 <= j < s.1.len() ==> s.1[j] < r@.len()
                                &&& forall|i: int| s.1@.contains(i as usize) && 0 <= i < r@.len() <==> covers(
                                    r@,
                                    i,
                                    s.0.start as int,
                                    s.0.end as int,
                                )
                            } by {
                                if k < old_segs.len() {
                                    assert(segs@[k] == old_segs[k]);
                                } else {
                                    let s = segs@[k];
                                    assert(s.0.start == cur && s.0.end == p);
                                    assert(s.1 == ids);
                                    assert(forall|x: int| cur < x < p ==> !is_endpoint(r@, x));
                                    assert forall|i: int| s.1@.contains(i as usize) && 0 <= i < r@.len() <==> covers(
                                        r@, i, cur as int, p as int) by {
                                        if 0 <= i < r@.len() {
                                            assert(flags[i] == covers(r@, i, cur as int, p as int));
                                        }
                                    }
                                }
                            }
                        }
                    }
                } else {
                    proof {
                        assert forall|i: int| 0 <= i < r.len() implies !covers(r@, i, cur as int, p as int) by {
                            if covers(r@, i, cur as int, p as int) {
                                assert(flags[i]);
                                assert(ids@.contains(i as usize));
                            }
                        }
                    }
                }
                proof {
                    assert forall|i: int, x: int| #[trigger] covered_by(r@, i, x) && x < p implies exists|k: int| #[trigger] in_run(segs@, k, x) by {
                        if x < cur {
                            let k = choose|k: int| #[trigger] in_run(old_segs, k, x);
                            assert(segs[k] == old_segs[k]);
                            assert(in_run(segs@, k, x));
                        } else {
                            assert(is_endpoint(r@, r@[i].start as int));
                            assert(is_endpoint(r@, r@[i].end as int));
                            assert(covers(r@, i, cur as int, p as int));
                            assert(in_run(segs@, segs.len() - 1, x));
                        }
                    }
                }
                step_flags(r, &mut flags, p);
                proof {
                    assert forall|i: int| 0 <= i < r.len() implies #[trigger] flags[i] == (non_empty(r@, i) && r@[i].start <= p < r@[i].end) by {
                        if non_empty(r@, i) {
                            assert(is_endpoint(r@, r@[i].start as int));
                            assert(is_endpoint(r@, r@[i].end as int));
                        }
                    }
                }
                cur = p;
            },
        }
    }
}

} // verus!

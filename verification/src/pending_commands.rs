//! The bookkeeping of a conversation's pending slash commands.  Each
//! pending command is shown in the editor by a crease over its source
//! range and, when it failed, by an error block; the editor names both by
//! ids.  When the pending commands change, the creases and blocks of the
//! removed commands are taken out (their ids say what the editor must
//! remove), and the ids that the editor gave the new ones are recorded.
use vstd::prelude::*;
use std::ops::Range;
use vstd::hash_map::HashMapWithView;

verus! {

/// The key under which a range is kept: its start in the high 64 bits and
/// its end in the low 64 bits, so that different ranges get different keys.
pub open spec fn range_key(r: Range<usize>) -> u128 {
    (r.start as int * 0x1_0000_0000_0000_0000 + r.end as int) as u128
}

proof fn lemma_range_key_fits(r: Range<usize>)
    ensures
        r.start as int * 0x1_0000_0000_0000_0000 + r.end as int <= 0xffff_ffff_ffff_ffff_ffff_ffff_ffff_ffff,
{
    assert(r.start as int * 0x1_0000_0000_0000_0000 + r.end as int <= 0xffff_ffff_ffff_ffff_ffff_ffff_ffff_ffff)
        by (nonlinear_arith)
        requires
            r.start <= 0xffff_ffff_ffff_ffff,
            r.end <= 0xffff_ffff_ffff_ffff,
    ;
}

proof fn lemma_range_key_injective(a: Range<usize>, b: Range<usize>)
    ensures
        range_key(a) == range_key(b) ==> a == b,
{
    lemma_range_key_fits(a);
    lemma_range_key_fits(b);
    if range_key(a) == range_key(b) {
        let x = a.start as int;
        let y = b.start as int;
        assert(x == y) by (nonlinear_arith)
            requires
                x * 0x1_0000_0000_0000_0000 + a.end as int == y * 0x1_0000_0000_0000_0000
                    + b.end as int,
                0 <= a.end < 0x1_0000_0000_0000_0000,
                0 <= b.end < 0x1_0000_0000_0000_0000,
                0 <= x,
                0 <= y,
        ;
    }
}

fn key_of(r: &Range<usize>) -> (k: u128)
    ensures
        k == range_key(*r),
{
    proof {
        lemma_range_key_fits(*r);
    }
    (r.start as u128) * 0x1_0000_0000_0000_0000u128 + (r.end as u128)
}

/// Ids of editor items, each kept under the source range of a command, in
/// a hash map keyed by the ranges' keys.
pub struct RangeIds {
    ids: HashMapWithView<u128, u64>,
}

impl View for RangeIds {
    type V = Map<Range<usize>, u64>;

    closed spec fn view(&self) -> Map<Range<usize>, u64> {
        Map::new(
            |r: Range<usize>| self.ids@.contains_key(range_key(r)),
            |r: Range<usize>| self.ids@[range_key(r)],
        )
    }
}

impl RangeIds {
    /// No id kept.
    pub fn new() -> (m: RangeIds)
        ensures
            m@ == Map::<Range<usize>, u64>::empty(),
    {
        broadcast use vstd::std_specs::hash::group_hash_axioms;

        let m = RangeIds { ids: HashMapWithView::new() };
        assert(m@ =~= Map::<Range<usize>, u64>::empty());
        m
    }

    /// Takes out the id kept under `key`, if there is one.
    pub fn remove(&mut self, key: &Range<usize>) -> (id: Option<u64>)
        ensures
            final(self)@ == old(self)@.remove(*key),
            id == if old(self)@.contains_key(*key) {
                Some(old(self)@[*key])
            } else {
                None::<u64>
            },
    {
        let k = key_of(key);
        let id = self.ids.remove(&k);
        proof {
            assert forall|r: Range<usize>| r != *key implies range_key(r) != k by {
                lemma_range_key_injective(r, *key);
            }
            assert(self@ =~= old(self)@.remove(*key));
        }
        id
    }

    /// Keeps `id` under `key`, in place of what was kept there.
    pub fn insert(&mut self, key: Range<usize>, id: u64)
        ensures
            final(self)@ == old(self)@.insert(key, id),
    {
        let k = key_of(&key);
        self.ids.insert(k, id);
        proof {
            assert forall|r: Range<usize>| r != key implies range_key(r) != k by {
                lemma_range_key_injective(r, key);
            }
            assert(self@ =~= old(self)@.insert(key, id));
        }
    }
}

/// The map after taking out the ranges `removed[0..n]` in turn, and the ids
/// taken out, in order (a range holding nothing, or already taken out,
/// gives no id).
pub open spec fn take_out(m: Map<Range<usize>, u64>, removed: Seq<Range<usize>>, n: int) -> (
    Map<Range<usize>, u64>,
    Seq<u64>,
)
    decreases n,
{
    if n <= 0 {
        (m, Seq::empty())
    } else {
        let (m1, ids) = take_out(m, removed, n - 1);
        let k = removed[n - 1];
        if m1.contains_key(k) {
            (m1.remove(k), ids.push(m1[k]))
        } else {
            (m1, ids)
        }
    }
}

/// The map after keeping `ids[i]` under `ranges[i]` in turn, for each `i`
/// below `n`.
pub open spec fn put_all(
    m: Map<Range<usize>, u64>,
    ranges: Seq<Range<usize>>,
    ids: Seq<u64>,
    n: int,
) -> Map<Range<usize>, u64>
    decreases n,
{
    if n <= 0 {
        m
    } else {
        put_all(m, ranges, ids, n - 1).insert(ranges[n - 1], ids[n - 1])
    }
}

/// Taking out ranges leaves none of them kept, and keeps every other range
/// with the id it had.
pub proof fn lemma_taken_out_ranges_are_gone(
    m: Map<Range<usize>, u64>,
    removed: Seq<Range<usize>>,
    n: int,
)
    requires
        0 <= n <= removed.len(),
    ensures
        forall|j: int| 0 <= j < n ==> !(#[trigger] take_out(m, removed, n).0.contains_key(removed[j])),
        forall|k: Range<usize>|
            (forall|j: int| 0 <= j < n ==> removed[j] != k) ==> (#[trigger] take_out(
                m,
                removed,
                n,
            ).0.contains_key(k) == m.contains_key(k) && (m.contains_key(k) ==> take_out(
                m,
                removed,
                n,
            ).0[k] == m[k])),
    decreases n,
{
    if n > 0 {
        lemma_taken_out_ranges_are_gone(m, removed, n - 1);
        let m1 = take_out(m, removed, n - 1).0;
        let r = take_out(m, removed, n).0;
        assert forall|j: int| 0 <= j < n implies !(#[trigger] r.contains_key(removed[j])) by {
            if j < n - 1 {
                assert(!m1.contains_key(removed[j]));
            }
        }
        assert forall|k: Range<usize>| (forall|j: int| 0 <= j < n ==> removed[j] != k) implies (
        #[trigger] r.contains_key(k) == m.contains_key(k) && (m.contains_key(k) ==> r[k] == m[k])) by {
            let last = removed[n - 1];
            assert(last != k);
            assert forall|j: int| 0 <= j < n - 1 implies removed[j] != k by {
                assert(0 <= j < n);
            }
            assert(m1.contains_key(k) == m.contains_key(k));
            assert(m.contains_key(k) ==> m1[k] == m[k]);
            if m1.contains_key(last) {
                assert(r == m1.remove(last));
            } else {
                assert(r == m1);
            }
            assert(r.contains_key(k) == m1.contains_key(k));
            assert(m1.contains_key(k) ==> r[k] == m1[k]);
        }
    }
}

/// After recording ids under ranges that are all different, each range
/// holds the id at its position, and every other range what it held.
pub proof fn lemma_recorded_ids_are_found(
    m: Map<Range<usize>, u64>,
    ranges: Seq<Range<usize>>,
    ids: Seq<u64>,
    n: int,
)
    requires
        0 <= n <= ranges.len(),
        n <= ids.len(),
        forall|i: int, j: int| 0 <= i < j < n ==> ranges[i] != ranges[j],
    ensures
        forall|i: int|
            0 <= i < n ==> #[trigger] put_all(m, ranges, ids, n).contains_key(ranges[i]) && put_all(
                m,
                ranges,
                ids,
                n,
            )[ranges[i]] == ids[i],
        forall|k: Range<usize>|
            (forall|j: int| 0 <= j < n ==> ranges[j] != k) ==> (#[trigger] put_all(
                m,
                ranges,
                ids,
                n,
            ).contains_key(k) == m.contains_key(k) && (m.contains_key(k) ==> put_all(
                m,
                ranges,
                ids,
                n,
            )[k] == m[k])),
    decreases n,
{
    if n > 0 {
        lemma_recorded_ids_are_found(m, ranges, ids, n - 1);
        let m1 = put_all(m, ranges, ids, n - 1);
        let r = put_all(m, ranges, ids, n);
        assert(r == m1.insert(ranges[n - 1], ids[n - 1]));
        assert forall|i: int| 0 <= i < n implies #[trigger] r.contains_key(ranges[i]) && r[ranges[i]]
            == ids[i] by {
            if i < n - 1 {
                assert(ranges[i] != ranges[n - 1]);
                assert(m1.contains_key(ranges[i]));
            }
        }
        assert forall|k: Range<usize>| (forall|j: int| 0 <= j < n ==> ranges[j] != k) implies (
        #[trigger] r.contains_key(k) == m.contains_key(k) && (m.contains_key(k) ==> r[k] == m[k])) by {
            assert(ranges[n - 1] != k);
            assert forall|j: int| 0 <= j < n - 1 implies ranges[j] != k by {
                assert(0 <= j < n);
            }
        }
    }
}

/// Takes out, in order, the ids kept under the ranges of `removed`.
pub fn take_out_ranges(map: &mut RangeIds, removed: &Vec<Range<usize>>) -> (ids: Vec<u64>)
    ensures
        final(map)@ == take_out(old(map)@, removed@, removed@.len() as int).0,
        ids@ == take_out(old(map)@, removed@, removed@.len() as int).1,
{
    let mut ids: Vec<u64> = Vec::new();
    let mut i: usize = 0;
    while i < removed.len()
        invariant
            i <= removed@.len(),
            map@ == take_out(old(map)@, removed@, i as int).0,
            ids@ == take_out(old(map)@, removed@, i as int).1,
        decreases removed.len() - i,
    {
        match map.remove(&removed[i]) {
            Some(id) => ids.push(id),
            None => {},
        }
        i += 1;
    }
    ids
}

/// Keeps each id of `ids` under the range at the same position of
/// `ranges`, as far as both go.
pub fn put_ranges(map: &mut RangeIds, ranges: &Vec<Range<usize>>, ids: &Vec<u64>)
    ensures
        final(map)@ == put_all(
            old(map)@,
            ranges@,
            ids@,
            if ranges@.len() < ids@.len() {
                ranges@.len() as int
            } else {
                ids@.len() as int
            },
        ),
{
    let n = if ranges.len() < ids.len() {
        ranges.len()
    } else {
        ids.len()
    };
    let mut i: usize = 0;
    while i < n
        invariant
            i <= n,
            n <= ranges@.len(),
            n <= ids@.len(),
            map@ == put_all(old(map)@, ranges@, ids@, i as int),
        decreases n - i,
    {
        map.insert(ranges[i].start..ranges[i].end, ids[i]);
        i += 1;
    }
}

/// A pending command as the bookkeeping sees it: its source range, and
/// whether it failed.
pub struct PendingCommand {
    pub source_range: Range<usize>,
    pub failed: bool,
}

/// The creases and error blocks of the pending commands, by source range.
pub struct PendingCommands {
    pub creases: RangeIds,
    pub blocks: RangeIds,
}

/// The commands among the first `n` that failed, in order.
pub open spec fn failed_commands(updated: Seq<PendingCommand>, n: int) -> Seq<PendingCommand>
    decreases n,
{
    if n <= 0 {
        Seq::empty()
    } else if updated[n - 1].failed {
        failed_commands(updated, n - 1).push(updated[n - 1])
    } else {
        failed_commands(updated, n - 1)
    }
}

impl PendingCommands {
    /// No crease and no block.
    pub fn new() -> (p: PendingCommands)
        ensures
            p.creases@ == Map::<Range<usize>, u64>::empty(),
            p.blocks@ == Map::<Range<usize>, u64>::empty(),
    {
        PendingCommands { creases: RangeIds::new(), blocks: RangeIds::new() }
    }

    /// The commands that `removed` names are gone: the ids of their creases
    /// and of their blocks, which the editor removes.
    pub fn remove_commands(&mut self, removed: &Vec<Range<usize>>) -> (r: (Vec<u64>, Vec<u64>))
        ensures
            final(self).creases@ == take_out(old(self).creases@, removed@, removed@.len() as int).0,
            r.0@ == take_out(old(self).creases@, removed@, removed@.len() as int).1,
            final(self).blocks@ == take_out(old(self).blocks@, removed@, removed@.len() as int).0,
            r.1@ == take_out(old(self).blocks@, removed@, removed@.len() as int).1,
    {
        let creases = take_out_ranges(&mut self.creases, removed);
        let blocks = take_out_ranges(&mut self.blocks, removed);
        (creases, blocks)
    }

    /// The updated commands that get an error block: those that failed.
    pub fn failed(updated: &Vec<PendingCommand>) -> (failed: Vec<Range<usize>>)
        ensures
            failed@.len() == failed_commands(updated@, updated@.len() as int).len(),
            forall|i: int|
                0 <= i < failed@.len() ==> #[trigger] failed@[i] == failed_commands(
                    updated@,
                    updated@.len() as int,
                )[i].source_range,
    {
        let mut failed: Vec<Range<usize>> = Vec::new();
        let mut i: usize = 0;
        while i < updated.len()
            invariant
                i <= updated@.len(),
                failed@.len() == failed_commands(updated@, i as int).len(),
                forall|j: int|
                    0 <= j < failed@.len() ==> #[trigger] failed@[j] == failed_commands(
                        updated@,
                        i as int,
                    )[j].source_range,
            decreases updated.len() - i,
        {
            let command = &updated[i];
            if command.failed {
                failed.push(command.source_range.start..command.source_range.end);
            }
            i += 1;
        }
        failed
    }

    /// Records the ids that the editor gave to the creases of the updated
    /// commands and to the error blocks, each under the source range at the
    /// same position of `updated`, as far as the ids go.
    pub fn add_commands(&mut self, updated: &Vec<Range<usize>>, crease_ids: &Vec<u64>, block_ids: &Vec<u64>)
        ensures
            final(self).creases@ == put_all(
                old(self).creases@,
                updated@,
                crease_ids@,
                if updated@.len() < crease_ids@.len() {
                    updated@.len() as int
                } else {
                    crease_ids@.len() as int
                },
            ),
            final(self).blocks@ == put_all(
                old(self).blocks@,
                updated@,
                block_ids@,
                if updated@.len() < block_ids@.len() {
                    updated@.len() as int
                } else {
                    block_ids@.len() as int
                },
            ),
    {
        put_ranges(&mut self.creases, updated, crease_ids);
        put_ranges(&mut self.blocks, updated, block_ids);
    }
}

} // verus!

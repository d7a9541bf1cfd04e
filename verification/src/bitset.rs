//! A set of small `usize` values stored as a 64-bit header of occupied
//! 64-element containers plus one 64-bit word per occupied container.
use smallvec::SmallVec;
use vstd::prelude::*;

verus! {

/// Bit `i` (counting from the least significant bit) of `x` is one.
pub open spec fn bit_set(x: u64, i: int) -> bool {
    0 <= i < 64 && (x >> (i as u64)) & 1u64 == 1u64
}

/// The number of one bits of `x` among its bits `0..n`.
pub open spec fn ones_below(x: u64, n: int) -> nat
    decreases n,
{
    if n <= 0 {
        0
    } else {
        ones_below(x, n - 1) + if bit_set(x, n - 1) {
            1nat
        } else {
            0nat
        }
    }
}

/// Every element of a `BitSet` is below this bound.
pub const BITSET_CAPACITY: usize = 4096;

/// The container words of a `BitSet`, kept in a small inline vector.
#[verifier::external_body]
pub struct Words {
    inner: SmallVec<[u64; 2]>,
}

/// The words that a `Words` holds, in order.
pub uninterp spec fn words_of(w: Words) -> Seq<u64>;

/// `SmallVec::new`: an empty vector.
#[verifier::external_body]
fn words_new() -> (w: Words)
    ensures
        words_of(w) == Seq::<u64>::empty(),
{
    Words { inner: SmallVec::new() }
}

/// `SmallVec::len`: the number of words held.
#[verifier::external_body]
fn words_len(w: &Words) -> (n: usize)
    ensures
        n == words_of(*w).len(),
{
    w.inner.len()
}

/// `SmallVec` indexing: the word at position `i`.
#[verifier::external_body]
fn words_get(w: &Words, i: usize) -> (x: u64)
    requires
        i < words_of(*w).len(),
    ensures
        x == words_of(*w)[i as int],
{
    w.inner[i]
}

/// `SmallVec` index assignment: replaces the word at position `i`.
#[verifier::external_body]
fn words_set(w: &mut Words, i: usize, x: u64)
    requires
        i < words_of(*old(w)).len(),
    ensures
        words_of(*final(w)) == words_of(*old(w)).update(i as int, x),
{
    w.inner[i] = x;
}

/// `SmallVec::insert`: puts `x` at position `i`, shifting later words right.
#[verifier::external_body]
fn words_insert(w: &mut Words, i: usize, x: u64)
    requires
        i <= words_of(*old(w)).len(),
        words_of(*old(w)).len() < usize::MAX,
    ensures
        words_of(*final(w)) == words_of(*old(w)).insert(i as int, x),
{
    w.inner.insert(i, x);
}

/// The number of one bits of `x`.
fn count_ones(x: u64) -> (r: u32)
    ensures
        r as nat == ones_below(x, 64),
{
    let mut r: u32 = 0;
    let mut i: u64 = 0;
    while i < 64
        invariant
            i <= 64,
            r <= i,
            r as nat == ones_below(x, i as int),
        decreases 64 - i,
    {
        if (x >> i) & 1u64 == 1u64 {
            r = r + 1;
        }
        i = i + 1;
    }
    r
}

/// Membership of `e` in the set described by `header` and `words`.
pub open spec fn has_element(header: u64, words: Seq<u64>, e: int) -> bool {
    &&& 0 <= e < 4096
    &&& bit_set(header, e / 64)
    &&& bit_set(words[ones_below(header, e / 64) as int], e % 64)
}

proof fn lemma_mask_bit(h: u64, c: u64, i: u64)
    by (bit_vector)
    requires
        c < 64,
        i < 64,
    ensures
        ((h & (((1u64 << c) - 1u64) as u64)) >> i) & 1u64 == if i < c {
            (h >> i) & 1u64
        } else {
            0u64
        },
{
}

proof fn lemma_or_bit(h: u64, c: u64, i: u64)
    by (bit_vector)
    requires
        c < 64,
        i < 64,
    ensures
        ((h | (1u64 << c)) >> i) & 1u64 == if i == c {
            1u64
        } else {
            (h >> i) & 1u64
        },
{
}

proof fn lemma_single_bit(c: u64, i: u64)
    by (bit_vector)
    requires
        c < 64,
        i < 64,
    ensures
        ((1u64 << c) >> i) & 1u64 == if i == c {
            1u64
        } else {
            0u64
        },
{
}

proof fn lemma_test_bit(h: u64, c: u64)
    by (bit_vector)
    requires
        c < 64,
    ensures
        (h & (1u64 << c) == 0u64) == ((h >> c) & 1u64 != 1u64),
        (h >> c) & 1u64 == 1u64 ==> h | (1u64 << c) == h,
{
}

proof fn lemma_zero_bit(i: u64)
    by (bit_vector)
    requires
        i < 64,
    ensures
        (0u64 >> i) & 1u64 == 0u64,
{
}

proof fn lemma_ones_below_zero(n: int)
    requires
        n <= 64,
    ensures
        ones_below(0u64, n) == 0,
    decreases n,
{
    if n > 0 {
        lemma_ones_below_zero(n - 1);
        lemma_zero_bit((n - 1) as u64);
    }
}

proof fn lemma_ones_below_mask(h: u64, c: u64, n: int)
    requires
        c < 64,
        n <= 64,
    ensures
        ones_below(h & (((1u64 << c) - 1u64) as u64), n) == ones_below(
            h,
            if n < c {
                n
            } else {
                c as int
            },
        ),
    decreases n,
{
    if n > 0 {
        lemma_ones_below_mask(h, c, n - 1);
        lemma_mask_bit(h, c, (n - 1) as u64);
    }
}

proof fn lemma_ones_below_or(h: u64, c: u64, n: int)
    requires
        c < 64,
        n <= 64,
    ensures
        ones_below(h | (1u64 << c), n) == ones_below(h, n) + if n > c && !bit_set(h, c as int) {
            1nat
        } else {
            0nat
        },
    decreases n,
{
    if n > 0 {
        lemma_ones_below_or(h, c, n - 1);
        lemma_or_bit(h, c, (n - 1) as u64);
    }
}

proof fn lemma_ones_below_bound(h: u64, n: int)
    requires
        0 <= n,
    ensures
        ones_below(h, n) <= n,
    decreases n,
{
    if n > 0 {
        lemma_ones_below_bound(h, n - 1);
    }
}

proof fn lemma_ones_below_mono(h: u64, a: int, b: int)
    requires
        a <= b,
    ensures
        ones_below(h, a) <= ones_below(h, b),
        bit_set(h, a) && a < b ==> ones_below(h, a) < ones_below(h, b),
    decreases b - a,
{
    if a < b {
        lemma_ones_below_mono(h, a, b - 1);
        if bit_set(h, a) && a == b - 1 {
            assert(ones_below(h, b) == ones_below(h, a) + 1);
        }
    }
}

/// A set of values below `BITSET_CAPACITY`.
pub struct BitSet {
    header: u64,
    bits: Words,
}

impl View for BitSet {
    type V = Set<usize>;

    closed spec fn view(&self) -> Set<usize> {
        Set::new(|e: usize| has_element(self.header, words_of(self.bits), e as int))
    }
}

impl BitSet {
    /// One word is kept for each occupied container.
    pub closed spec fn wf(&self) -> bool {
        words_of(self.bits).len() == ones_below(self.header, 64)
    }

    /// An empty set.
    pub fn new() -> (s: Self)
        ensures
            s.wf(),
            s@ == Set::<usize>::empty(),
    {
        let s = BitSet { header: 0, bits: words_new() };
        proof {
            lemma_ones_below_zero(64);
            assert forall|e: usize| !has_element(0u64, Seq::<u64>::empty(), e as int) by {
                if 0 <= e < 4096 {
                    lemma_zero_bit((e / 64) as u64);
                }
            }
            assert(s@ =~= Set::<usize>::empty());
        }
        s
    }

    /// Adds `element` to the set.
    pub fn insert(&mut self, element: usize)
        requires
            old(self).wf(),
            element < BITSET_CAPACITY,
        ensures
            final(self).wf(),
            final(self)@ == old(self)@.insert(element),
    {
        let ghost h = self.header;
        let ghost w = words_of(self.bits);
        let container_ix = element / 64;
        let c = container_ix as u64;
        let offset = (element % 64) as u64;
        assert(1u64 << c >= 1u64) by (bit_vector)
            requires
                c < 64,
        ;
        let bits_ix = count_ones(self.header & ((1u64 << c) - 1u64)) as usize;
        proof {
            lemma_ones_below_mask(h, c, 64);
            lemma_test_bit(h, c);
            lemma_ones_below_mono(h, c as int, 64);
            lemma_ones_below_bound(h, 64);
        }
        if self.header & (1u64 << c) == 0 {
            words_insert(&mut self.bits, bits_ix, 1u64 << offset);
        } else {
            let word = words_get(&self.bits, bits_ix);
            words_set(&mut self.bits, bits_ix, word | (1u64 << offset));
        }
        self.header = self.header | (1u64 << c);
        proof {
            lemma_insert_correct(h, w, element, words_of(self.bits));
        }
        assert forall|e: usize| #[trigger] self@.contains(e) == old(self)@.insert(element).contains(e) by {
            assert(has_element(self.header, words_of(self.bits), e as int) == (has_element(h, w, e as int) || e == element));
        }
        assert(self@ =~= old(self)@.insert(element));
    }

    /// The elements of the set in increasing order.
    pub fn elements(&self) -> (r: Vec<usize>)
        requires
            self.wf(),
        ensures
            forall|i: int, j: int| 0 <= i < j < r.len() ==> r[i] < r[j],
            forall|e: usize| r@.contains(e) <==> self@.contains(e),
    {
        let ghost h = self.header;
        let ghost w = words_of(self.bits);
        let mut elements: Vec<usize> = Vec::new();
        let mut bits_ix: usize = 0;
        let mut ix: usize = 0;
        while ix < 64
            invariant
                ix <= 64,
                h == self.header,
                w == words_of(self.bits),
                w.len() == ones_below(h, 64),
                bits_ix == ones_below(h, ix as int),
                forall|i: int, j: int| 0 <= i < j < elements.len() ==> elements[i] < elements[j],
                forall|k: int|
                    0 <= k < elements.len() ==> #[trigger] elements[k] < ix * 64 && has_element(
                        h,
                        w,
                        elements[k] as int,
                    ),
                forall|e: usize|
                    e < ix * 64 && has_element(h, w, e as int) ==> elements@.contains(e),
            decreases 64 - ix,
        {
            proof {
                lemma_test_bit(h, ix as u64);
                lemma_ones_below_mono(h, ix as int, 64);
                lemma_ones_below_bound(h, 64);
            }
            if self.header & (1u64 << (ix as u64)) != 0 {
                let bits = words_get(&self.bits, bits_ix);
                let mut offset: usize = 0;
                while offset < 64
                    invariant
                        ix < 64,
                        offset <= 64,
                        bit_set(h, ix as int),
                        ones_below(h, ix as int) < w.len(),
                        w.len() == ones_below(h, 64),
                        w.len() <= 64,
                        bits_ix == ones_below(h, ix as int),
                        bits == w[ones_below(h, ix as int) as int],
                        forall|i: int, j: int|
                            0 <= i < j < elements.len() ==> elements[i] < elements[j],
                        forall|k: int|
                            0 <= k < elements.len() ==> #[trigger] elements[k] < ix * 64 + offset
                                && has_element(h, w, elements[k] as int),
                        forall|e: usize|
                            e < ix * 64 + offset && has_element(h, w, e as int)
                                ==> elements@.contains(e),
                    decreases 64 - offset,
                {
                    proof {
                        lemma_test_bit(bits, offset as u64);
                    }
                    if bits & (1u64 << (offset as u64)) != 0 {
                        let ghost before = elements@;
                        let value = ix * 64 + offset;
                        assert(value / 64 == ix && value % 64 == offset);
                        elements.push(value);
                        assert(elements@[elements.len() - 1] == value);
                        assert forall|e: usize|
                            e < ix * 64 + offset + 1 && has_element(
                                h,
                                w,
                                e as int,
                            ) implies elements@.contains(e) by {
                            if e < value {
                                let k = choose|k: int| 0 <= k < before.len() && before[k] == e;
                                assert(elements@[k] == e);
                            }
                        }
                    } else {
                        assert forall|e: usize|
                            e < ix * 64 + offset + 1 && has_element(
                                h,
                                w,
                                e as int,
                            ) implies elements@.contains(e) by {
                            if e == ix * 64 + offset {
                                assert(e / 64 == ix && e % 64 == offset);
                            }
                        }
                    }
                    offset += 1;
                }
                bits_ix += 1;
            } else {
                assert forall|e: usize|
                    e < (ix + 1) * 64 && has_element(h, w, e as int) implies elements@.contains(
                    e,
                ) by {
                    if e >= ix * 64 {
                        assert(e / 64 == ix);
                    }
                }
            }
            ix += 1;
        }
        assert forall|e: usize| elements@.contains(e) <==> self@.contains(e) by {
            if elements@.contains(e) {
                let k = choose|k: int| 0 <= k < elements.len() && elements[k] == e;
                assert(has_element(h, w, elements[k] as int));
            }
        }
        elements
    }
}

/// Inserting `element` into the set described by `h` and `w` gives the
/// set described by the new header and `w2`.
proof fn lemma_insert_correct(h: u64, w: Seq<u64>, element: usize, w2: Seq<u64>)
    requires
        w.len() == ones_below(h, 64),
        element < 4096,
        ({
            let c = (element / 64) as u64;
            let o = (element % 64) as u64;
            let r = ones_below(h, c as int) as int;
            if bit_set(h, c as int) {
                w2 == w.update(r, w[r] | (1u64 << o))
            } else {
                w2 == w.insert(r, 1u64 << o)
            }
        }),
    ensures
        w2.len() == ones_below(h | (1u64 << ((element / 64) as u64)), 64),
        forall|e: usize|
            has_element(h | (1u64 << ((element / 64) as u64)), w2, e as int) == (has_element(
                h,
                w,
                e as int,
            ) || e == element),
{
    let c = (element / 64) as u64;
    let o = (element % 64) as u64;
    let r = ones_below(h, c as int) as int;
    let h2 = h | (1u64 << c);
    lemma_test_bit(h, c);
    lemma_ones_below_or(h, c, 64);
    lemma_ones_below_mono(h, c as int, 64);
    assert forall|e: usize| has_element(h2, w2, e as int) == (has_element(h, w, e as int) || e
        == element) by {
        if e < 4096 {
            let ce = (e / 64) as u64;
            let oe = (e % 64) as u64;
            lemma_or_bit(h, c, ce);
            lemma_ones_below_or(h, c, ce as int);
            lemma_ones_below_mono(h, ce as int, 64);
            if ce < c {
                lemma_ones_below_mono(h, ce as int, c as int);
            } else {
                lemma_ones_below_mono(h, c as int, ce as int);
            }
            if ce == c {
                lemma_or_bit(w[r], o, oe);
                lemma_single_bit(o, oe);
                if e % 64 == element % 64 {
                    assert(e == element);
                }
            } else {
                if bit_set(h, ce as int) {
                    let re = ones_below(h, ce as int) as int;
                    if ce < c {
                        assert(w2[re] == w[re]);
                    } else if bit_set(h, c as int) {
                        assert(w2[re] == w[re]);
                    } else {
                        assert(w2[re + 1] == w[re]);
                    }
                }
            }
        }
    }
}

} // verus!

//! The thread-name padder: a process-wide widest-thread-name tracker, so that
//! thread names can be right-aligned to one column width across records.
//!
//! The tracker is a plain value here; an embedding program that renders from
//! several threads keeps the one shared instance behind whatever
//! synchronization it uses and calls [`WidestNameTracker::observe`] under it.
//! The law proved below is what such sharing relies on: the value the tracker
//! ends at depends only on which lengths were observed, never on the order
//! the threads got to it in. The event formatter in this crate writes thread
//! names unpadded; right-alignment is offered by [`right_align`] as optional
//! polish.

use vstd::prelude::*;
use vstd::seq_lib::group_to_multiset_ensures;

verus! {

/// The tracker value after observing a sequence of name lengths, in order:
/// zero at process start, raised to each length that exceeds it.
pub open spec fn spec_widest_after(lens: Seq<usize>) -> int
    decreases lens.len(),
{
    if lens.len() == 0 {
        0
    } else {
        let prev = spec_widest_after(lens.drop_last());
        if lens.last() > prev {
            lens.last() as int
        } else {
            prev
        }
    }
}

/// The widest-thread-name counter: monotonically non-decreasing, never
/// reset.
pub struct WidestNameTracker {
    pub widest: usize,
}

impl WidestNameTracker {
    pub fn new() -> (r: WidestNameTracker)
        ensures
            r.widest == 0,
    {
        WidestNameTracker { widest: 0 }
    }

    /// Raises the counter to the given length if it exceeds the maximum seen
    /// so far: one observation step of [`spec_widest_after`].
    pub fn observe(&mut self, len: usize)
        ensures
            final(self).widest == if len > old(self).widest {
                len
            } else {
                old(self).widest
            },
            final(self).widest >= old(self).widest,
            final(self).widest >= len,
    {
        if len > self.widest {
            self.widest = len;
        }
    }

    /// The widest length observed so far.
    pub fn current(&self) -> (r: usize)
        ensures
            r == self.widest,
    {
        self.widest
    }
}

/// The counter after any observation sequence is an upper bound of every
/// observed length, and is itself zero or one of the observed lengths — that
/// is, it is the maximum length observed.
pub proof fn lemma_widest_is_max(lens: Seq<usize>)
    ensures
        forall|i: int| 0 <= i < lens.len() ==> lens[i] <= spec_widest_after(lens),
        spec_widest_after(lens) == 0 || exists|i: int|
            0 <= i < lens.len() && lens[i] == spec_widest_after(lens),
    decreases lens.len(),
{
    if lens.len() > 0 {
        lemma_widest_is_max(lens.drop_last());
        let prev = spec_widest_after(lens.drop_last());
        assert(forall|i: int| 0 <= i < lens.len() - 1 ==> lens[i] == lens.drop_last()[i]);
        if spec_widest_after(lens) != 0 {
            if lens.last() > prev {
                assert(lens[lens.len() - 1] == spec_widest_after(lens));
            } else {
                let j = choose|j: int|
                    0 <= j < lens.drop_last().len() && lens.drop_last()[j] == prev;
                assert(lens[j] == spec_widest_after(lens));
            }
        }
    }
}

/// Observing the same multiset of name lengths leaves the counter at the
/// same value, whatever order the observations arrived in — so concurrent
/// renders racing to raise the shared counter end at the true maximum under
/// any interleaving.
pub proof fn lemma_widest_order_irrelevant(a: Seq<usize>, b: Seq<usize>)
    requires
        a.to_multiset() == b.to_multiset(),
    ensures
        spec_widest_after(a) == spec_widest_after(b),
{
    broadcast use group_to_multiset_ensures;

    lemma_widest_is_max(a);
    lemma_widest_is_max(b);
    let wa = spec_widest_after(a);
    let wb = spec_widest_after(b);
    if wa != 0 {
        let i = choose|i: int| 0 <= i < a.len() && a[i] == wa;
        assert(a.contains(a[i]));
        assert(b.to_multiset().count(a[i]) > 0);
        assert(b.contains(a[i]));
        let j = choose|j: int| 0 <= j < b.len() && b[j] == a[i];
        assert(b[j] <= wb);
    }
    if wb != 0 {
        let i = choose|i: int| 0 <= i < b.len() && b[i] == wb;
        assert(b.contains(b[i]));
        assert(a.to_multiset().count(b[i]) > 0);
        assert(a.contains(b[i]));
        let j = choose|j: int| 0 <= j < a.len() && a[j] == b[i];
        assert(a[j] <= wa);
    }
}

/// `width - len` spaces, for right-alignment.
pub open spec fn spec_spaces(n: int) -> Seq<char>
    decreases n,
{
    if n <= 0 {
        Seq::<char>::empty()
    } else {
        spec_spaces(n - 1) + " "@
    }
}

/// A name right-aligned within a field of the given width: space-padded on
/// the left when shorter, unchanged when already as wide.
pub open spec fn spec_right_aligned(name: Seq<char>, width: int) -> Seq<char> {
    if name.len() >= width {
        name
    } else {
        spec_spaces(width - name.len()) + name
    }
}

/// Right-aligns a thread name to the given column width.
pub fn right_align(name: &str, width: usize) -> (r: String)
    ensures
        r@ == spec_right_aligned(name@, width as int),
{
    let n = name.unicode_len();
    if n >= width {
        let r = name.to_owned();
        proof {
            assert(r@ == spec_right_aligned(name@, width as int));
        }
        r
    } else {
        let mut pad = String::new();
        let mut k: usize = 0;
        while k < width - n
            invariant
                n < width,
                n == name@.len(),
                k <= width - n,
                pad@ == spec_spaces(k as int),
            decreases width - n - k,
        {
            pad.append(" ");
            k = k + 1;
        }
        pad.append(name);
        proof {
            assert(pad@ == spec_spaces(width - n) + name@);
        }
        pad
    }
}

} // verus!

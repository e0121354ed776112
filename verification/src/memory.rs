//! Utility functions assisting with memory manipulation: filling and
//! clearing a range of words, and the byte comparison that every
//! freestanding image has to bring along.
//!
//! A memory region is a slice, and a range of it is a pair of indices.

use core::ops::Range;
use vstd::prelude::*;

verus! {

/// Size of a machine word in bytes.
pub const WORD: u32 = 4;

/// A range of memory by address: `start` inclusive, `end` exclusive.
#[derive(Clone, Copy, Debug, PartialEq, Eq, Structural)]
pub struct MemoryRange {
    pub start: u32,
    pub end: u32,
}

impl MemoryRange {
    /// The number of words that a word-by-word walk from `start` touches
    /// before it reaches `end`: none if the range is empty or inverted.
    pub open spec fn words(self) -> int {
        if self.start < self.end {
            (self.end - self.start + WORD - 1) / (WORD as int)
        } else {
            0
        }
    }

    /// The number of words in the range.
    pub fn word_count(&self) -> (count: u32)
        ensures
            count == self.words(),
        no_unwind
    {
        if self.start < self.end {
            (self.end - self.start - 1) / WORD + 1
        } else {
            0
        }
    }
}

/// The region `mem` after every unit with index in `[start, end)` has been
/// replaced by `val`. A range with `end <= start` is empty.
pub open spec fn filled<T>(mem: Seq<T>, start: int, end: int, val: T) -> Seq<T> {
    Seq::new(mem.len(), |i: int| if start <= i < end { val } else { mem[i] })
}

/// What comparing `a` and `b` byte by byte from index `i` on gives: the
/// difference of the first pair that is unequal, or 0 if there is none
/// before either block ends.
pub open spec fn compare_from(a: Seq<u8>, b: Seq<u8>, i: int) -> int
    decreases a.len() - i,
{
    if i < 0 || i >= a.len() || i >= b.len() {
        0
    } else if a[i] != b[i] {
        a[i] - b[i]
    } else {
        compare_from(a, b, i + 1)
    }
}

/// What comparing the blocks `a` and `b` gives.
pub open spec fn compare(a: Seq<u8>, b: Seq<u8>) -> int {
    compare_from(a, b, 0)
}

/// Whether `k` is the first index at which `a` and `b` differ.
pub open spec fn first_difference(a: Seq<u8>, b: Seq<u8>, k: int) -> bool {
    &&& 0 <= k < a.len()
    &&& k < b.len()
    &&& a[k] != b[k]
    &&& forall|j: int| 0 <= j < k ==> a[j] == b[j]
}

/// The first `n` bytes of `s`.
pub open spec fn prefix(s: Seq<u8>, n: usize) -> Seq<u8> {
    s.take(n as int)
}

/// What is left to compare once the bytes below `i` have been found equal.
pub open spec fn compare_rest(a: Seq<u8>, b: Seq<u8>, i: usize) -> int {
    compare_from(a, b, i as int)
}

/// The signed difference of two bytes.
pub(crate) fn difference(x: u8, y: u8) -> (diff: i32)
    ensures
        diff == x - y,
    no_unwind
{
    x as i32 - y as i32
}

/// Fills the block of memory denoted by the given `range` with `val`.
pub fn memset(mem: &mut [u32], range: Range<usize>, val: u32)
    requires
        range.start < range.end ==> range.end <= old(mem)@.len(),
    ensures
        final(mem)@ == filled(old(mem)@, range.start as int, range.end as int, val),
    no_unwind
{
    let mut ptr: usize = range.start;
    while ptr < range.end
        invariant
            range.start <= ptr,
            range.start < range.end ==> ptr <= range.end <= mem@.len(),
            range.start >= range.end ==> ptr == range.start,
            mem@ == filled(old(mem)@, range.start as int, ptr as int, val),
        decreases range.end - ptr,
    {
        mem[ptr] = val;
        ptr = ptr + 1;
    }
    assert(mem@ =~= filled(old(mem)@, range.start as int, range.end as int, val));
}

/// Clears the block of memory denoted by the given `range` by filling it
/// with zeroes.
pub fn clear_mem(mem: &mut [u32], range: Range<usize>)
    requires
        range.start < range.end ==> range.end <= old(mem)@.len(),
    ensures
        final(mem)@ == filled(old(mem)@, range.start as int, range.end as int, 0u32),
    no_unwind
{
    memset(mem, range, 0);
}

/// Compares the first `n` bytes of `a` and `b`.
///
/// Returns 0 if they are equal, and otherwise the difference between the
/// first two bytes that differ, the byte of `a` minus the byte of `b`.
pub fn memcmp(a: &[u8], b: &[u8], n: usize) -> (diff: i32)
    requires
        n <= a@.len(),
        n <= b@.len(),
    ensures
        diff == compare(prefix(a@, n), prefix(b@, n)),
        diff == 0 <==> prefix(a@, n) == prefix(b@, n),
        forall|k: int|
            k < n && first_difference(a@, b@, k) ==> diff == a@[k] - b@[k],
    no_unwind
{
    let ghost head = prefix(a@, n);
    let ghost other = prefix(b@, n);
    let mut idx: usize = 0;
    while idx < n
        invariant
            idx <= n,
            n <= a@.len(),
            n <= b@.len(),
            head == prefix(a@, n),
            other == prefix(b@, n),
            forall|i: int| 0 <= i < idx ==> a@[i] == b@[i],
            compare(head, other) == compare_rest(head, other, idx),
        decreases n - idx,
    {
        let x: u8 = a[idx];
        let y: u8 = b[idx];
        if x != y {
            return difference(x, y);
        }
        idx = idx + 1;
    }
    assert(head =~= other);
    0
}

/// Filling is exact at both ends. Inside the range every unit holds the
/// value, outside every unit is what it was, the length does not change, and
/// an empty range changes nothing.
pub proof fn lemma_fill_is_exact<T>(mem: Seq<T>, start: int, end: int, val: T)
    ensures
        filled(mem, start, end, val).len() == mem.len(),
        forall|i: int|
            0 <= i < mem.len() && start <= i < end ==> #[trigger] filled(mem, start, end, val)[i]
                == val,
        forall|i: int|
            0 <= i < mem.len() && !(start <= i < end) ==> #[trigger] filled(
                mem,
                start,
                end,
                val,
            )[i] == mem[i],
        end <= start ==> filled(mem, start, end, val) == mem,
{
    if end <= start {
        assert(filled(mem, start, end, val) =~= mem);
    }
}

/// From any index on, a block compares equal to itself.
proof fn lemma_compare_from_reflexive(a: Seq<u8>, i: int)
    ensures
        compare_from(a, a, i) == 0,
    decreases a.len() - i,
{
    if 0 <= i < a.len() {
        lemma_compare_from_reflexive(a, i + 1);
    }
}

/// From any index on, swapping the operands negates the result.
proof fn lemma_compare_from_antisymmetric(a: Seq<u8>, b: Seq<u8>, i: int)
    requires
        a.len() == b.len(),
    ensures
        compare_from(b, a, i) == -compare_from(a, b, i),
    decreases a.len() - i,
{
    if 0 <= i < a.len() {
        lemma_compare_from_antisymmetric(a, b, i + 1);
    }
}

/// From index `i` on: if no pair differs the result is 0, and at the first
/// pair that differs it is their difference.
proof fn lemma_compare_from_first_difference(a: Seq<u8>, b: Seq<u8>, i: int, k: int)
    requires
        a.len() == b.len(),
        0 <= i <= k <= a.len(),
        forall|j: int| i <= j < k ==> a[j] == b[j],
    ensures
        compare_from(a, b, i) == compare_from(a, b, k),
        k < a.len() && a[k] != b[k] ==> compare_from(a, b, i) == a[k] - b[k],
        k == a.len() ==> compare_from(a, b, i) == 0,
    decreases k - i,
{
    if i < k {
        lemma_compare_from_first_difference(a, b, i + 1, k);
    }
}

/// Comparing a block with itself gives 0.
pub proof fn lemma_compare_reflexive(a: Seq<u8>)
    ensures
        compare(a, a) == 0,
{
    lemma_compare_from_reflexive(a, 0);
}

/// Comparing is anti-symmetric: with the operands swapped the result has the
/// same magnitude and the opposite sign.
pub proof fn lemma_compare_antisymmetric(a: Seq<u8>, b: Seq<u8>)
    requires
        a.len() == b.len(),
    ensures
        compare(b, a) == -compare(a, b),
{
    lemma_compare_from_antisymmetric(a, b, 0);
}

/// Where two blocks of one length differ in a single pair of bytes, the
/// result is the difference of that pair: not 0, and of opposite sign when
/// the operands are swapped.
pub proof fn lemma_compare_single_difference(a: Seq<u8>, b: Seq<u8>, k: int)
    requires
        a.len() == b.len(),
        0 <= k < a.len(),
        a[k] != b[k],
        forall|j: int| 0 <= j < a.len() && j != k ==> a[j] == b[j],
    ensures
        compare(a, b) == a[k] - b[k],
        compare(b, a) == b[k] - a[k],
        compare(a, b) != 0,
{
    lemma_compare_from_first_difference(a, b, 0, k);
    lemma_compare_from_first_difference(b, a, 0, k);
}

/// The result is 0 exactly if the blocks are equal. Otherwise it is the
/// signed difference of the first pair of bytes that differ.
pub proof fn lemma_compare_first_difference(a: Seq<u8>, b: Seq<u8>)
    requires
        a.len() == b.len(),
    ensures
        compare(a, b) == 0 <==> a == b,
        -255 <= compare(a, b) <= 255,
        forall|k: int| first_difference(a, b, k) ==> compare(a, b) == a[k] - b[k],
{
    assert forall|k: int| first_difference(a, b, k) implies compare(a, b) == a[k] - b[k] by {
        lemma_compare_from_first_difference(a, b, 0, k);
    }
    lemma_compare_bounded(a, b, 0);
    if a == b {
        lemma_compare_from_reflexive(a, 0);
    }
    if compare(a, b) == 0 {
        lemma_compare_zero_agrees(a, b, 0);
        assert(a =~= b);
    }
}

/// The result is the difference of two bytes.
proof fn lemma_compare_bounded(a: Seq<u8>, b: Seq<u8>, i: int)
    ensures
        -255 <= compare_from(a, b, i) <= 255,
    decreases a.len() - i,
{
    if 0 <= i < a.len() && i < b.len() {
        lemma_compare_bounded(a, b, i + 1);
    }
}

/// If the result from index `i` on is 0, the blocks agree from `i` on.
proof fn lemma_compare_zero_agrees(a: Seq<u8>, b: Seq<u8>, i: int)
    requires
        a.len() == b.len(),
        0 <= i,
        compare_from(a, b, i) == 0,
    ensures
        forall|j: int| i <= j < a.len() ==> a[j] == b[j],
    decreases a.len() - i,
{
    if i < a.len() {
        lemma_compare_zero_agrees(a, b, i + 1);
    }
}

} // verus!

//! Memory utility functions like `memset`, `memcpy`, etc., on bytes.
//!
//! The address space is one slice, and a pointer into it is an index. Two
//! blocks of the same slice may overlap, which is what tells `memcpy` and
//! `memmove` apart.

use crate::memory::{compare, compare_rest, difference, filled, first_difference};
use vstd::prelude::*;

verus! {

/// The `n` bytes of `mem` that start at `at`.
pub open spec fn block(mem: Seq<u8>, at: usize, n: usize) -> Seq<u8> {
    Seq::new(n as nat, |i: int| mem[at + i])
}

/// Whether the `n` bytes at `at` lie inside a memory of `len` bytes. A block
/// of no bytes lies anywhere.
pub open spec fn in_bounds(len: nat, at: usize, n: usize) -> bool {
    n > 0 ==> at + n <= len
}

/// The memory after the `n` bytes at `src`, as they were, have been placed at
/// `dst`: the destination block holds what the source block held, and every
/// byte outside the destination block is untouched.
pub open spec fn moved(mem: Seq<u8>, dst: int, src: int, n: int) -> Seq<u8> {
    Seq::new(mem.len(), |i: int| if dst <= i < dst + n { mem[i - dst + src] } else { mem[i] })
}

/// The memory after the first `k` bytes at `src` have been copied to `dst`
/// one by one in ascending order, each read seeing the writes before it.
pub open spec fn copied_forward(mem: Seq<u8>, dst: int, src: int, k: nat) -> Seq<u8>
    decreases k,
{
    if k == 0 {
        mem
    } else {
        let before = copied_forward(mem, dst, src, (k - 1) as nat);
        before.update(dst + k - 1, before[src + k - 1])
    }
}

/// Whether an ascending copy from `src` to `dst` reads every source byte
/// before it overwrites it: the destination does not start inside the
/// source block, after its first byte.
pub open spec fn forward_safe(dst: int, src: int, n: int) -> bool {
    !(src < dst < src + n)
}

/// A slice is never longer than an index can reach.
proof fn lemma_len_fits(mem: &[u8])
    ensures
        mem@.len() <= usize::MAX,
{
    broadcast use vstd::slice::axiom_spec_len;

    assert(mem@.len() == vstd::slice::spec_slice_len(mem));
}

/// Sets the `n` bytes at `ptr` to `val`, and returns `ptr`.
pub fn memset(mem: &mut [u8], ptr: usize, val: u8, n: usize) -> (ret: usize)
    requires
        in_bounds(old(mem)@.len(), ptr, n),
    ensures
        final(mem)@ == filled(old(mem)@, ptr as int, ptr + n, val),
        ret == ptr,
    no_unwind
{
    proof {
        lemma_len_fits(mem);
    }
    let mut offset: usize = 0;
    while offset < n
        invariant
            offset <= n,
            in_bounds(old(mem)@.len(), ptr, n),
            mem@.len() == old(mem)@.len() <= usize::MAX,
            mem@ == filled(old(mem)@, ptr as int, ptr + offset, val),
        decreases n - offset,
    {
        mem[ptr + offset] = val;
        offset += 1;
    }
    ptr
}

/// Compares the `n` bytes at `ptr1` with the `n` bytes at `ptr2`.
///
/// Returns 0 if they are equal, and otherwise the difference between the
/// first two bytes that differ, the byte at `ptr1` minus the byte at `ptr2`.
pub fn memcmp(mem: &[u8], ptr1: usize, ptr2: usize, n: usize) -> (diff: i32)
    requires
        in_bounds(mem@.len(), ptr1, n),
        in_bounds(mem@.len(), ptr2, n),
    ensures
        diff == compare(block(mem@, ptr1, n), block(mem@, ptr2, n)),
        diff == 0 <==> block(mem@, ptr1, n) == block(mem@, ptr2, n),
        forall|k: int|
            first_difference(block(mem@, ptr1, n), block(mem@, ptr2, n), k) ==> diff == mem@[ptr1
                + k] - mem@[ptr2 + k],
    no_unwind
{
    proof {
        lemma_len_fits(mem);
    }
    let ghost first = block(mem@, ptr1, n);
    let ghost second = block(mem@, ptr2, n);
    let mut offset: usize = 0;
    while offset < n
        invariant
            offset <= n,
            mem@.len() <= usize::MAX,
            in_bounds(mem@.len(), ptr1, n),
            in_bounds(mem@.len(), ptr2, n),
            first == block(mem@, ptr1, n),
            second == block(mem@, ptr2, n),
            forall|i: int| 0 <= i < offset ==> first[i] == second[i],
            compare(first, second) == compare_rest(first, second, offset),
        decreases n - offset,
    {
        let a: u8 = mem[ptr1 + offset];
        let b: u8 = mem[ptr2 + offset];
        if a != b {
            return difference(a, b);
        }
        offset += 1;
    }
    assert(first =~= second);
    0
}

/// Copies the `n` bytes at `src` to `dst` in ascending order, and returns
/// `dst`.
///
/// The blocks are expected not to overlap. Where the destination does not
/// start inside the source block the result is that of [`memmove`]; in any
/// case it is that of an ascending byte-by-byte copy.
pub fn memcpy(mem: &mut [u8], dst: usize, src: usize, n: usize) -> (ret: usize)
    requires
        in_bounds(old(mem)@.len(), dst, n),
        in_bounds(old(mem)@.len(), src, n),
    ensures
        final(mem)@ == copied_forward(old(mem)@, dst as int, src as int, n as nat),
        forward_safe(dst as int, src as int, n as int) ==> final(mem)@ == moved(
            old(mem)@,
            dst as int,
            src as int,
            n as int,
        ),
        ret == dst,
    no_unwind
{
    proof {
        lemma_len_fits(mem);
    }
    let mut offset: usize = 0;
    while offset < n
        invariant
            offset <= n,
            in_bounds(old(mem)@.len(), dst, n),
            in_bounds(old(mem)@.len(), src, n),
            mem@.len() == old(mem)@.len() <= usize::MAX,
            mem@ == copied_forward(old(mem)@, dst as int, src as int, offset as nat),
        decreases n - offset,
    {
        let val: u8 = mem[src + offset];
        mem[dst + offset] = val;
        offset += 1;
    }
    proof {
        if forward_safe(dst as int, src as int, n as int) && n > 0 {
            lemma_forward_copy_moves(old(mem)@, dst as int, src as int, n as int, n as nat);
        } else if n == 0 {
            assert(mem@ =~= moved(old(mem)@, dst as int, src as int, 0));
        }
    }
    dst
}

/// Moves the `n` bytes at `src` to `dst`, and returns `dst`. The blocks may
/// overlap: the destination ends up holding what the source held before.
pub fn memmove(mem: &mut [u8], dst: usize, src: usize, n: usize) -> (ret: usize)
    requires
        in_bounds(old(mem)@.len(), dst, n),
        in_bounds(old(mem)@.len(), src, n),
    ensures
        final(mem)@ == moved(old(mem)@, dst as int, src as int, n as int),
        ret == dst,
    no_unwind
{
    proof {
        lemma_len_fits(mem);
    }
    if src < dst {
        let mut offset: usize = n;
        while offset != 0
            invariant
                offset <= n,
                src < dst,
                in_bounds(old(mem)@.len(), dst, n),
                in_bounds(old(mem)@.len(), src, n),
                mem@.len() == old(mem)@.len() <= usize::MAX,
                forall|i: int|
                    0 <= i < mem@.len() ==> mem@[i] == if dst + offset <= i < dst + n {
                        old(mem)@[i - dst + src]
                    } else {
                        old(mem)@[i]
                    },
            decreases offset,
        {
            offset -= 1;
            let val: u8 = mem[src + offset];
            mem[dst + offset] = val;
        }
    } else {
        let mut offset: usize = 0;
        while offset < n
            invariant
                offset <= n,
                dst <= src,
                in_bounds(old(mem)@.len(), dst, n),
                in_bounds(old(mem)@.len(), src, n),
                mem@.len() == old(mem)@.len() <= usize::MAX,
                forall|i: int|
                    0 <= i < mem@.len() ==> mem@[i] == if dst <= i < dst + offset {
                        old(mem)@[i - dst + src]
                    } else {
                        old(mem)@[i]
                    },
            decreases n - offset,
        {
            let val: u8 = mem[src + offset];
            mem[dst + offset] = val;
            offset += 1;
        }
    }
    assert(mem@ =~= moved(old(mem)@, dst as int, src as int, n as int));
    dst
}

/// An ascending copy whose destination does not start inside the source
/// block gives, after any number `k` of bytes, what moving `k` bytes gives.
pub proof fn lemma_forward_copy_moves(mem: Seq<u8>, dst: int, src: int, n: int, k: nat)
    requires
        0 <= dst,
        0 <= src,
        k <= n,
        dst + n <= mem.len(),
        src + n <= mem.len(),
        forward_safe(dst, src, n),
    ensures
        copied_forward(mem, dst, src, k) == moved(mem, dst, src, k as int),
    decreases k,
{
    if k == 0 {
        assert(moved(mem, dst, src, 0) =~= mem);
    } else {
        lemma_forward_copy_moves(mem, dst, src, n, (k - 1) as nat);
        assert(copied_forward(mem, dst, src, k) =~= moved(mem, dst, src, k as int));
    }
}

/// Moving places the source block, as it was, at the destination, whether
/// or not the two overlap, and leaves every byte outside the destination
/// block as it was. The source block itself is not preserved where the
/// destination covers it.
pub proof fn lemma_move_places_source(mem: Seq<u8>, dst: int, src: int, n: int)
    requires
        0 <= dst,
        0 <= src,
        0 <= n,
        dst + n <= mem.len(),
        src + n <= mem.len(),
    ensures
        moved(mem, dst, src, n).len() == mem.len(),
        moved(mem, dst, src, n).subrange(dst, dst + n) == mem.subrange(src, src + n),
        moved(mem, dst, src, n).subrange(0, dst) == mem.subrange(0, dst),
        moved(mem, dst, src, n).subrange(dst + n, mem.len() as int) == mem.subrange(
            dst + n,
            mem.len() as int,
        ),
{
    assert(moved(mem, dst, src, n).subrange(dst, dst + n) =~= mem.subrange(src, src + n));
    assert(moved(mem, dst, src, n).subrange(0, dst) =~= mem.subrange(0, dst));
    assert(moved(mem, dst, src, n).subrange(dst + n, mem.len() as int) =~= mem.subrange(
        dst + n,
        mem.len() as int,
    ));
}

/// Moving and copying agree wherever copying is defined: for blocks that do
/// not overlap, and more generally whenever the destination does not start
/// inside the source block, both leave the same memory behind.
pub proof fn lemma_move_is_copy(mem: Seq<u8>, dst: int, src: int, n: int)
    requires
        0 <= dst,
        0 <= src,
        0 <= n,
        dst + n <= mem.len(),
        src + n <= mem.len(),
        dst + n <= src || src + n <= dst || forward_safe(dst, src, n),
    ensures
        moved(mem, dst, src, n) == copied_forward(mem, dst, src, n as nat),
{
    lemma_forward_copy_moves(mem, dst, src, n, n as nat);
}

} // verus!

//! Runtime support for the early boot context: what has to happen around
//! the bootloader's `main`.

use crate::memory::{clear_mem, WORD};
use vstd::prelude::*;

verus! {

/// The addresses of the entries of a table of function pointers that
/// occupies `[start, end)`: one per whole word, in ascending order.
pub open spec fn entries(start: u32, end: u32) -> Seq<u32> {
    Seq::new(((end - start) / (WORD as int)) as nat, |i: int| (start + WORD * i) as u32)
}

/// The slots of the function table in `[start, end)`, in the order in which
/// they are to be called.
fn table_entries(start: u32, end: u32) -> (slots: Vec<u32>)
    requires
        start <= end,
    ensures
        slots@ == entries(start, end),
{
    let length: u32 = (end - start) / WORD;
    let mut slots: Vec<u32> = Vec::new();
    let mut i: u32 = 0;
    while i < length
        invariant
            start <= end,
            i <= length,
            length == (end - start) / (WORD as int),
            slots@.len() == i,
            forall|k: int| 0 <= k < i ==> slots@[k] == start + WORD * k,
        decreases length - i,
    {
        slots.push(start + WORD * i);
        i = i + 1;
    }
    assert(slots@ =~= entries(start, end));
    slots
}

/// The functions of the `.init_array` segment in `[start, end)`, which are
/// called before `main`: the address of each slot, in calling order.
pub fn call_init_array(start: u32, end: u32) -> (slots: Vec<u32>)
    requires
        start <= end,
    ensures
        slots@ == entries(start, end),
{
    table_entries(start, end)
}

/// The functions of the `.fini_array` segment in `[start, end)`, which are
/// called after `main` has returned: the address of each slot, in calling
/// order.
pub fn call_fini_array(start: u32, end: u32) -> (slots: Vec<u32>)
    requires
        start <= end,
    ensures
        slots@ == entries(start, end),
{
    table_entries(start, end)
}

/// Clears the `.bss` segment by overwriting it with zeroes.
pub fn clear_bss(bss: &mut [u32])
    ensures
        final(bss)@ == Seq::new(old(bss)@.len(), |i: int| 0u32),
{
    let len: usize = bss.len();
    clear_mem(bss, 0..len);
    assert(bss@ =~= Seq::new(old(bss)@.len(), |i: int| 0u32));
}

} // verus!

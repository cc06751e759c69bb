//! Sequences kept in a ring of slots.

use vstd::prelude::*;

verus! {

/// Position `i` on a ring of `n` slots, for `i` below `2 * n`.
pub open spec fn wrap(i: int, n: int) -> int {
    if i < n {
        i
    } else {
        i - n
    }
}

/// The `count` slots from `head` on, in order.
pub open spec fn ring<T>(slots: Seq<T>, head: int, count: int) -> Seq<T> {
    Seq::new(count as nat, |i: int| slots[wrap(head + i, slots.len() as int)])
}

/// Filling the slot behind the last one appends to the sequence.
pub proof fn ring_push<T>(slots: Seq<T>, head: int, count: int, x: T)
    requires
        0 <= head < slots.len(),
        0 <= count < slots.len(),
    ensures
        ring(slots.update(wrap(head + count, slots.len() as int), x), head, count + 1) == ring(
            slots,
            head,
            count,
        ).push(x),
{
}

/// Moving the head one slot on drops the first element, whatever is left in its slot.
pub proof fn ring_pop<T>(slots: Seq<T>, head: int, count: int, y: T)
    requires
        0 <= head < slots.len(),
        0 < count <= slots.len(),
    ensures
        ring(slots, head, count)[0] == slots[head],
        ring(slots.update(head, y), wrap(head + 1, slots.len() as int), count - 1) == ring(
            slots,
            head,
            count,
        ).drop_first(),
        ring(slots, wrap(head + 1, slots.len() as int), count - 1) == ring(
            slots,
            head,
            count,
        ).drop_first(),
{
}

} // verus!

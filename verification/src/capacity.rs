//! The slot count of a union vector, a model of a buffer of union slots: its
//! value when made, how it grows on a push (at least doubling, with a smallest
//! first count by slot size, as `Vec` grows in practice), and how many elements
//! of another type the bytes of that many slots hold.

use vstd::prelude::*;

verus! {

/// Slot count of a buffer of slots of `slot_size` bytes made for `requested`
/// slots: slots without size never need memory, so their count is unbounded.
pub open spec fn initial_capacity(requested: nat, slot_size: nat) -> nat {
    if slot_size == 0 { usize::MAX as nat } else { requested }
}

/// Whether `cap` slots of `slot_size` bytes fit in one allocation.
pub open spec fn fits_allocation(cap: nat, slot_size: nat) -> bool {
    cap * slot_size <= isize::MAX
}

/// Smallest slot count after the first growth, by slot size.
pub open spec fn min_non_zero_cap(slot_size: nat) -> nat {
    if slot_size == 1 {
        8
    } else if slot_size <= 1024 {
        4
    } else {
        1
    }
}

/// Slot count after a full vector of `len` elements makes room for one more:
/// at least double, at least one more than the length, at least the minimum.
pub open spec fn grown_capacity(cap: nat, len: nat, slot_size: nat) -> nat {
    let doubled = if cap * 2 >= len + 1 { cap * 2 } else { len + 1 };
    if doubled >= min_non_zero_cap(slot_size) { doubled } else { min_non_zero_cap(slot_size) }
}

/// Slot count after one element is pushed onto `len` elements in `cap` slots.
pub open spec fn capacity_after_push(cap: nat, len: nat, slot_size: nat) -> nat {
    if len < cap { cap } else { grown_capacity(cap, len, slot_size) }
}

/// Whether one more element can be pushed without exceeding what an allocation may hold.
pub open spec fn can_push(cap: nat, len: nat, slot_size: nat) -> bool {
    if slot_size == 0 {
        len < cap
    } else {
        fits_allocation(capacity_after_push(cap, len, slot_size), slot_size)
    }
}

/// Number of elements of `elem_size` bytes that fit in the bytes of `cap` slots of
/// `slot_size` bytes.
pub open spec fn converted_capacity(cap: nat, slot_size: nat, elem_size: nat) -> nat
    recommends elem_size > 0,
{
    (cap * slot_size) / elem_size
}

/// The slots of a vector grown for a push: never fewer than before, and room for the new element.
pub proof fn law_push_leaves_room(cap: nat, len: nat, slot_size: nat)
    requires
        len <= cap,
    ensures
        cap <= capacity_after_push(cap, len, slot_size),
        len < capacity_after_push(cap, len, slot_size),
{
}

/// Rereading slots as elements keeps every byte: the new capacity uses no more
/// bytes than the slots, and one more element would not fit in them.
pub proof fn law_converted_capacity_keeps_bytes(cap: nat, slot_size: nat, elem_size: nat)
    requires
        elem_size > 0,
    ensures
        converted_capacity(cap, slot_size, elem_size) * elem_size <= cap * slot_size,
        cap * slot_size < (converted_capacity(cap, slot_size, elem_size) + 1) * elem_size,
{
    let bytes = cap * slot_size;
    let q = bytes / elem_size;
    vstd::arithmetic::div_mod::lemma_fundamental_div_mod(bytes as int, elem_size as int);
    vstd::arithmetic::div_mod::lemma_mod_bound(bytes as int, elem_size as int);
    assert(q * elem_size == elem_size * q) by (nonlinear_arith);
    assert((q + 1) * elem_size == elem_size * q + elem_size) by (nonlinear_arith);
}

/// A member no larger than a slot fits at least as many times as there are slots.
pub proof fn law_converted_capacity_covers_slots(cap: nat, slot_size: nat, elem_size: nat)
    requires
        0 < elem_size <= slot_size,
    ensures
        cap <= converted_capacity(cap, slot_size, elem_size),
{
    law_converted_capacity_keeps_bytes(cap, slot_size, elem_size);
    let c = converted_capacity(cap, slot_size, elem_size);
    assert(cap * elem_size <= cap * slot_size) by (nonlinear_arith)
        requires elem_size <= slot_size;
    assert(cap * elem_size < (c + 1) * elem_size);
    assert(cap < c + 1) by (nonlinear_arith)
        requires cap * elem_size < (c + 1) * elem_size, elem_size > 0;
}

/// Executable form of `capacity_after_push`, for a vector whose slots have a size.
pub fn next_capacity(cap: usize, len: usize, slot_size: usize) -> (r: usize)
    requires
        len <= cap,
        slot_size > 0,
        fits_allocation(cap as nat, slot_size as nat),
        can_push(cap as nat, len as nat, slot_size as nat),
    ensures
        r as nat == capacity_after_push(cap as nat, len as nat, slot_size as nat),
        fits_allocation(r as nat, slot_size as nat),
{
    if len < cap {
        return cap;
    }
    assert(cap <= cap * slot_size) by (nonlinear_arith)
        requires slot_size > 0;
    let doubled = if cap * 2 >= len + 1 { cap * 2 } else { len + 1 };
    let min_cap: usize = if slot_size == 1 {
        8
    } else if slot_size <= 1024 {
        4
    } else {
        1
    };
    if doubled >= min_cap { doubled } else { min_cap }
}

/// Executable form of `converted_capacity`.
pub fn convert_capacity(cap: usize, slot_size: usize, elem_size: usize) -> (r: usize)
    requires
        elem_size > 0,
        fits_allocation(cap as nat, slot_size as nat) || slot_size == 0,
    ensures
        r as nat == converted_capacity(cap as nat, slot_size as nat, elem_size as nat),
{
    if slot_size == 0 {
        assert(cap * slot_size == 0) by (nonlinear_arith)
            requires slot_size == 0;
        return 0;
    }
    let bytes = cap * slot_size;
    bytes / elem_size
}

} // verus!

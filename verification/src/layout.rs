//! Slot layout of a union of types, and the selectors that name its members.

use vstd::prelude::*;
use vstd::layout::{size_of, align_of, layout_for_type_is_valid};

verus! {

/// The larger of two naturals.
pub open spec fn nat_max(a: nat, b: nat) -> nat {
    if a >= b { a } else { b }
}

/// The least multiple of `align` that is at least `size`.
pub open spec fn round_up(size: nat, align: nat) -> nat
    recommends align > 0,
{
    if size % align == 0 { size } else { size + (align - size % align) as nat }
}

/// Size of a slot that can hold any member of a union whose largest member
/// has `max_size` bytes and whose strictest member alignment is `max_align`.
pub open spec fn slot_size_for(max_size: nat, max_align: nat) -> nat {
    round_up(max_size, max_align)
}

/// A union of types: every value of a member type fits in one slot.
pub trait TypeUnion {
    /// Size in bytes of one slot.
    spec fn spec_slot_size() -> nat;

    /// Alignment in bytes of one slot.
    spec fn spec_slot_align() -> nat;

    /// Size in bytes of one slot; a multiple of the slot alignment.
    fn slot_size() -> (size: usize)
        ensures
            size as nat == Self::spec_slot_size(),
            Self::spec_slot_align() > 0,
            size as nat % Self::spec_slot_align() == 0,
    ;

    /// Alignment in bytes of one slot; never zero.
    fn slot_align() -> (align: usize)
        ensures
            align as nat == Self::spec_slot_align(),
            align > 0,
    ;
}

/// Names a member of a union by its position.
pub trait Selector {}

/// The first member of a union.
pub struct Type1;

/// The second member of a union.
pub struct Type2;

/// The third member of a union.
pub struct Type3;

impl Selector for Type1 {}

impl Selector for Type2 {}

impl Selector for Type3 {}

/// The member of a union that the selector `S` names.
pub trait Select<S: Selector>: TypeUnion {
    type Output;
}

/// Rounding up gives a multiple of the alignment, less than one alignment above.
pub proof fn lemma_round_up(size: nat, align: nat)
    requires
        align > 0,
    ensures
        round_up(size, align) % align == 0,
        size <= round_up(size, align) < size + align,
{
    let r = size % align;
    vstd::arithmetic::div_mod::lemma_fundamental_div_mod(size as int, align as int);
    if r != 0 {
        let q = size / align;
        assert(size + (align - r) == align * (q + 1)) by (nonlinear_arith)
            requires size == align * q + r;
        vstd::arithmetic::div_mod::lemma_mod_multiples_basic((q + 1) as int, align as int);
        assert(align * (q + 1) == (q + 1) * align) by (nonlinear_arith);
    }
}

/// Rounds `size` up to a multiple of `align`, as the slot size of a union
/// whose largest member has `size` bytes and whose strictest alignment is `align`.
fn round_up_exec(size: usize, align: usize) -> (r: usize)
    requires
        align > 0,
        size <= isize::MAX,
    ensures
        r as nat == round_up(size as nat, align as nat),
{
    let rem = size % align;
    if rem == 0 {
        size
    } else {
        assert(size + (align - rem) <= usize::MAX) by {
            if align > isize::MAX {
                assert(size < align);
                vstd::arithmetic::div_mod::lemma_small_mod(size as nat, align as nat);
            }
        }
        size + (align - rem)
    }
}

/// The larger of two sizes or alignments.
fn usize_max(a: usize, b: usize) -> (r: usize)
    ensures
        r as nat == nat_max(a as nat, b as nat),
{
    if a >= b { a } else { b }
}

impl<A, B> TypeUnion for (A, B) {
    open spec fn spec_slot_align() -> nat {
        nat_max(align_of::<A>(), align_of::<B>())
    }

    open spec fn spec_slot_size() -> nat {
        slot_size_for(nat_max(size_of::<A>(), size_of::<B>()), Self::spec_slot_align())
    }

    fn slot_size() -> (size: usize) {
        layout_for_type_is_valid::<A>();
        layout_for_type_is_valid::<B>();
        let max_size = usize_max(core::mem::size_of::<A>(), core::mem::size_of::<B>());
        let max_align = usize_max(core::mem::align_of::<A>(), core::mem::align_of::<B>());
        proof {
            lemma_round_up(max_size as nat, max_align as nat);
        }
        round_up_exec(max_size, max_align)
    }

    fn slot_align() -> (align: usize) {
        layout_for_type_is_valid::<A>();
        layout_for_type_is_valid::<B>();
        usize_max(core::mem::align_of::<A>(), core::mem::align_of::<B>())
    }
}

impl<A, B> Select<Type1> for (A, B) {
    type Output = A;
}

impl<A, B> Select<Type2> for (A, B) {
    type Output = B;
}

impl<A, B, C> TypeUnion for (A, B, C) {
    open spec fn spec_slot_align() -> nat {
        nat_max(nat_max(align_of::<A>(), align_of::<B>()), align_of::<C>())
    }

    open spec fn spec_slot_size() -> nat {
        slot_size_for(
            nat_max(nat_max(size_of::<A>(), size_of::<B>()), size_of::<C>()),
            Self::spec_slot_align(),
        )
    }

    fn slot_size() -> (size: usize) {
        layout_for_type_is_valid::<A>();
        layout_for_type_is_valid::<B>();
        layout_for_type_is_valid::<C>();
        let max_size = usize_max(
            usize_max(core::mem::size_of::<A>(), core::mem::size_of::<B>()),
            core::mem::size_of::<C>(),
        );
        let max_align = usize_max(
            usize_max(core::mem::align_of::<A>(), core::mem::align_of::<B>()),
            core::mem::align_of::<C>(),
        );
        proof {
            lemma_round_up(max_size as nat, max_align as nat);
        }
        round_up_exec(max_size, max_align)
    }

    fn slot_align() -> (align: usize) {
        layout_for_type_is_valid::<A>();
        layout_for_type_is_valid::<B>();
        layout_for_type_is_valid::<C>();
        usize_max(
            usize_max(core::mem::align_of::<A>(), core::mem::align_of::<B>()),
            core::mem::align_of::<C>(),
        )
    }
}

impl<A, B, C> Select<Type1> for (A, B, C) {
    type Output = A;
}

impl<A, B, C> Select<Type2> for (A, B, C) {
    type Output = B;
}

impl<A, B, C> Select<Type3> for (A, B, C) {
    type Output = C;
}

} // verus!

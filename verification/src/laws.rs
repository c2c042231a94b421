//! Properties that relate several operations of union vectors.

use vstd::prelude::*;
use vstd::arithmetic::power2::is_pow2;
use vstd::arithmetic::power::pow;
use vstd::layout::align_of;
use crate::unionvec::{keep_some, mapped_by, filter_mapped_by, misaligned};
use crate::layout::{TypeUnion, nat_max};
use crate::capacity::capacity_after_push;

verus! {

/// A closure whose result is fixed by its argument.
pub open spec fn deterministic<A, O, F: Fn(A) -> O>(f: F) -> bool {
    forall|x: A, y1: O, y2: O|
        #![trigger call_ensures(f, (x,), y1), call_ensures(f, (x,), y2)]
        call_ensures(f, (x,), y1) && call_ensures(f, (x,), y2) ==> y1 == y2
}

/// Popping right after pushing `x` gives `x` back and leaves the elements, and
/// so the length, as they were before the push: `before` is the vector's view,
/// `pushed` its view after `push(x)`, and `popped`, `after` what the following
/// `pop` returns and leaves, as the contracts of `push` and `pop` state them.
pub proof fn law_pop_undoes_push<T>(before: Seq<T>, x: T, pushed: Seq<T>, popped: Option<T>, after: Seq<T>)
    requires
        pushed == before.push(x),
        pushed.len() > 0 ==> popped == Some(pushed.last()) && after == pushed.drop_last(),
        pushed.len() == 0 ==> popped is None && after == pushed,
    ensures
        popped == Some(x),
        after == before,
        after.len() == before.len(),
{
    assert(before.push(x).drop_last() =~= before);
}

/// A push onto a vector that still has a free slot keeps the slots as they are:
/// a vector made with room for `n` elements takes `n` elements without growing.
pub proof fn law_push_within_capacity_keeps_slots(cap: nat, len: nat, slot_size: nat)
    requires
        len < cap,
    ensures
        capacity_after_push(cap, len, slot_size) == cap,
{
}

/// With a closure whose result is fixed by its argument, mapping gives one
/// result only: `map_into_vec` yields the same elements as `map` followed by
/// `into_vec`.
pub proof fn law_map_into_vec_agrees_with_map<A, O, F: Fn(A) -> O>(
    f: F,
    items: Seq<A>,
    via_map: Seq<O>,
    direct: Seq<O>,
)
    requires
        deterministic(f),
        mapped_by(f, items, via_map),
        mapped_by(f, items, direct),
    ensures
        via_map == direct,
{
    assert forall|i: int| 0 <= i < items.len() implies via_map[i] == direct[i] by {
        assert(call_ensures(f, (items[i],), via_map[i]));
        assert(call_ensures(f, (items[i],), direct[i]));
    }
    assert(via_map =~= direct);
}

/// With a closure whose result is fixed by its argument, filter-mapping gives
/// one result only: `flat_map_into_vec` yields the same elements as
/// `filter_map` followed by `into_vec`.
pub proof fn law_flat_map_into_vec_agrees_with_filter_map<A, O, F: Fn(A) -> Option<O>>(
    f: F,
    items: Seq<A>,
    via_filter_map: Seq<O>,
    direct: Seq<O>,
)
    requires
        deterministic(f),
        filter_mapped_by(f, items, via_filter_map),
        filter_mapped_by(f, items, direct),
    ensures
        via_filter_map == direct,
{
    let outs1 = choose|outs: Seq<Option<O>>| {
        &&& outs.len() == items.len()
        &&& (forall|i: int| 0 <= i < items.len() ==> call_ensures(f, (items[i],), #[trigger] outs[i]))
        &&& via_filter_map == keep_some(outs)
    };
    let outs2 = choose|outs: Seq<Option<O>>| {
        &&& outs.len() == items.len()
        &&& (forall|i: int| 0 <= i < items.len() ==> call_ensures(f, (items[i],), #[trigger] outs[i]))
        &&& direct == keep_some(outs)
    };
    assert forall|i: int| 0 <= i < items.len() implies outs1[i] == outs2[i] by {
        assert(call_ensures(f, (items[i],), outs1[i]));
        assert(call_ensures(f, (items[i],), outs2[i]));
    }
    assert(outs1 =~= outs2);
}

/// `h` calls `f` and then `g` on what `f` returned.
pub open spec fn composes<A, B, C, F: Fn(A) -> B, G: Fn(B) -> C, H: Fn(A) -> C>(h: H, f: F, g: G) -> bool {
    forall|t: A, y: B, z: C|
        #![trigger call_ensures(f, (t,), y), call_ensures(h, (t,), z)]
        call_ensures(f, (t,), y) && call_ensures(h, (t,), z) ==> call_ensures(g, (y,), z)
}

/// Mapping by `f` and then by `g` gives the same elements as mapping once by
/// their composition `h`, when `g`'s result is fixed by its argument (both
/// ways keep the slot count, as `map` states).
pub proof fn law_map_composes<A, B, C, F: Fn(A) -> B, G: Fn(B) -> C, H: Fn(A) -> C>(
    f: F,
    g: G,
    h: H,
    items: Seq<A>,
    once: Seq<B>,
    twice: Seq<C>,
    composed: Seq<C>,
)
    requires
        deterministic(g),
        composes(h, f, g),
        mapped_by(f, items, once),
        mapped_by(g, once, twice),
        mapped_by(h, items, composed),
    ensures
        twice == composed,
{
    assert forall|i: int| 0 <= i < items.len() implies twice[i] == composed[i] by {
        assert(call_ensures(f, (items[i],), once[i]));
        assert(call_ensures(h, (items[i],), composed[i]));
        assert(call_ensures(g, (once[i],), twice[i]));
        assert(call_ensures(g, (once[i],), composed[i]));
    }
    assert(twice =~= composed);
}

/// Of two powers of two, the larger is a multiple of the smaller.
pub proof fn lemma_pow2_multiple(a: nat, b: nat)
    requires
        is_pow2(a as int),
        is_pow2(b as int),
        a <= b,
    ensures
        b % a == 0,
{
    broadcast use vstd::arithmetic::power2::is_pow2_equiv;
    assert(vstd::arithmetic::power2::is_pow2_exists(a as int));
    assert(vstd::arithmetic::power2::is_pow2_exists(b as int));
    let i = choose|i: nat| pow(2, i) == a as int;
    let j = choose|j: nat| pow(2, j) == b as int;
    if j < i {
        vstd::arithmetic::power::lemma_pow_strictly_increases(2, j, i);
    }
    let d = (j - i) as nat;
    vstd::arithmetic::power::lemma_pow_adds(2, d, i);
    assert(d + i == j);
    vstd::arithmetic::power::lemma_pow_positive(2, d);
    vstd::arithmetic::power::lemma_pow_positive(2, i);
    vstd::arithmetic::div_mod::lemma_mod_multiples_basic(pow(2, d), a as int);
}

/// The slots of a pair never refuse to be reread as either member: the slot
/// alignment is a multiple of each member's alignment, as alignments are powers of two.
pub proof fn law_pair_members_aligned<A, B>()
    requires
        is_pow2(align_of::<A>() as int),
        is_pow2(align_of::<B>() as int),
    ensures
        !misaligned::<A, (A, B)>(),
        !misaligned::<B, (A, B)>(),
{
    let m = nat_max(align_of::<A>(), align_of::<B>());
    lemma_pow2_multiple(align_of::<A>(), m);
    lemma_pow2_multiple(align_of::<B>(), m);
}

/// The slots of a triple never refuse to be reread as any member.
pub proof fn law_triple_members_aligned<A, B, C>()
    requires
        is_pow2(align_of::<A>() as int),
        is_pow2(align_of::<B>() as int),
        is_pow2(align_of::<C>() as int),
    ensures
        !misaligned::<A, (A, B, C)>(),
        !misaligned::<B, (A, B, C)>(),
        !misaligned::<C, (A, B, C)>(),
{
    let m = nat_max(nat_max(align_of::<A>(), align_of::<B>()), align_of::<C>());
    lemma_pow2_multiple(align_of::<A>(), m);
    lemma_pow2_multiple(align_of::<B>(), m);
    lemma_pow2_multiple(align_of::<C>(), m);
}

/// Collecting elements into a union vector and converting it back with
/// `into_vec` gives them back unchanged, for a type whose slots are aligned
/// for it (every member of a pair or triple, by the laws above): `collected` is
/// the view that `from_iter` gives, `r` what `into_vec` then returns, as the
/// contracts of `from_iter` and `into_vec` state them.
pub proof fn law_into_vec_undoes_from_iter<T, U: TypeUnion>(
    items: Seq<T>,
    collected: Seq<T>,
    r: Result<Vec<T>, crate::unionvec::AlignError>,
)
    requires
        !misaligned::<T, U>(),
        collected == items,
        r is Err <==> misaligned::<T, U>(),
        r matches Ok(v) ==> v@ == collected,
    ensures
        r matches Ok(v) && v@ == items,
{
}

} // verus!

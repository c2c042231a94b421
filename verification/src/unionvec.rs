//! A vector of elements that all have one member type of a union.

use vstd::prelude::*;
use vstd::layout::{size_of, align_of, layout_for_type_is_valid};
use core::marker::PhantomData;
use core::ops::Range;
use crate::layout::{TypeUnion, Select, Selector};
use crate::capacity::{initial_capacity, fits_allocation, capacity_after_push, can_push, next_capacity, convert_capacity};

verus! {

/// The values among `outs`, in order, with every `None` left out.
pub open spec fn keep_some<O>(outs: Seq<Option<O>>) -> Seq<O>
    decreases outs.len(),
{
    if outs.len() == 0 {
        Seq::empty()
    } else {
        let rest = keep_some(outs.drop_last());
        match outs.last() {
            Some(x) => rest.push(x),
            None => rest,
        }
    }
}

/// `out` is what calling `f` on each element of `items`, in order, can give.
pub open spec fn mapped_by<A, O, F: Fn(A) -> O>(f: F, items: Seq<A>, out: Seq<O>) -> bool {
    &&& out.len() == items.len()
    &&& forall|i: int| 0 <= i < items.len() ==> call_ensures(f, (items[i],), #[trigger] out[i])
}

/// `out` is what calling `f` on each element of `items`, in order, and keeping
/// the values of the `Some` results, can give.
pub open spec fn filter_mapped_by<A, O, F: Fn(A) -> Option<O>>(f: F, items: Seq<A>, out: Seq<O>) -> bool {
    exists|outs: Seq<Option<O>>|
        {
            &&& outs.len() == items.len()
            &&& (forall|i: int| 0 <= i < items.len() ==> call_ensures(f, (items[i],), #[trigger] outs[i]))
            &&& out == keep_some(outs)
        }
}

/// `f` may be called on every element of `items`.
pub open spec fn callable_on_all<A, O, F: Fn(A) -> O>(f: F, items: Seq<A>) -> bool {
    forall|i: int| 0 <= i < items.len() ==> call_requires(f, (#[trigger] items[i],))
}

/// Slots of the union `U` cannot be reread as elements of type `T`: the slot
/// alignment is not a multiple of the alignment of `T`.
pub open spec fn misaligned<T, U: TypeUnion>() -> bool {
    U::spec_slot_align() % align_of::<T>() != 0
}

/// Rereading slots of `U` as elements of `T` can be done without dividing by a
/// size of zero: either it is refused for alignment, or `T` has a size.
pub open spec fn convertible<T, U: TypeUnion>() -> bool {
    misaligned::<T, U>() || size_of::<T>() > 0
}

/// Whether slots of `U` can be reread as elements of `T`, computed.
fn check_alignment<T, U: TypeUnion>() -> (aligned: bool)
    ensures
        aligned == !misaligned::<T, U>(),
{
    layout_for_type_is_valid::<T>();
    let slot_align = U::slot_align();
    slot_align % core::mem::align_of::<T>() == 0
}

/// Moves the elements of `data` into a vector sized for the bytes of `cap`
/// slots of `U` reread as elements of `T`.
fn into_resized<T, U: TypeUnion>(data: Vec<T>, cap: usize) -> (v: Vec<T>)
    requires
        size_of::<T>() > 0,
        U::spec_slot_size() == 0 || fits_allocation(cap as nat, U::spec_slot_size()),
    ensures
        v@ == data@,
{
    let slot_size = U::slot_size();
    layout_for_type_is_valid::<T>();
    let new_cap = convert_capacity(cap, slot_size, core::mem::size_of::<T>());
    let mut v: Vec<T> = Vec::with_capacity(new_cap);
    let mut data = data;
    v.append(&mut data);
    v
}

/// An empty vector of `E` with room reserved for `slots` elements, when `E`
/// fits in a slot of `U`; elements of a larger type get no reservation, so
/// that the reservation never exceeds the bytes of the slots.
fn storage_for<E, U: TypeUnion>(slots: usize) -> (v: Vec<E>)
    requires
        U::spec_slot_size() == 0 || fits_allocation(slots as nat, U::spec_slot_size()),
    ensures
        v@ == Seq::<E>::empty(),
{
    let slot_size = U::slot_size();
    let elem_size = core::mem::size_of::<E>();
    if elem_size == 0 || (slot_size != 0 && elem_size <= slot_size) {
        Vec::with_capacity(slots)
    } else {
        Vec::new()
    }
}

/// Returned when the slots of a union vector cannot be reread as another type
/// because the slot alignment is not a multiple of that type's alignment.
#[derive(Debug, PartialEq, Eq)]
pub struct AlignError;

/// A vector that holds elements of one member `T` of the union `U` at a time,
/// and can switch, for all elements at once, to another member of the union.
///
/// The elements live in a `Vec<T>`. Its capacity is counted in slots of the
/// union `U`: the count models one buffer of union slots that would be kept
/// across changes of member type. The slot count is what `capacity` reports and
/// what the contracts speak of; the `Vec<T>` reserves room for that many elements
/// where it is made with a given capacity (`with_capacity`, `into_data`), while
/// the operations that change the member type build a new `Vec` of the new type.
pub struct UnionVec<T, U: TypeUnion> {
    data: Vec<T>,
    cap: usize,
    marker: PhantomData<U>,
}

impl<T, U: TypeUnion> View for UnionVec<T, U> {
    type V = Seq<T>;

    closed spec fn view(&self) -> Seq<T> {
        self.data@
    }
}

impl<T, U: TypeUnion> UnionVec<T, U> {
    /// Number of union slots counted as the vector's capacity.
    pub closed spec fn slots(&self) -> nat {
        self.cap as nat
    }

    /// The vector is well formed: its elements fit in its slot count, and that
    /// many slots would fit in one allocation (slots without size count as unbounded).
    pub closed spec fn wf(&self) -> bool {
        &&& self.data@.len() <= self.cap
        &&& if U::spec_slot_size() == 0 {
            self.cap == usize::MAX
        } else {
            fits_allocation(self.cap as nat, U::spec_slot_size())
        }
    }

    /// A well-formed vector never holds more elements than it has slots.
    pub proof fn law_len_within_capacity(&self)
        requires
            self.wf(),
        ensures
            self@.len() <= self.slots(),
    {
    }

    /// Constructs a new, empty union vector, with a slot count of zero (unbounded
    /// for slots without size); it allocates nothing.
    pub fn new() -> (v: Self)
        ensures
            v.wf(),
            v@ == Seq::<T>::empty(),
            v.slots() == initial_capacity(0, U::spec_slot_size()),
    {
        let slot_size = U::slot_size();
        let cap = if slot_size == 0 { usize::MAX } else { 0 };
        UnionVec { data: Vec::new(), cap, marker: PhantomData }
    }

    /// Constructs a new, empty union vector with a slot count of exactly `n`
    /// (unbounded for slots without size), reserving room for `n` elements
    /// when `T` fits in a slot.
    pub fn with_capacity(n: usize) -> (v: Self)
        requires
            fits_allocation(n as nat, U::spec_slot_size()),
        ensures
            v.wf(),
            v@ == Seq::<T>::empty(),
            v.slots() == initial_capacity(n as nat, U::spec_slot_size()),
    {
        let slot_size = U::slot_size();
        let cap = if slot_size == 0 { usize::MAX } else { n };
        UnionVec { data: storage_for::<T, U>(cap), cap, marker: PhantomData }
    }

    /// Number of elements.
    pub fn len(&self) -> (n: usize)
        ensures
            n == self@.len(),
    {
        self.data.len()
    }

    /// The slot count: the number of elements the vector holds before a push
    /// grows the count.
    pub fn capacity(&self) -> (n: usize)
        ensures
            n == self.slots(),
    {
        self.cap
    }

    /// Appends `item`, growing the slot count when every slot is in use.
    pub fn push(&mut self, item: T)
        requires
            old(self).wf(),
            can_push(old(self).slots(), old(self)@.len(), U::spec_slot_size()),
        ensures
            final(self).wf(),
            final(self)@ == old(self)@.push(item),
            final(self).slots() == (if U::spec_slot_size() == 0 {
                old(self).slots()
            } else {
                capacity_after_push(old(self).slots(), old(self)@.len(), U::spec_slot_size())
            }),
    {
        let slot_size = U::slot_size();
        if slot_size != 0 {
            self.cap = next_capacity(self.cap, self.data.len(), slot_size);
        }
        self.data.push(item);
    }

    /// Removes and returns the last element, or `None` when the vector is empty.
    pub fn pop(&mut self) -> (item: Option<T>)
        requires
            old(self).wf(),
        ensures
            final(self).wf(),
            final(self).slots() == old(self).slots(),
            old(self)@.len() > 0 ==> item == Some(old(self)@.last())
                && final(self)@ == old(self)@.drop_last(),
            old(self)@.len() == 0 ==> item is None && final(self)@ == old(self)@,
    {
        self.data.pop()
    }

    /// Hands over the elements, in order, in a vector that reserves room for as
    /// many elements as the slot count when `T` fits in a slot.
    pub fn into_data(self) -> (data: Vec<T>)
        requires
            self.wf(),
        ensures
            data@ == self@,
    {
        let mut storage: Vec<T> = storage_for::<T, U>(self.cap);
        let mut elements = self.data;
        storage.append(&mut elements);
        storage
    }

    /// Drops every element and returns an empty vector of the member that `S`
    /// names, with the same slot count.
    pub fn change_to<S: Selector>(self) -> (v: UnionVec<<U as Select<S>>::Output, U>)
        where U: Select<S>,
        requires
            self.wf(),
        ensures
            v.wf(),
            v@ == Seq::<<U as Select<S>>::Output>::empty(),
            v.slots() == self.slots(),
    {
        UnionVec { data: Vec::new(), cap: self.cap, marker: PhantomData }
    }

    /// Calls `f` on each element in order, and returns a vector of the results,
    /// of the member that `S` names, with the same slot count.
    pub fn map<S: Selector, F>(self, f: F) -> (v: UnionVec<<U as Select<S>>::Output, U>)
        where U: Select<S>, F: Fn(T) -> <U as Select<S>>::Output,
        requires
            self.wf(),
            callable_on_all(f, self@),
        ensures
            v.wf(),
            v.slots() == self.slots(),
            mapped_by(f, self@, v@),
    {
        let ghost old_view = self@;
        let cap = self.cap;
        let data = self.data;
        let mut out: Vec<<U as Select<S>>::Output> = Vec::new();
        for x in it: data.into_iter()
            invariant
                it.seq() == old_view,
                out@.len() == it.index(),
                forall|i: int| 0 <= i < old_view.len() ==> call_requires(f, (#[trigger] old_view[i],)),
                forall|i: int| 0 <= i < it.index() ==> call_ensures(f, (old_view[i],), #[trigger] out@[i]),
        {
            out.push(f(x));
        }
        UnionVec { data: out, cap, marker: PhantomData }
    }

    /// Calls `f` on each element in order and keeps the values of the `Some`
    /// results, in order, in a vector of the member that `S` names, with the same
    /// slot count.
    pub fn filter_map<S: Selector, F>(self, f: F) -> (v: UnionVec<<U as Select<S>>::Output, U>)
        where U: Select<S>, F: Fn(T) -> Option<<U as Select<S>>::Output>,
        requires
            self.wf(),
            callable_on_all(f, self@),
        ensures
            v.wf(),
            v.slots() == self.slots(),
            filter_mapped_by(f, self@, v@),
    {
        let ghost old_view = self@;
        let cap = self.cap;
        let out = filter_map_vec(self.data, &f);
        proof {
            lemma_keep_some_len(choose|outs: Seq<Option<<U as Select<S>>::Output>>| {
                &&& outs.len() == old_view.len()
                &&& (forall|i: int| 0 <= i < old_view.len() ==> call_ensures(f, (old_view[i],), #[trigger] outs[i]))
                &&& out@ == keep_some(outs)
            });
        }
        UnionVec { data: out, cap, marker: PhantomData }
    }

    /// The elements as a vector of `T`, reserving room for as many elements of `T`
    /// as the bytes of the slot count hold; refused
    /// with `AlignError` when the slot alignment is not a multiple of that of `T`.
    pub fn into_vec(self) -> (r: Result<Vec<T>, AlignError>)
        requires
            self.wf(),
            convertible::<T, U>(),
        ensures
            r is Err <==> misaligned::<T, U>(),
            r matches Ok(v) ==> v@ == self@,
    {
        if !check_alignment::<T, U>() {
            return Err(AlignError);
        }
        Ok(into_resized::<T, U>(self.data, self.cap))
    }

    /// Calls `f` on each element in order and returns the results as a vector of
    /// the member that `S` names, reserving room for as many of them as the bytes
    /// of the slot count hold; refused with
    /// `AlignError`, before any call of `f`, when that member's alignment does not
    /// divide the slot alignment.
    pub fn map_into_vec<S: Selector, F>(self, f: F) -> (r: Result<Vec<<U as Select<S>>::Output>, AlignError>)
        where U: Select<S>, F: Fn(T) -> <U as Select<S>>::Output,
        requires
            self.wf(),
            convertible::<<U as Select<S>>::Output, U>(),
            !misaligned::<<U as Select<S>>::Output, U>() ==> callable_on_all(f, self@),
        ensures
            r is Err <==> misaligned::<<U as Select<S>>::Output, U>(),
            r matches Ok(v) ==> mapped_by(f, self@, v@),
    {
        if !check_alignment::<<U as Select<S>>::Output, U>() {
            return Err(AlignError);
        }
        let cap = self.cap;
        let mapped = self.map::<S, F>(f);
        Ok(into_resized::<<U as Select<S>>::Output, U>(mapped.data, cap))
    }

    /// Calls `f` on each element in order and returns the values of the `Some`
    /// results as a vector of the member that `S` names, reserving room for as many
    /// of them as the bytes of the slot count hold; refused with `AlignError`, before any call of `f`, when that member's
    /// alignment does not divide the slot alignment.
    pub fn flat_map_into_vec<S: Selector, F>(self, f: F) -> (r: Result<Vec<<U as Select<S>>::Output>, AlignError>)
        where U: Select<S>, F: Fn(T) -> Option<<U as Select<S>>::Output>,
        requires
            self.wf(),
            convertible::<<U as Select<S>>::Output, U>(),
            !misaligned::<<U as Select<S>>::Output, U>() ==> callable_on_all(f, self@),
        ensures
            r is Err <==> misaligned::<<U as Select<S>>::Output, U>(),
            r matches Ok(v) ==> filter_mapped_by(f, self@, v@),
    {
        if !check_alignment::<<U as Select<S>>::Output, U>() {
            return Err(AlignError);
        }
        let cap = self.cap;
        let kept = self.filter_map::<S, F>(f);
        Ok(into_resized::<<U as Select<S>>::Output, U>(kept.data, cap))
    }

    /// Removes the elements in `range` and returns them, in order; the slot count stays.
    pub fn drain(&mut self, range: Range<usize>) -> (removed: Vec<T>)
        requires
            old(self).wf(),
            range.start <= range.end <= old(self)@.len(),
        ensures
            final(self).wf(),
            final(self).slots() == old(self).slots(),
            removed@ == old(self)@.subrange(range.start as int, range.end as int),
            final(self)@ == old(self)@.subrange(0, range.start as int)
                + old(self)@.subrange(range.end as int, old(self)@.len() as int),
    {
        let mut tail = self.data.split_off(range.end);
        let removed = self.data.split_off(range.start);
        self.data.append(&mut tail);
        removed
    }

    /// The elements, in order.
    pub fn iter(&self) -> (items: &[T])
        ensures
            items@ == self@,
    {
        self.data.as_slice()
    }

    /// The elements, in order, for changing in place.
    pub fn iter_mut(&mut self) -> (items: &mut [T])
        requires
            old(self).wf(),
        ensures
            items@ == old(self)@,
            final(items)@.len() == old(self)@.len() ==> final(self).wf(),
            final(self)@ == final(items)@,
            final(self).slots() == old(self).slots(),
    {
        self.data.as_mut_slice()
    }

    /// A vector of the given elements, in order, with a slot count of exactly
    /// their number (unbounded for slots without size).
    pub fn from_iter(items: Vec<T>) -> (v: Self)
        requires
            fits_allocation(items@.len(), U::spec_slot_size()),
        ensures
            v.wf(),
            v@ == items@,
            v.slots() == initial_capacity(items@.len(), U::spec_slot_size()),
    {
        let slot_size = U::slot_size();
        let n = items.len();
        let cap = if slot_size == 0 { usize::MAX } else { n };
        UnionVec { data: items, cap, marker: PhantomData }
    }
}

impl<T: Clone, U: TypeUnion> Clone for UnionVec<T, U> {
    /// A vector of clones of the elements, in order, with a slot count of
    /// exactly their number (unbounded for slots without size), as a clone of a
    /// buffer holds only its elements.
    fn clone(&self) -> (v: Self)
        ensures
            self.wf() ==> v.wf(),
            v.slots() == initial_capacity(self@.len(), U::spec_slot_size()),
            v@.len() == self@.len(),
            forall|i: int| 0 <= i < self@.len() ==> cloned::<T>(self@[i], #[trigger] v@[i]),
    {
        let slot_size = U::slot_size();
        let data = self.data.clone();
        let n = data.len();
        let cap = if slot_size == 0 { usize::MAX } else { n };
        proof {
            if self.wf() && slot_size != 0 {
                assert(n as nat * slot_size as nat <= self.cap as nat * slot_size as nat) by (nonlinear_arith)
                    requires n <= self.cap;
            }
        }
        UnionVec { data, cap, marker: PhantomData }
    }
}

impl<T, U: TypeUnion> Default for UnionVec<T, U> {
    /// An empty union vector, as `new` makes it.
    fn default() -> (v: Self)
        ensures
            v.wf(),
            v@ == Seq::<T>::empty(),
            v.slots() == initial_capacity(0, U::spec_slot_size()),
    {
        Self::new()
    }
}

/// Calls `f` on each element of `data` in order and keeps the values of the
/// `Some` results, in order.
fn filter_map_vec<A, O, F: Fn(A) -> Option<O>>(data: Vec<A>, f: &F) -> (out: Vec<O>)
    requires
        callable_on_all(*f, data@),
    ensures
        filter_mapped_by(*f, data@, out@),
{
    let ghost items = data@;
    let ghost mut outs: Seq<Option<O>> = Seq::empty();
    let mut out: Vec<O> = Vec::new();
    for x in it: data.into_iter()
        invariant
            it.seq() == items,
            outs.len() == it.index(),
            callable_on_all(*f, items),
            forall|i: int| 0 <= i < it.index() ==> call_ensures(*f, (items[i],), #[trigger] outs[i]),
            out@ == keep_some(outs),
    {
        let y = f(x);
        proof {
            assert(outs.push(y).drop_last() =~= outs);
            outs = outs.push(y);
        }
        match y {
            Some(z) => out.push(z),
            None => {},
        }
    }
    out
}

/// Keeping the `Some` values never gives more values than there were results.
pub proof fn lemma_keep_some_len<O>(outs: Seq<Option<O>>)
    ensures
        keep_some(outs).len() <= outs.len(),
    decreases outs.len(),
{
    if outs.len() > 0 {
        lemma_keep_some_len(outs.drop_last());
    }
}

} // verus!
